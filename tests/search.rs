use eterea_core::{extract_snippet, highlight_matches};

#[test]
fn test_highlight_matches() {
    let text = "Hello world, Rust is great!";
    let result = highlight_matches(text, "rust great", "<mark>", "</mark>");
    assert!(result.contains("<mark>Rust</mark>"));
    assert!(result.contains("<mark>great</mark>"));
}

#[test]
fn test_highlight_empty_query() {
    let text = "Hello world";
    let result = highlight_matches(text, "", "<mark>", "</mark>");
    assert_eq!(result, text);
}

#[test]
fn test_extract_snippet() {
    let text = "This is a long piece of text about Rust programming language and its benefits.";
    let snippet = extract_snippet(text, "Rust", 10);
    assert!(snippet.contains("Rust"));
    assert!(snippet.contains("..."));
}

#[test]
fn highlight_marks_every_occurrence_case_insensitively() {
    let result = highlight_matches("Rust and rust", "RUST", "[", "]");
    assert_eq!(result, "[Rust] and [rust]");
}

#[test]
fn highlight_full_result() {
    let result = highlight_matches("Hello world, Rust is great!", "rust great", "<mark>", "</mark>");
    assert_eq!(result, "Hello world, <mark>Rust</mark> is <mark>great</mark>!");
}

#[test]
fn snippet_exact_context() {
    let text = "This is a long piece of text about Rust programming language and its benefits.";
    let snippet = extract_snippet(text, "Rust", 10);
    assert_eq!(snippet, "...ext about Rust programmi...");
}

#[test]
fn snippet_without_match_returns_opening() {
    assert_eq!(extract_snippet("abcdefghij", "zzz", 2), "abcd...");
    assert_eq!(extract_snippet("abc", "zzz", 2), "abc");
}

#[test]
fn snippet_match_at_start_has_no_leading_ellipsis() {
    assert_eq!(extract_snippet("Rust is fun today", "rust", 3), "Rust is...");
}

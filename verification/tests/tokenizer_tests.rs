use speedreader::tokenize_text;

#[test]
fn tokenize_simple_sentence() {
    let tokens = tokenize_text("The quick brown fox");
    assert_eq!(tokens, vec!["The", "quick", "brown", "fox"]);
}

#[test]
fn tokenize_strips_punctuation() {
    let tokens = tokenize_text("hello, world!");
    assert_eq!(tokens, vec!["hello", "world"]);
}

#[test]
fn tokenize_punctuation_only_chunk_kept_empty() {
    let tokens = tokenize_text("--");
    assert_eq!(tokens, vec![""]);
}

#[test]
fn tokenize_all_whitespace_is_empty() {
    let tokens = tokenize_text("  \t\n  ");
    assert!(tokens.is_empty());
}

#[test]
fn tokenize_empty_is_empty() {
    let tokens = tokenize_text("");
    assert!(tokens.is_empty());
}

#[test]
fn tokenize_token_count_matches_chunks() {
    let text = "one -- three  four! \n five";
    let chunks = text.split_whitespace().count();
    let tokens = tokenize_text(text);
    assert_eq!(tokens.len(), chunks);
    assert_eq!(tokens, vec!["one", "", "three", "four", "five"]);
}

#[test]
fn tokenize_tokens_are_alphanumeric() {
    let tokens = tokenize_text("it's a te-st, (num4er) 2!");
    for t in &tokens {
        assert!(t.chars().all(|c| c.is_alphanumeric()));
    }
    assert_eq!(tokens, vec!["its", "a", "test", "num4er", "2"]);
}

#[test]
fn tokenize_mixed_unicode_whitespace() {
    let tokens = tokenize_text("a\u{a0}b c");
    assert_eq!(tokens, vec!["a", "b", "c"]);
}

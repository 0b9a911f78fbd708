use thus_saith::tokenizer::Tokenizer;

fn chars(text: &str) -> Vec<char> {
    Tokenizer::tokenize(text).iter().map(|t| t.value()).collect()
}

#[test]
fn trailing_whitespace_is_removed() {
    assert_eq!(chars("hello \t\n"), vec!['h', 'e', 'l', 'l', 'o']);
}

#[test]
fn leading_and_inner_whitespace_is_kept() {
    assert_eq!(chars("  a b\u{3000}"), vec![' ', ' ', 'a', ' ', 'b']);
}

#[test]
fn empty_and_blank_texts_give_no_tokens() {
    assert!(chars("").is_empty());
    assert!(chars(" \n\u{2003}").is_empty());
}

#[test]
fn multibyte_characters_are_single_tokens() {
    assert_eq!(chars("我来了。"), vec!['我', '来', '了', '。']);
    assert_eq!(chars("\u{1b}[1m"), vec!['\u{1b}', '[', '1', 'm']);
}

use asq::entities::prompt::{FrondmatterKind, Prompt};
use asq::text::{
    endpoint_with_path, is_whitespace, join_lines_chars, split_lines, str_chars,
    string_from_chars, trim_slashes_str, trim_str,
};

fn lines(s: &str) -> Vec<String> {
    let chars: Vec<char> = s.chars().collect();
    split_lines(&chars)
        .iter()
        .map(|l| l.iter().collect::<String>())
        .collect()
}

#[test]
fn split_lines_matches_str_lines() {
    for s in [
        "",
        "a",
        "a\n",
        "a\nb",
        "a\r\nb\r\n",
        "\n",
        "\n\n",
        "a\rb",
        "x\r",
        "one\n\ntwo\r\n\r\nthree",
    ] {
        let expected: Vec<String> = s.lines().map(|l| l.to_string()).collect();
        assert_eq!(lines(s), expected, "input {:?}", s);
    }
}

#[test]
fn join_lines_puts_newlines_between() {
    let v = vec![vec!['a'], vec![], vec!['b', 'c']];
    assert_eq!(join_lines_chars(&v).iter().collect::<String>(), "a\n\nbc");
    let empty: Vec<Vec<char>> = Vec::new();
    assert!(join_lines_chars(&empty).is_empty());
}

#[test]
fn whitespace_matches_char_is_whitespace() {
    for code in 0u32..=0x10FFFF {
        if let Some(c) = char::from_u32(code) {
            assert_eq!(is_whitespace(c), c.is_whitespace(), "code point {:#x}", code);
        }
    }
}

#[test]
fn trim_matches_std() {
    for s in ["", "  ", " a ", "\u{3000}x\u{85}", "\t\na b\r\n"] {
        assert_eq!(trim_str(s), s.trim());
    }
    for s in ["", "/", "//a//", "/a/b/", "a"] {
        assert_eq!(trim_slashes_str(s), s.trim_matches('/'));
    }
}

#[test]
fn endpoint_urls() {
    assert_eq!(
        endpoint_with_path(" https://api.example.com/v1/ ", true, "/chat/completions"),
        "https://api.example.com/v1/chat/completions"
    );
    assert_eq!(
        endpoint_with_path("http://127.0.0.1:11434//", false, "/api/generate"),
        "http://127.0.0.1:11434/api/generate"
    );
    // Without whitespace trimming, surrounding spaces stay.
    assert_eq!(endpoint_with_path(" http://h/ ", false, "/x"), " http://h/ /x");
}

#[test]
fn trailing_slash_ignored_law() {
    for tw in [true, false] {
        assert_eq!(
            endpoint_with_path("https://h/v1/", tw, "/models"),
            endpoint_with_path("https://h/v1", tw, "/models")
        );
    }
}

#[test]
fn chars_round_trip() {
    let s = "héllo ✓";
    assert_eq!(string_from_chars(&str_chars(s)), s);
}

fn raw_text(k: &FrondmatterKind) -> &str {
    match k {
        FrondmatterKind::Raw(s) => s.as_str(),
    }
}

#[test]
fn prompt_without_frontmatter() {
    let p = Prompt::new("Explain this:\nsome code");
    assert!(p.frontmatter().is_none());
    assert_eq!(p.prompt(), "Explain this:\nsome code");
    let (fm, prompt) = p.split_prompt();
    assert_eq!(fm, None);
    assert_eq!(prompt, "Explain this:\nsome code");
}

#[test]
fn prompt_with_frontmatter_block() {
    let p = Prompt::new("---\nmodel: x\ntemperature: 1\n---\nHello\nworld");
    assert_eq!(p.frontmatter().map(raw_text), Some("model: x\ntemperature: 1"));
    assert_eq!(p.prompt(), "Hello\nworld");
}

#[test]
fn whitespace_only_frontmatter_is_dropped() {
    let p = Prompt::new("---\n  \n\t\n---\nAsk");
    assert!(p.frontmatter().is_none());
    assert_eq!(p.prompt(), "Ask");
    let (fm, prompt) = p.split_prompt();
    assert_eq!(fm, Some("  \n\t".to_string()));
    assert_eq!(prompt, "Ask");
}

#[test]
fn empty_frontmatter_block_is_absent() {
    let p = Prompt::new("---\n---\nAsk");
    let (fm, prompt) = p.split_prompt();
    assert_eq!(fm, None);
    assert_eq!(prompt, "Ask");
    assert!(p.frontmatter().is_none());
}

#[test]
fn markers_toggle_anywhere() {
    let p = Prompt::new("a\n---\nb\n---\nc\n---\nd");
    let (fm, prompt) = p.split_prompt();
    assert_eq!(fm, Some("b\nd".to_string()));
    assert_eq!(prompt, "a\nc");
}

#[test]
fn crlf_template() {
    let p = Prompt::new("---\r\nkey: v\r\n---\r\nbody\r\n");
    assert_eq!(p.frontmatter().map(raw_text), Some("key: v"));
    assert_eq!(p.prompt(), "body");
}

#[test]
fn marker_with_spaces_is_not_a_marker() {
    let p = Prompt::new(" ---\nx");
    assert!(p.frontmatter().is_none());
    assert_eq!(p.prompt(), " ---\nx");
}

#[test]
fn parse_and_memoized_parse_agree() {
    let p = Prompt::new("---\nf\n---\np");
    let (fm, prompt) = p.parse();
    let memo = p.parse_memoized();
    assert_eq!(fm.as_ref().map(raw_text), memo.0.as_ref().map(raw_text));
    assert_eq!(prompt, memo.1);
}

#[test]
fn empty_template() {
    let p = Prompt::new("");
    assert!(p.frontmatter().is_none());
    assert_eq!(p.prompt(), "");
}

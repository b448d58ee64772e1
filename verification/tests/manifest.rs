use md5sum::manifest::{char_is_whitespace, parse_manifest_line};

fn fields(line: &str) -> Option<(String, String)> {
    parse_manifest_line(line).map(|entry| (entry.expected_digest, entry.target_path))
}

fn pair(digest: &str, path: &str) -> Option<(String, String)> {
    Some((digest.to_string(), path.to_string()))
}

#[test]
fn whitespace_is_the_unicode_property() {
    let mut code: u32 = 0;
    while code <= 0x10FFFF {
        if let Some(c) = char::from_u32(code) {
            assert_eq!(char_is_whitespace(c), c.is_whitespace(), "U+{:04X}", code);
        }
        code += 1;
    }
}

#[test]
fn whitespace_samples() {
    assert!(char_is_whitespace(' '));
    assert!(char_is_whitespace('\t'));
    assert!(char_is_whitespace('\n'));
    assert!(char_is_whitespace('\r'));
    assert!(char_is_whitespace('\u{A0}'));
    assert!(char_is_whitespace('\u{3000}'));
    assert!(!char_is_whitespace('*'));
    assert!(!char_is_whitespace('a'));
    assert!(!char_is_whitespace('\u{200B}'));
    assert!(!char_is_whitespace('\u{180E}'));
}

#[test]
fn two_tokens_are_an_entry() {
    assert_eq!(
        fields("65a8e27d8879283831b664bd8b7f0ad4 hello.txt"),
        pair("65a8e27d8879283831b664bd8b7f0ad4", "hello.txt")
    );
}

#[test]
fn any_amount_of_whitespace_separates() {
    assert_eq!(fields("abc  def"), pair("abc", "def"));
    assert_eq!(fields("abc\tdef"), pair("abc", "def"));
    assert_eq!(fields("  abc \t def  "), pair("abc", "def"));
    assert_eq!(fields("abc def\r"), pair("abc", "def"));
    assert_eq!(fields("abc\u{3000}def"), pair("abc", "def"));
    assert_eq!(fields("abc\u{A0}d\u{e9}f"), pair("abc", "d\u{e9}f"));
}

#[test]
fn other_token_counts_are_malformed() {
    assert!(parse_manifest_line("").is_none());
    assert!(parse_manifest_line("   ").is_none());
    assert!(parse_manifest_line("abc").is_none());
    assert!(parse_manifest_line(" abc ").is_none());
    assert!(parse_manifest_line("abc def ghi").is_none());
    assert!(parse_manifest_line("a b c d").is_none());
}

#[test]
fn a_path_with_a_space_is_malformed() {
    assert!(parse_manifest_line("65a8e27d8879283831b664bd8b7f0ad4 my file.txt").is_none());
}

#[test]
fn the_binary_mode_character_is_no_separator() {
    assert!(parse_manifest_line("65a8e27d8879283831b664bd8b7f0ad4*hello.txt").is_none());
    assert_eq!(
        fields("65a8e27d8879283831b664bd8b7f0ad4 *hello.txt"),
        pair("65a8e27d8879283831b664bd8b7f0ad4", "*hello.txt")
    );
}

#[test]
fn a_zero_width_space_is_no_separator() {
    assert!(parse_manifest_line("abc\u{200B}def").is_none());
}

#[test]
fn parsing_agrees_with_splitting_at_whitespace() {
    let lines: [&str; 12] = [
        "",
        " ",
        "a",
        "a b",
        "a  b",
        " a b ",
        "a b c",
        "\ta\u{2003}b\u{2028}",
        "d41d8cd98f00b204e9800998ecf8427e  empty",
        "x\u{85}y",
        "\u{1680}x y z\u{205F}",
        "\u{4e2d}\u{6587} \u{1F600}",
    ];
    for line in lines {
        let parts: Vec<&str> = line.split_whitespace().collect();
        let expected = if parts.len() == 2 { pair(parts[0], parts[1]) } else { None };
        assert_eq!(fields(line), expected, "{:?}", line);
    }
}

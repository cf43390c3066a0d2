use ohmybug_bridge::text::trim;

#[test]
fn trim_removes_white_space_at_both_ends() {
    assert_eq!(trim("  hello \t\n"), "hello");
    assert_eq!(trim("hello"), "hello");
    assert_eq!(trim("\nhello"), "hello");
    assert_eq!(trim("hello\n"), "hello");
}

#[test]
fn trim_keeps_white_space_inside() {
    assert_eq!(trim(" a  b\tc \n d "), "a  b\tc \n d");
}

#[test]
fn trim_of_nothing_but_white_space_is_empty() {
    assert_eq!(trim(""), "");
    assert_eq!(trim(" "), "");
    assert_eq!(trim(" \t\r\n\u{b}\u{c}"), "");
}

#[test]
fn trim_knows_white_space_beyond_ascii() {
    assert_eq!(trim("\u{a0}\u{3000}v1\u{2028}\u{85}"), "v1");
    assert_eq!(trim("\u{1680}\u{2003}é\u{205f}"), "é");
}

#[test]
fn trim_keeps_what_is_not_white_space() {
    assert_eq!(trim("\u{200b}v1\u{feff}"), "\u{200b}v1\u{feff}");
    assert_eq!(trim(" \u{200b} "), "\u{200b}");
}

#[test]
fn trim_agrees_with_the_standard_library() {
    let samples = [
        "",
        " ",
        "a",
        " a",
        "a ",
        "  1.2.3-beta+5  ",
        "\t日本語\n",
        "\u{2000}\u{2001}x y\u{200a}",
        "\u{180e}x\u{180e}",
        "\r\n\r\n",
    ];
    for sample in samples {
        assert_eq!(trim(sample), sample.trim());
    }
}

fn in_white_space_table(c: char) -> bool {
    matches!(
        c as u32,
        0x0009..=0x000d
            | 0x0020
            | 0x0085
            | 0x00a0
            | 0x1680
            | 0x2000..=0x200a
            | 0x2028
            | 0x2029
            | 0x202f
            | 0x205f
            | 0x3000
    )
}

#[test]
fn white_space_is_the_table_for_every_character() {
    let mut seen = 0;
    for code in 0..=0x10ffffu32 {
        if let Some(c) = char::from_u32(code) {
            let alone = c.to_string();
            assert_eq!(trim(&alone).is_empty(), in_white_space_table(c), "U+{:04X}", code);
            if in_white_space_table(c) {
                seen += 1;
            }
        }
    }
    assert_eq!(seen, 25);
}

#[test]
fn trim_stops_at_the_first_character_that_is_not_white_space() {
    assert_eq!(trim("\u{2029}\u{202f} a\u{2007}b \u{2008}\u{2009}"), "a\u{2007}b");
    assert_eq!(trim("\u{1c}\u{1f} x \u{1c}"), "\u{1c}\u{1f} x \u{1c}");
    assert_eq!(trim("\u{200b}\u{2060} x"), "\u{200b}\u{2060} x");
}

use rscreenrec::text::{same_text, strip_leading_slashes, trim, white_space};

#[test]
fn trim_matches_std() {
    for s in [
        "",
        "   ",
        "sink\n",
        "\t alsa_output.pci \r\n",
        "\u{a0}x\u{3000}",
        "\u{2000}\u{200a}a b\u{2028}\u{2029}\u{202f}\u{205f}\u{85}\u{1680}",
        "a\u{200b}",
        "\u{feff}a",
        "inner  space",
    ] {
        assert_eq!(trim(s), s.trim());
    }
}

#[test]
fn white_space_matches_std() {
    for c in ['\u{0}', '\t', '\n', '\u{b}', '\u{c}', '\r', ' ', '\u{85}', '\u{a0}', '\u{1680}', '\u{2000}', '\u{200a}', '\u{200b}', '\u{2028}', '\u{2029}', '\u{202f}', '\u{205f}', '\u{3000}', '\u{feff}', 'a', '\u{180e}'] {
        assert_eq!(white_space(c), c.is_whitespace(), "{:?}", c);
    }
}

#[test]
fn text_helpers() {
    assert!(same_text("nvenc", "nvenc"));
    assert!(!same_text("nvenc", "nvenc "));
    assert_eq!(strip_leading_slashes("//a/b"), "a/b");
}

use selection::text::{clean_selection, decode_selection, trim_str};
use selection::{get_text, set_text};

#[test]
fn it_works() {
    println!("{}", get_text("  what the cursor selected \n"));
}

#[test]
fn get_text_trims_the_platform_reading() {
    assert_eq!(get_text("  what the cursor selected \n"), "what the cursor selected");
    assert_eq!(get_text(""), "");
    assert_eq!(get_text(" \t\r\n "), "");
}

#[test]
fn get_text_is_unchanged_by_a_second_trim() {
    let once = get_text("\u{3000} x y \u{a0}");
    assert_eq!(get_text(&once), once);
    assert_eq!(once, "x y");
}

#[test]
fn set_text_is_not_sent_off_windows() {
    assert!(!set_text("replacement"));
    assert!(!set_text(""));
}

#[test]
fn trim_matches_std_on_unicode_white_space() {
    let samples = [
        "\u{9}\u{a}\u{b}\u{c}\u{d} a \u{20}",
        "\u{85}\u{a0}\u{1680}b\u{2000}\u{200a}",
        "\u{2028}\u{2029}\u{202f}c d\u{205f}\u{3000}",
        "\u{200b}zero width space is not white space\u{200b}",
        "\u{feff}bom\u{feff}",
        "ünïcödé",
        "",
    ];
    for s in samples {
        assert_eq!(trim_str(s), s.trim());
    }
}

#[test]
fn clean_selection_strips_nuls_then_white_space() {
    assert_eq!(clean_selection("\0\0 hi \0"), "hi");
    assert_eq!(clean_selection(" \0a"), "\0a");
    assert_eq!(clean_selection("a\0b"), "a\0b");
    assert_eq!(clean_selection("\0\0\0"), "");
}

#[test]
fn decode_selection_decodes_and_cleans() {
    assert_eq!(decode_selection(b"\0 hello world \0\0"), "hello world");
    assert_eq!(decode_selection("  größe\n".as_bytes()), "größe");
    assert_eq!(decode_selection(&[0xff, b'a', b' ']), "\u{fffd}a");
    assert_eq!(decode_selection(b""), "");
}

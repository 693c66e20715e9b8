use fts_launcher::reaper::fx::parse_fx_ident;
use fts_launcher::reaper::actions::action_item_for;
use fts_launcher::text::{
    after_last, chars_of, contains, is_whitespace, trim, parse_u32, replace, split_in_three, string_of,
    trim_end_matches, u32_to_text,
};

#[test]
fn parse_u32_reads_plain_digits() {
    assert_eq!(parse_u32("1007"), Some(1007));
    assert_eq!(parse_u32("0"), Some(0));
    assert_eq!(parse_u32("007"), Some(7));
}

#[test]
fn parse_u32_accepts_one_plus_sign() {
    assert_eq!(parse_u32("+5"), Some(5));
    assert_eq!(parse_u32("+"), None);
    assert_eq!(parse_u32("++5"), None);
}

#[test]
fn parse_u32_rejects_other_text() {
    assert_eq!(parse_u32(""), None);
    assert_eq!(parse_u32("-1"), None);
    assert_eq!(parse_u32("-0"), None);
    assert_eq!(parse_u32("12a"), None);
    assert_eq!(parse_u32(" 1"), None);
    assert_eq!(parse_u32("1_000"), None);
}

#[test]
fn parse_u32_bounds() {
    assert_eq!(parse_u32("4294967295"), Some(u32::MAX));
    assert_eq!(parse_u32("4294967296"), None);
    assert_eq!(parse_u32("99999999999999999999"), None);
}

#[test]
fn parse_u32_agrees_with_std() {
    for s in ["", "+", "+0", "0", "42", "4294967295", "4294967296", "-3", "x", "1 ", "٣"] {
        assert_eq!(parse_u32(s), s.parse::<u32>().ok(), "{s:?}");
    }
}

#[test]
fn decimal_text() {
    assert_eq!(u32_to_text(0), "0");
    assert_eq!(u32_to_text(9), "9");
    assert_eq!(u32_to_text(40042), "40042");
    assert_eq!(u32_to_text(u32::MAX), "4294967295");
}

#[test]
fn decimal_text_reads_back() {
    for n in [0u32, 1, 10, 99, 1007, 40291, 65536, u32::MAX - 1, u32::MAX] {
        assert_eq!(parse_u32(&u32_to_text(n)), Some(n));
    }
}

#[test]
fn contains_finds_substrings() {
    assert!(contains("vst3: serum synth", "synth"));
    assert!(contains("abc", ""));
    assert!(!contains("abc", "abcd"));
    assert!(!contains("instrumen", "instrument"));
    assert!(contains("aaab", "aab"));
}

#[test]
fn split_in_three_keeps_the_rest_whole() {
    assert_eq!(
        split_in_three("daw:fx-add:VST: Pro-Q 3 (FabFilter)", ':'),
        Some(("daw".to_string(), "fx-add".to_string(), "VST: Pro-Q 3 (FabFilter)".to_string()))
    );
    assert_eq!(
        split_in_three("::", ':'),
        Some((String::new(), String::new(), String::new()))
    );
    assert_eq!(split_in_three("daw:action", ':'), None);
    assert_eq!(split_in_three("", ':'), None);
}

#[test]
fn after_last_gives_the_last_segment() {
    assert_eq!(after_last("daw:transport:play-pause", ':'), "play-pause");
    assert_eq!(after_last("no-colon", ':'), "no-colon");
    assert_eq!(after_last("ends:", ':'), "");
    assert_eq!(after_last("", ':'), "");
}

#[test]
fn trim_end_matches_strips_the_run() {
    assert_eq!(trim_end_matches("FabFilter))", ')'), "FabFilter");
    assert_eq!(trim_end_matches(")))", ')'), "");
    assert_eq!(trim_end_matches("a)b", ')'), "a)b");
}

#[test]
fn replace_swaps_characters() {
    assert_eq!(replace("VST3: Pro Q", ' ', '-'), "VST3:-Pro-Q");
    assert_eq!(replace("", ' ', '-'), "");
}

#[test]
fn lowercase_reaches_item_tags() {
    assert_eq!(action_item_for("x", "X", "ÄRGER View", 1).tags[1], "reaper/actions/ärger view");
}

#[test]
fn trim_reaches_plugin_names() {
    let (_, name, dev) = parse_fx_ident("VST:  \t Pro Q \u{a0}(  Dev \n))");
    assert_eq!(name, "Pro Q");
    assert_eq!(dev, "Dev");
}

#[test]
fn chars_round_trip() {
    let v = chars_of("héllo");
    assert_eq!(v, vec!['h', 'é', 'l', 'l', 'o']);
    assert_eq!(string_of(&v), "héllo");
}

#[test]
fn trim_agrees_with_std() {
    for s in ["", "  ", "x", "  a b  ", "\t\n\r\u{b}\u{c}x\u{85}", "\u{a0}\u{1680}y\u{2000}\u{200a}",
        "\u{2028}\u{2029}\u{202f}\u{205f}\u{3000}z", "\u{200b}w\u{200b}", "\u{180e}q", "é "] {
        assert_eq!(trim(s), s.trim(), "{s:?}");
    }
}

#[test]
fn whitespace_agrees_with_std() {
    for c in (0u32..0x3100).filter_map(char::from_u32) {
        assert_eq!(is_whitespace(c), c.is_whitespace(), "{:x}", c as u32);
    }
}

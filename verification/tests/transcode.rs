use charset_eval::encoding::LegacyEncoding;
use charset_eval::evaluate::synthesize;
use charset_eval::normalize::normalize;
use charset_eval::table::FastEncoder;
use charset_eval::transcode::ascii_valid_up_to;
use charset_eval::transcode::encode;
use charset_eval::transcode::transcode;

fn table() -> FastEncoder {
    FastEncoder::new().unwrap()
}

#[test]
fn russian_in_cyrillic_iso() {
    let bytes = encode("Русский ", LegacyEncoding::Iso8859_5, true, &table());
    assert_eq!(bytes, Some(vec![0xC0, 0xE3, 0xE1, 0xE1, 0xDA, 0xD8, 0xD9, 0x20]));
}

#[test]
fn ascii_sample_is_rejected_for_every_encoding() {
    let fast = table();
    for i in 0..40 {
        let encoding = LegacyEncoding::at(i);
        assert_eq!(encode("plain ASCII text_", encoding, true, &fast), None);
        assert_eq!(encode("plain ASCII text_", encoding, false, &fast), None);
        let text: Vec<char> = "plain".chars().collect();
        assert_eq!(transcode(&text, encoding, &fast), None);
        assert_eq!(normalize("plain", encoding, true), None);
    }
}

#[test]
fn kana_is_rejected_for_simplified_chinese() {
    let fast = table();
    assert_eq!(encode("漢字ひらがな", LegacyEncoding::Gbk, true, &fast), None);
    assert_eq!(encode("漢字カタカナ", LegacyEncoding::Big5, true, &fast), None);
    assert_eq!(encode("漢字ひ", LegacyEncoding::EucKr, true, &fast), None);
    assert!(encode("漢字", LegacyEncoding::Gbk, true, &fast).is_some());
    assert!(encode("ひらがな", LegacyEncoding::ShiftJis, true, &fast).is_some());
}

#[test]
fn chinese_in_gbk() {
    let bytes = encode("中文", LegacyEncoding::Gbk, true, &table());
    assert_eq!(bytes, Some(vec![0xD6, 0xD0, 0xCE, 0xC4]));
}

#[test]
fn unmappable_becomes_placeholder() {
    let bytes = encode("é中", LegacyEncoding::Windows1252, true, &table());
    assert_eq!(bytes, Some(vec![0xE9, b'&', b'#', b';']));
}

#[test]
fn only_unmappable_is_rejected() {
    assert_eq!(encode("中", LegacyEncoding::Windows1252, true, &table()), None);
}

#[test]
fn placeholder_underscore_becomes_space() {
    let bytes = encode("é_é", LegacyEncoding::Windows1252, true, &table());
    assert_eq!(bytes, Some(vec![0xE9, 0x20, 0xE9]));
}

#[test]
fn romanian_comma_below_becomes_cedilla() {
    let fast = table();
    assert_eq!(
        encode("\u{21B}\u{219}\u{21A}\u{218}", LegacyEncoding::Windows1250, true, &fast),
        Some(vec![0xFE, 0xBA, 0xDE, 0xAA])
    );
    assert_eq!(
        encode("\u{21B}\u{219}\u{21A}\u{218}", LegacyEncoding::Iso8859_2, true, &fast),
        Some(vec![0xFE, 0xBA, 0xDE, 0xAA])
    );
    assert_eq!(
        normalize("\u{21B}_", LegacyEncoding::Windows1250, true),
        Some(vec!['\u{163}', ' '])
    );
    assert_eq!(
        normalize("\u{21B}_", LegacyEncoding::Windows1252, true),
        Some(vec!['\u{21B}', ' '])
    );
}

#[test]
fn azerbaijani_schwa_becomes_a_umlaut() {
    assert_eq!(
        encode("\u{18F}\u{259}", LegacyEncoding::Windows1254, true, &table()),
        Some(vec![0xC4, 0xE4])
    );
}

#[test]
fn mongolian_letters_become_ukrainian() {
    let fast = table();
    assert_eq!(
        normalize("\u{4AE}\u{4AF}\u{4E8}\u{4E9}", LegacyEncoding::Koi8U, true),
        Some(vec!['\u{407}', '\u{457}', '\u{404}', '\u{454}'])
    );
    assert_eq!(
        encode("\u{4AE}\u{4AF}\u{4E8}\u{4E9}", LegacyEncoding::Windows1251, true, &fast),
        Some(vec![0xAF, 0xBF, 0xAA, 0xBA])
    );
}

#[test]
fn input_is_composed() {
    assert_eq!(
        normalize("e\u{301}", LegacyEncoding::Windows1252, true),
        Some(vec!['\u{E9}'])
    );
    assert_eq!(encode("e\u{301}", LegacyEncoding::Windows1252, true, &table()), Some(vec![0xE9]));
}

#[test]
fn kelvin_sign_normalizes_to_ascii_and_is_rejected() {
    assert_eq!(normalize("\u{212A}", LegacyEncoding::Windows1252, true), None);
    assert_eq!(encode("\u{212A}", LegacyEncoding::Windows1252, true, &table()), None);
}

#[test]
fn vietnamese_variants_differ() {
    let fast = table();
    let strict = encode("\u{E1}", LegacyEncoding::Windows1258, true, &fast);
    let loose = encode("\u{E1}", LegacyEncoding::Windows1258, false, &fast);
    assert_eq!(strict, Some(vec![b'a', 0xEC]));
    assert_eq!(loose, Some(vec![0xE1]));
    assert_ne!(strict, loose);
}

#[test]
fn vietnamese_variants_agree_where_the_encoding_lacks_the_precomposed_letter() {
    let fast = table();
    let strict = encode("\u{FD}", LegacyEncoding::Windows1258, true, &fast);
    let loose = encode("\u{FD}", LegacyEncoding::Windows1258, false, &fast);
    assert_eq!(strict, Some(vec![b'y', 0xEC]));
    assert_eq!(loose, strict);
}

#[test]
fn vietnamese_circumflex_with_tone() {
    let fast = table();
    assert_eq!(
        encode("\u{1EA5}", LegacyEncoding::Windows1258, false, &fast),
        Some(vec![0xE2, 0xEC])
    );
    assert_eq!(
        encode("\u{1EA5}", LegacyEncoding::Windows1258, true, &fast),
        Some(vec![0xE2, 0xEC])
    );
}

#[test]
fn hebrew_is_reversed_before_encoding() {
    let fast = table();
    assert_eq!(
        synthesize("\u{5D0}\u{5D1}\u{5D2}", LegacyEncoding::Iso8859_8, true, &fast),
        Some(vec![0xE2, 0xE1, 0xE0])
    );
    assert_eq!(
        synthesize("\u{5D0}\u{5D1}\u{5D2}", LegacyEncoding::Windows1255, true, &fast),
        Some(vec![0xE0, 0xE1, 0xE2])
    );
}

#[test]
fn ascii_prefix_of_bytes() {
    assert_eq!(ascii_valid_up_to(b""), 0);
    assert_eq!(ascii_valid_up_to(b"abc"), 3);
    assert_eq!(ascii_valid_up_to(&[b'a', 0x80, b'b']), 1);
    assert_eq!(ascii_valid_up_to(&[0xFF]), 0);
}

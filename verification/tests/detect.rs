use charset_eval::detect::can_ask_chardet;
use charset_eval::detect::chardet;
use charset_eval::detect::check_answer;
use charset_eval::detect::check_chardet;
use charset_eval::detect::check_guess;
use charset_eval::detect::check_ng;
use charset_eval::detect::encoding_for_answer;
use charset_eval::detect::encoding_for_label;
use charset_eval::detect::read_both;
use charset_eval::detect::truncate_by_num_ascii;
use charset_eval::encoding::LegacyEncoding;
use charset_eval::text::same_text;
use charset_eval::text::str_eq;

const GERMAN_1252: &[u8] = b"Die Gr\xF6\xDFe der Stra\xDFe \xFCber den Flu\xDF";
const BALTIC_1257: &[u8] = &[224, 232, 230, 235, 225, 240, 248, 251, 254];
const ARABIC_1256: &[u8] = &[0xC7, 0xE1, 0xDA, 0xD1, 0xC8, 0xED, 0xC9];

fn text(s: &str) -> Vec<char> {
    s.chars().collect()
}

#[test]
fn truncation_keeps_the_shortest_prefix_with_the_given_count() {
    let buffer = [b'a', 0x80, b'b', 0x81, b'c', 0x82];
    assert_eq!(truncate_by_num_ascii(&buffer, 2), &[b'a', 0x80, b'b', 0x81][..]);
    assert_eq!(truncate_by_num_ascii(&buffer, 1), &[b'a', 0x80][..]);
    assert_eq!(truncate_by_num_ascii(&buffer, 3), &buffer[..]);
    assert_eq!(truncate_by_num_ascii(&buffer, 4), &buffer[..]);
}

#[test]
fn truncation_edge_cases() {
    let empty: [u8; 0] = [];
    assert_eq!(truncate_by_num_ascii(&empty, 0), &empty[..]);
    assert_eq!(truncate_by_num_ascii(&empty, 3), &empty[..]);
    assert_eq!(truncate_by_num_ascii(b"abc", 0), &empty[..]);
    assert_eq!(truncate_by_num_ascii(b"abc", 1), &b"abc"[..]);
    assert_eq!(truncate_by_num_ascii(&[0xFF, 0xFF, 0xFF], 1), &[0xFF][..]);
    assert_eq!(truncate_by_num_ascii(&[0x7F, 0x80], 1), &[0x7F, 0x80][..]);
}

#[test]
fn labels_are_trimmed_and_case_folded() {
    assert_eq!(encoding_for_label(b"latin1"), Some(LegacyEncoding::Windows1252));
    assert_eq!(encoding_for_label(b" UTF-8 "), Some(LegacyEncoding::Utf8));
    assert_eq!(encoding_for_label(b"ISO-8859-5"), Some(LegacyEncoding::Iso8859_5));
    assert_eq!(encoding_for_label(b"csisolatin2"), Some(LegacyEncoding::Iso8859_2));
    assert_eq!(encoding_for_label(b"nonsense"), None);
    assert_eq!(encoding_for_label(b""), None);
}

#[test]
fn unknown_answer_falls_back_to_western() {
    assert_eq!(encoding_for_answer(b"nonsense"), LegacyEncoding::Windows1252);
    assert_eq!(encoding_for_answer(b""), LegacyEncoding::Windows1252);
    assert_eq!(encoding_for_answer(b"koi8-u"), LegacyEncoding::Koi8U);
}

#[test]
fn correctness_is_equality_of_decoded_text() {
    // windows-1252 and windows-1254 agree on these bytes, so the other
    // label counts as right.
    assert!(check_guess(LegacyEncoding::Windows1252, LegacyEncoding::Windows1254, GERMAN_1252));
    assert!(check_guess(LegacyEncoding::Windows1252, LegacyEncoding::Windows1252, GERMAN_1252));
    assert!(!check_guess(LegacyEncoding::Windows1252, LegacyEncoding::Windows1251, GERMAN_1252));
    assert!(check_guess(LegacyEncoding::Windows1252, LegacyEncoding::Windows1251, b"plain"));
    // 0xD0 is G with breve in windows-1254 and Eth in windows-1252.
    assert!(!check_guess(LegacyEncoding::Windows1252, LegacyEncoding::Windows1254, &[0xD0]));
}

#[test]
fn answers_are_judged_by_their_label() {
    assert!(check_answer(LegacyEncoding::Windows1252, b"windows-1254", GERMAN_1252));
    assert!(check_answer(LegacyEncoding::Windows1252, b"no such label", GERMAN_1252));
    assert!(!check_answer(LegacyEncoding::Windows1251, b"no such label", GERMAN_1252));
    assert!(!check_answer(LegacyEncoding::Windows1252, b"koi8-r", GERMAN_1252));
}

#[test]
fn both_readings_are_decoded() {
    let readings = read_both(LegacyEncoding::Windows1257, LegacyEncoding::Windows1251, BALTIC_1257);
    assert_eq!(readings.expected, text("ąčęėįšųūž"));
    assert_eq!(readings.actual, text("аижлбршыю"));
    let malformed = read_both(LegacyEncoding::Utf8, LegacyEncoding::Windows1252, &[0xFF]);
    assert_eq!(malformed.expected, vec!['\u{FFFD}']);
    assert_eq!(malformed.actual, vec!['\u{FF}']);
}

#[test]
fn text_equality() {
    assert!(same_text(&text(""), &text("")));
    assert!(same_text(&text("abc"), &text("abc")));
    assert!(!same_text(&text("abc"), &text("abd")));
    assert!(!same_text(&text("abc"), &text("ab")));
    assert!(!same_text(&text(""), &text("a")));
    assert!(str_eq("", ""));
    assert!(str_eq("Größe", "Größe"));
    assert!(!str_eq("Größe", "Grösse"));
    assert!(!str_eq("a", "ab"));
}

#[test]
fn statistical_detector_guesses() {
    assert_eq!(chardet(GERMAN_1252), LegacyEncoding::Windows1254);
    assert!(check_chardet(LegacyEncoding::Windows1252, GERMAN_1252));
    assert_eq!(chardet(BALTIC_1257), LegacyEncoding::Windows1251);
    assert!(!check_chardet(LegacyEncoding::Windows1257, BALTIC_1257));
    assert_eq!(chardet(b"plain"), LegacyEncoding::Windows1252);
    assert_eq!(chardet(b""), LegacyEncoding::Windows1252);
}

#[test]
fn statistical_detector_cannot_take_escapes_without_high_bytes() {
    assert!(can_ask_chardet(b""));
    assert!(can_ask_chardet(b"plain"));
    assert!(can_ask_chardet(&[0xA0]));
    assert!(can_ask_chardet(&[0x1B, 0xE9]));
    assert!(can_ask_chardet(&[0xE9, 0x1B]));
    assert!(!can_ask_chardet(&[0x1B]));
    assert!(!can_ask_chardet(&[0x1B, 0xA0]));
    assert!(!can_ask_chardet(&[b'a', 0xA0, 0x1B, b'b']));
}

#[test]
fn incremental_detector_right_guess_gives_no_report() {
    assert!(check_ng(None, LegacyEncoding::Windows1252, GERMAN_1252, 0, 0).is_none());
    assert!(check_ng(Some(b"ru"), LegacyEncoding::Windows1252, GERMAN_1252, 0, 0).is_none());
    assert!(check_ng(None, LegacyEncoding::Windows1252, GERMAN_1252, 0, 5).is_none());
    assert!(check_ng(None, LegacyEncoding::Windows1252, GERMAN_1252, 0, 1).is_none());
    assert!(check_ng(None, LegacyEncoding::Windows1252, GERMAN_1252, 0, 1000).is_none());
}

#[test]
fn incremental_detector_wrong_guess_is_reported() {
    let report = check_ng(None, LegacyEncoding::Windows1257, BALTIC_1257, 0, 0).unwrap();
    assert_eq!(report.detected, LegacyEncoding::Windows1251);
    assert_eq!(report.actual_text, text("аижлбршыю"));
    assert_eq!(report.expected_text, text("ąčęėįšųūž"));
    assert_eq!(report.detected_score, 58);
    assert_eq!(report.expected_score, -1020);
    assert!(!report.expected_disqualified);
}

#[test]
fn truncation_and_hint_change_the_guess() {
    // After two bytes above ASCII the detector has seen too little, and the
    // hint tips it towards Cyrillic. The texts are still those of the whole
    // sample.
    let report = check_ng(Some(b"ru"), LegacyEncoding::Windows1252, GERMAN_1252, 2, 1).unwrap();
    assert_eq!(report.detected, LegacyEncoding::Windows1251);
    assert_eq!(report.actual_text, text("Die GrцЯe der StraЯe ьber den FluЯ"));
    assert_eq!(report.expected_text, text("Die Größe der Straße über den Fluß"));
    assert_eq!(report.detected_score, -48);
    assert_eq!(report.expected_score, 56);
    assert!(!report.expected_disqualified);
}

#[test]
fn disqualified_candidate_has_no_score() {
    let report = check_ng(None, LegacyEncoding::Windows1256, ARABIC_1256, 1, 0).unwrap();
    assert_eq!(report.detected, LegacyEncoding::Iso8859_4);
    assert_eq!(report.actual_text, text("ĮáÚŅČíÉ"));
    assert_eq!(report.expected_text, text("العربية"));
    assert_eq!(report.detected_score, 92);
    assert_eq!(report.expected_score, 0);
    assert!(report.expected_disqualified);
}

#[test]
fn long_first_chunk_is_split() {
    let mut sample = Vec::new();
    while sample.len() < 5000 {
        sample.extend_from_slice(GERMAN_1252);
        sample.push(b' ');
    }
    for chunk in [0usize, 1, 1023, 1024, 1025, 2000, 4999, 5000, 6000] {
        assert!(check_ng(None, LegacyEncoding::Windows1252, &sample, 0, chunk).is_none());
        assert!(check_ng(None, LegacyEncoding::Windows1252, &sample, 7, chunk).is_none());
    }
}

use charset_eval::detect::can_ask_chardet;
use charset_eval::detect::read_both;
use charset_eval::encoding::LegacyEncoding;
use charset_eval::evaluate::check;
use charset_eval::evaluate::synthesize;
use charset_eval::evaluate::CheckMode;
use charset_eval::evaluate::Diagnostic;
use charset_eval::evaluate::NativeAnswers;
use charset_eval::normalize::normalize;
use charset_eval::score::Detector;
use charset_eval::score::ScoreCard;
use charset_eval::table::FastEncoder;

fn answers(ced: &[u8], icu: &[u8]) -> NativeAnswers {
    NativeAnswers { ced: ced.to_vec(), icu: icu.to_vec() }
}

fn counts(card: &ScoreCard) -> (u64, u64, u64, u64, u64) {
    (card.total(), card.ng(), card.ced(), card.chardet(), card.icu())
}

#[test]
fn russian_sample_is_scored_by_every_detector() {
    let fast = FastEncoder::new().unwrap();
    let bytes = synthesize("Русский ", LegacyEncoding::Iso8859_5, true, &fast).unwrap();
    assert_eq!(bytes, vec![0xC0, 0xE3, 0xE1, 0xE1, 0xDA, 0xD8, 0xD9, 0x20]);
    assert!(can_ask_chardet(&bytes));
    let mut card = ScoreCard::new();
    let wrong = answers(b"windows-1252", b"Big5");
    let diagnostic = check(
        &bytes,
        None,
        LegacyEncoding::Iso8859_5,
        &wrong,
        true,
        &mut card,
        CheckMode::All,
        0,
        0,
    );
    assert_eq!(counts(&card), (1, 1, 0, 1, 0));
    assert!(matches!(diagnostic, Diagnostic::Silent));
    let right = answers(b"iso-8859-5", b"ISO-8859-5");
    check(&bytes, None, LegacyEncoding::Iso8859_5, &right, true, &mut card, CheckMode::All, 0, 0);
    assert_eq!(counts(&card), (2, 2, 1, 2, 1));
}

#[test]
fn all_failed_counts_towards_the_total_only() {
    let fast = FastEncoder::new().unwrap();
    let bytes = synthesize("ąčęėįšųūž", LegacyEncoding::Windows1257, true, &fast).unwrap();
    assert_eq!(bytes, vec![224, 232, 230, 235, 225, 240, 248, 251, 254]);
    let wrong = answers(b"windows-1251", b"koi8-r");
    let mut card = ScoreCard::new();
    let diagnostic = check(
        &bytes,
        None,
        LegacyEncoding::Windows1257,
        &wrong,
        true,
        &mut card,
        CheckMode::All,
        0,
        0,
    );
    assert_eq!(counts(&card), (1, 0, 0, 0, 0));
    assert!(matches!(diagnostic, Diagnostic::AllFailed));
    let quiet = check(
        &bytes,
        None,
        LegacyEncoding::Windows1257,
        &wrong,
        false,
        &mut card,
        CheckMode::All,
        0,
        0,
    );
    assert_eq!(counts(&card), (2, 0, 0, 0, 0));
    assert!(matches!(quiet, Diagnostic::Silent));
}

#[test]
fn wrong_incremental_guess_is_reported_with_the_other_verdicts() {
    let fast = FastEncoder::new().unwrap();
    let bytes = synthesize("ąčęėįšųūž", LegacyEncoding::Windows1257, true, &fast).unwrap();
    let mixed = answers(b"windows-1257", b"koi8-r");
    let mut card = ScoreCard::new();
    let diagnostic = check(
        &bytes,
        None,
        LegacyEncoding::Windows1257,
        &mixed,
        true,
        &mut card,
        CheckMode::All,
        0,
        0,
    );
    assert_eq!(counts(&card), (1, 0, 1, 0, 0));
    match diagnostic {
        Diagnostic::Wrong { report, ced, chardet, icu } => {
            assert!(ced);
            assert!(!chardet);
            assert!(!icu);
            assert_eq!(report.detected, LegacyEncoding::Windows1251);
            assert_eq!(report.detected_score, 58);
            assert_eq!(report.expected_score, -1020);
        }
        _ => panic!("a report was owed"),
    }
}

#[test]
fn modes_choose_the_detectors() {
    let fast = FastEncoder::new().unwrap();
    let bytes = synthesize("ąčęėįšųūž", LegacyEncoding::Windows1257, true, &fast).unwrap();
    let wrong = answers(b"windows-1251", b"koi8-r");
    // Only the incremental detector is asked; the others count as right.
    let mut card = ScoreCard::new();
    let diagnostic =
        check(&bytes, None, LegacyEncoding::Windows1257, &wrong, true, &mut card, CheckMode::Ng, 0, 0);
    assert_eq!(counts(&card), (1, 0, 1, 1, 1));
    assert!(matches!(diagnostic, Diagnostic::Wrong { ced: true, chardet: true, icu: true, .. }));
    // Only the compact classifier is asked; the incremental one is never
    // credited.
    let mut card = ScoreCard::new();
    let diagnostic =
        check(&bytes, None, LegacyEncoding::Windows1257, &wrong, true, &mut card, CheckMode::Ced, 0, 0);
    assert_eq!(counts(&card), (1, 0, 0, 1, 1));
    assert!(matches!(diagnostic, Diagnostic::Silent));
    let right = answers(b"windows-1257", b"");
    check(&bytes, None, LegacyEncoding::Windows1257, &right, true, &mut card, CheckMode::Ced, 0, 0);
    assert_eq!(counts(&card), (2, 0, 1, 2, 2));
}

#[test]
fn hebrew_round_trip_is_against_the_reversed_text() {
    let fast = FastEncoder::new().unwrap();
    let sample = "\u{5E2}\u{5D1}\u{5E8}\u{5D9}\u{5EA} \u{5D4}\u{5D9}\u{5D0}";
    let reversed = "\u{5D0}\u{5D9}\u{5D4} \u{5EA}\u{5D9}\u{5E8}\u{5D1}\u{5E2}";
    let bytes = synthesize(sample, LegacyEncoding::Iso8859_8, true, &fast).unwrap();
    let decoded = read_both(LegacyEncoding::Iso8859_8, LegacyEncoding::Iso8859_8, &bytes).expected;
    let expected = normalize(reversed, LegacyEncoding::Iso8859_8, true).unwrap();
    assert_eq!(decoded, expected);
    let unreversed = normalize(sample, LegacyEncoding::Iso8859_8, true).unwrap();
    assert_ne!(decoded, unreversed);
}

#[test]
fn hebrew_clusters_stay_together_when_reversed() {
    let fast = FastEncoder::new().unwrap();
    // Bet with dagesh, then alef: the point stays on its letter.
    let bytes =
        synthesize("\u{5D1}\u{5BC}\u{5D0}", LegacyEncoding::Windows1255, true, &fast).unwrap();
    assert_eq!(bytes, vec![0xE1, 0xCC, 0xE0]);
    let visual = synthesize("\u{5D1}\u{5BC}\u{5D0}", LegacyEncoding::Iso8859_8, true, &fast).unwrap();
    assert_eq!(visual, vec![0xE0, 0xE1, b'&', b'#', b';']);
}

#[test]
fn simplified_chinese_sample_with_hiragana_scores_nothing() {
    let fast = FastEncoder::new().unwrap();
    let card = ScoreCard::new();
    assert_eq!(synthesize("中文の", LegacyEncoding::Gbk, true, &fast), None);
    assert_eq!(counts(&card), (0, 0, 0, 0, 0));
}

#[test]
fn round_trip_through_covered_encodings() {
    let fast = FastEncoder::new().unwrap();
    for (sample, encoding) in [
        ("Zażółć gęślą jaźń_", LegacyEncoding::Windows1250),
        ("Zażółć gęślą jaźń", LegacyEncoding::Iso8859_2),
        ("Русский язык", LegacyEncoding::Windows1251),
        ("Русский язык", LegacyEncoding::Koi8U),
        ("Русский язык", LegacyEncoding::Ibm866),
        ("Русский язык", LegacyEncoding::Iso8859_5),
        ("Монгол \u{4AE}\u{4E9}", LegacyEncoding::Windows1251),
        ("Größe", LegacyEncoding::Windows1252),
        ("Ελληνικά", LegacyEncoding::Windows1253),
        ("Ελληνικά", LegacyEncoding::Iso8859_7),
        ("Türkçe \u{18F}", LegacyEncoding::Windows1254),
        ("עברית", LegacyEncoding::Windows1255),
        ("العربية", LegacyEncoding::Windows1256),
        ("العربية", LegacyEncoding::Iso8859_6),
        ("Lietuvių", LegacyEncoding::Windows1257),
        ("Lietuvių", LegacyEncoding::Iso8859_4),
        ("Lietuvių", LegacyEncoding::Iso8859_13),
        ("Tiếng Việt", LegacyEncoding::Windows1258),
        ("ภาษาไทย", LegacyEncoding::Windows874),
    ] {
        for orthographic in [true, false] {
            let normal = normalize(sample, encoding, orthographic).unwrap();
            let bytes = synthesize(sample, encoding, orthographic, &fast).unwrap();
            let decoded = read_both(encoding, encoding, &bytes).expected;
            assert_eq!(decoded, normal, "{:?}", encoding);
        }
    }
}

#[test]
fn round_trip_through_general_encoders() {
    let fast = FastEncoder::new().unwrap();
    for (sample, encoding) in [
        ("中文", LegacyEncoding::Gbk),
        ("中文", LegacyEncoding::Big5),
        ("한국어", LegacyEncoding::EucKr),
        ("日本語のテキスト", LegacyEncoding::ShiftJis),
        ("日本語のテキスト", LegacyEncoding::EucJp),
        ("Русский", LegacyEncoding::Koi8R),
    ] {
        let normal = normalize(sample, encoding, true).unwrap();
        let bytes = synthesize(sample, encoding, true, &fast).unwrap();
        let decoded = read_both(encoding, encoding, &bytes).expected;
        assert_eq!(decoded, normal, "{:?}", encoding);
    }
}

#[test]
fn general_encoder_writes_character_references() {
    let fast = FastEncoder::new().unwrap();
    assert_eq!(
        synthesize("Я\u{E9}", LegacyEncoding::Koi8R, true, &fast),
        Some(vec![0xF1, b'&', b'#', b'2', b'3', b'3', b';'])
    );
}

#[test]
fn modes_and_the_detectors_they_ask() {
    assert!(CheckMode::All.asks(Detector::Ng));
    assert!(CheckMode::All.asks(Detector::Ced));
    assert!(CheckMode::All.asks(Detector::Chardet));
    assert!(CheckMode::All.asks(Detector::Icu));
    assert!(CheckMode::Ng.asks(Detector::Ng));
    assert!(!CheckMode::Ng.asks(Detector::Ced));
    assert!(!CheckMode::Ng.asks(Detector::Chardet));
    assert!(!CheckMode::Ng.asks(Detector::Icu));
    assert!(!CheckMode::Ced.asks(Detector::Ng));
    assert!(CheckMode::Ced.asks(Detector::Ced));
    assert!(!CheckMode::Ced.asks(Detector::Chardet));
    assert!(!CheckMode::Ced.asks(Detector::Icu));
}

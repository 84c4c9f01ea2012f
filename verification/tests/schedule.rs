use charset_eval::encoding::LegacyEncoding;
use charset_eval::schedule::add_all;
use charset_eval::detect::is_acceptable_tld;
use charset_eval::schedule::expand_tasks;
use charset_eval::schedule::standard_tasks;
use charset_eval::score::Detector;
use charset_eval::score::ScoreCard;
use charset_eval::taxonomy::class_at;
use charset_eval::taxonomy::encoding_classes;
use charset_eval::taxonomy::EncodingClass;

fn card(total: u64, ng: u64, ced: u64, chardet: u64, icu: u64) -> ScoreCard {
    ScoreCard::from_counts(total, ng, ced, chardet, icu)
}

fn counts(card: &ScoreCard) -> (u64, u64, u64, u64, u64) {
    (card.total(), card.ng(), card.ced(), card.chardet(), card.icu())
}

fn merged(a: &ScoreCard, b: &ScoreCard) -> ScoreCard {
    let mut sum = card(a.total(), a.ng(), a.ced(), a.chardet(), a.icu());
    sum.add(b);
    sum
}

#[test]
fn registry_has_eighteen_classes() {
    let classes = encoding_classes();
    assert_eq!(classes.len(), 18);
    assert_eq!(classes[0].name, "vietnamese");
    assert_eq!(classes[0].encodings, vec![LegacyEncoding::Windows1258]);
    assert_eq!(classes[0].languages, vec![("vi", "vi")]);
    assert_eq!(classes[2].name, "russia");
    assert_eq!(
        classes[2].encodings,
        vec![
            LegacyEncoding::Windows1251,
            LegacyEncoding::Koi8U,
            LegacyEncoding::Iso8859_5,
            LegacyEncoding::Ibm866
        ]
    );
    assert_eq!(classes[2].languages, vec![("ru", "ru"), ("ce", "ru")]);
    assert_eq!(classes[5].languages.len(), 25);
    assert_eq!(classes[17].name, "traditional");
    assert_eq!(classes[17].languages, vec![("zh-hant", "tw")]);
    assert_eq!(class_at(16).encodings, vec![LegacyEncoding::Gbk]);
}

#[test]
fn country_codes_are_lower_case_letters() {
    for class in encoding_classes() {
        assert!(!class.encodings.is_empty());
        assert!(!class.languages.is_empty());
        for (_, country) in class.languages {
            assert!(country.bytes().all(|b| b.is_ascii_lowercase()));
        }
    }
}

#[test]
fn tasks_are_the_cross_product() {
    let tasks = expand_tasks(&encoding_classes());
    assert_eq!(tasks.len(), 93);
    assert_eq!(tasks[0].language, "vi");
    assert_eq!(tasks[0].country, "vi");
    assert_eq!(tasks[0].encoding, LegacyEncoding::Windows1258);
    assert!(!tasks[0].orthographic);
    assert_eq!(tasks[1].language, "vi");
    assert_eq!(tasks[1].encoding, LegacyEncoding::Windows1258);
    assert!(tasks[1].orthographic);
    assert_eq!(tasks[2].language, "pl");
    assert_eq!(tasks[2].encoding, LegacyEncoding::Windows1250);
    assert_eq!(tasks[3].language, "pl");
    assert_eq!(tasks[3].encoding, LegacyEncoding::Iso8859_2);
    assert_eq!(tasks[4].language, "hu");
    assert_eq!(tasks[4].country, "hu");
    assert_eq!(tasks[6].language, "sh");
    assert_eq!(tasks[6].country, "hr");
    assert_eq!(tasks[92].language, "zh-hant");
    assert_eq!(tasks[92].country, "tw");
    assert_eq!(tasks[92].encoding, LegacyEncoding::Big5);
    assert_eq!(tasks.iter().filter(|t| t.orthographic).count(), 1);
}

#[test]
fn standard_tasks_carry_acceptable_hints() {
    let tasks = standard_tasks();
    assert_eq!(tasks.len(), 93);
    for task in &tasks {
        assert_eq!(task.hint(false), None);
        let hint = task.hint(true).unwrap();
        assert_eq!(hint, task.country.as_bytes());
        assert!(is_acceptable_tld(hint));
    }
    assert_eq!(tasks[6].hint(true), Some(&b"hr"[..]));
    assert!(is_acceptable_tld(b""));
    assert!(is_acceptable_tld(b"xn--p1ai"));
    assert!(!is_acceptable_tld(b"Ru"));
    assert!(!is_acceptable_tld(b"co.uk"));
    assert!(!is_acceptable_tld(&[b'r', 0xE9]));
}

#[test]
fn tasks_of_a_small_registry() {
    let classes = vec![
        EncodingClass {
            encodings: vec![LegacyEncoding::Windows1252, LegacyEncoding::Windows1258],
            languages: vec![("aa", "xx"), ("bb", "yy")],
            name: "made up",
        },
        EncodingClass { encodings: vec![], languages: vec![("cc", "zz")], name: "empty" },
    ];
    let tasks = expand_tasks(&classes);
    let seen: Vec<(&str, &str, LegacyEncoding, bool)> =
        tasks.iter().map(|t| (t.language, t.country, t.encoding, t.orthographic)).collect();
    assert_eq!(
        seen,
        vec![
            ("aa", "xx", LegacyEncoding::Windows1252, false),
            ("aa", "xx", LegacyEncoding::Windows1258, false),
            ("aa", "xx", LegacyEncoding::Windows1258, true),
            ("bb", "yy", LegacyEncoding::Windows1252, false),
            ("bb", "yy", LegacyEncoding::Windows1258, false),
            ("bb", "yy", LegacyEncoding::Windows1258, true),
        ]
    );
    assert!(expand_tasks(&Vec::new()).is_empty());
}

#[test]
fn merge_is_associative_and_commutative() {
    let a = card(10, 9, 3, 0, 10);
    let b = card(7, 1, 7, 2, 0);
    let c = card(100, 50, 60, 70, 80);
    let left = merged(&merged(&a, &b), &c);
    let right = merged(&a, &merged(&b, &c));
    let swapped = merged(&b, &merged(&a, &c));
    assert_eq!(counts(&left), (117, 60, 70, 72, 90));
    assert_eq!(counts(&right), counts(&left));
    assert_eq!(counts(&swapped), counts(&left));
    assert_eq!(counts(&merged(&a, &b)), counts(&merged(&b, &a)));
    assert_eq!(counts(&merged(&a, &ScoreCard::new())), counts(&a));
}

#[test]
fn cards_are_folded_in_order() {
    let cards = vec![card(10, 9, 3, 0, 10), card(7, 1, 7, 2, 0), card(100, 50, 60, 70, 80)];
    let mut total = card(1, 1, 1, 1, 1);
    assert!(add_all(&mut total, &cards));
    assert_eq!(counts(&total), (118, 61, 71, 73, 91));
    assert!(add_all(&mut total, &Vec::new()));
    assert_eq!(counts(&total), (118, 61, 71, 73, 91));
}

#[test]
fn fold_stops_where_the_total_would_not_fit() {
    let cards = vec![card(10, 1, 2, 3, 4), card(u64::MAX - 10, 0, 0, 0, 0), card(5, 5, 5, 5, 5)];
    let mut total = card(1, 0, 0, 0, 0);
    assert!(!add_all(&mut total, &cards));
    assert_eq!(counts(&total), (11, 1, 2, 3, 4));
    let mut exact = ScoreCard::new();
    assert!(add_all(&mut exact, &cards[..2].iter().map(|c| card(c.total(), c.ng(), c.ced(), c.chardet(), c.icu())).collect()));
    assert_eq!(exact.total(), u64::MAX);
}

#[test]
fn checked_add_leaves_the_card_on_overflow() {
    let mut a = card(u64::MAX, 1, 2, 3, 4);
    assert!(!a.checked_add(&card(1, 1, 1, 1, 1)));
    assert_eq!(counts(&a), (u64::MAX, 1, 2, 3, 4));
    assert!(a.checked_add(&ScoreCard::new()));
    assert_eq!(counts(&a), (u64::MAX, 1, 2, 3, 4));
}

#[test]
fn addition_is_field_wise_whatever_the_counts() {
    let mut a = card(5, 4, 3, 2, 1);
    let b = card(10, 1, 20, 300, 4000);
    a.add(&b);
    assert_eq!(counts(&a), (15, 5, 23, 302, 4001));
    assert_eq!(counts(&b), (10, 1, 20, 300, 4000));
}

#[test]
fn consistency_of_counts() {
    assert!(card(1, 1, 1, 1, 1).is_consistent());
    assert!(card(0, 0, 0, 0, 0).is_consistent());
    assert!(!card(1, 2, 0, 0, 0).is_consistent());
    assert!(!card(1, 0, 2, 0, 0).is_consistent());
    assert!(!card(1, 0, 0, 2, 0).is_consistent());
    assert!(!card(1, 0, 0, 0, 2).is_consistent());
    assert!(ScoreCard::new().is_consistent());
}

#[test]
fn room_for_one_more_sample() {
    assert!(ScoreCard::new().has_room());
    assert!(card(u64::MAX - 1, 0, 0, 0, 0).has_room());
    assert!(!card(u64::MAX, 0, 0, 0, 0).has_room());
    assert!(!card(0, u64::MAX, 0, 0, 0).has_room());
    assert!(!card(0, 0, u64::MAX, 0, 0).has_room());
    assert!(!card(0, 0, 0, u64::MAX, 0).has_room());
    assert!(!card(0, 0, 0, 0, u64::MAX).has_room());
}

#[test]
fn checked_add_looks_at_every_count() {
    let mut a = card(1, 0, u64::MAX, 0, 0);
    assert!(!a.checked_add(&card(1, 0, 1, 0, 0)));
    assert_eq!(counts(&a), (1, 0, u64::MAX, 0, 0));
    assert!(a.checked_add(&card(1, 1, 0, 1, 1)));
    assert_eq!(counts(&a), (2, 1, u64::MAX, 1, 1));
    let mut total = card(0, 0, 0, 0, u64::MAX - 1);
    assert!(!add_all(&mut total, &vec![card(1, 0, 0, 0, 1), card(1, 0, 0, 0, 1)]));
    assert_eq!(counts(&total), (1, 0, 0, 0, u64::MAX));
}

#[test]
fn recording_counts_each_right_detector() {
    let mut c = ScoreCard::new();
    c.record(true, false, true, false);
    assert_eq!(counts(&c), (1, 1, 0, 1, 0));
    c.record(false, false, false, false);
    assert_eq!(counts(&c), (2, 1, 0, 1, 0));
    c.record(true, true, true, true);
    assert_eq!(counts(&c), (3, 2, 1, 2, 1));
    assert_eq!(c.correct(Detector::Ng), 2);
    assert_eq!(c.correct(Detector::Ced), 1);
    assert_eq!(c.correct(Detector::Chardet), 2);
    assert_eq!(c.correct(Detector::Icu), 1);
}

#[test]
fn winner_prefers_earlier_detectors_on_ties() {
    assert_eq!(card(5, 0, 0, 0, 0).winner(), Detector::Ng);
    assert_eq!(card(5, 3, 3, 3, 3).winner(), Detector::Ng);
    assert_eq!(card(5, 3, 4, 4, 4).winner(), Detector::Ced);
    assert_eq!(card(5, 3, 2, 4, 4).winner(), Detector::Chardet);
    assert_eq!(card(5, 3, 2, 4, 5).winner(), Detector::Icu);
    assert_eq!(card(5, 3, 5, 4, 5).winner(), Detector::Ced);
    assert_eq!(card(5, 5, 4, 4, 4).winner(), Detector::Ng);
    assert_eq!(card(5, 1, 0, 1, 2).winner(), Detector::Icu);
}

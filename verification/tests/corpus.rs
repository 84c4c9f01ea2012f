use charset_eval::corpus::is_body_tag;
use charset_eval::corpus::ArticleEvent;
use charset_eval::corpus::ArticleScanner;
use charset_eval::corpus::ScanAction;
use charset_eval::corpus::ScanError;
use charset_eval::corpus::TitleFilter;
use charset_eval::encoding::LegacyEncoding;
use charset_eval::table::FastEncoder;

fn text(s: &str) -> Vec<char> {
    s.chars().collect()
}

fn is_continue(action: Result<ScanAction, ScanError>) -> bool {
    matches!(action, Ok(ScanAction::Continue))
}

#[test]
fn titles_outside_the_articles_are_recognised() {
    let filter = TitleFilter::new().unwrap();
    assert!(filter.is_special(&text("Talk:Main")));
    assert!(filter.is_special(&text("a:b")));
    assert!(filter.is_special(&text("\u{200D}\u{200C}Talk:Main")));
    assert!(filter.is_special(&text("Обсуждение:Россия")));
    assert!(!filter.is_special(&text("Main")));
    assert!(!filter.is_special(&text("Talk:")));
    assert!(!filter.is_special(&text(":Main")));
    assert!(!filter.is_special(&text("Talk:Main Page")));
    assert!(!filter.is_special(&text("Talk:Main\n")));
    assert!(!filter.is_special(&text("\u{200D}Talk:Main")));
    assert!(!filter.is_special(&text("")));
}

#[test]
fn title_line_loses_its_line_feed() {
    let filter = TitleFilter::new().unwrap();
    let fast = FastEncoder::new().unwrap();
    let expected = Some(vec![0xC0, 0xE3, 0xE1, 0xE1, 0xDA, 0xD8, 0xD9, 0x20]);
    assert_eq!(filter.title_sample("Русский \n", LegacyEncoding::Iso8859_5, true, &fast), expected);
    assert_eq!(filter.title_sample("Русский ", LegacyEncoding::Iso8859_5, true, &fast), expected);
    assert_eq!(
        filter.title_sample("Русский\n\n", LegacyEncoding::Iso8859_5, true, &fast),
        Some(vec![0xC0, 0xE3, 0xE1, 0xE1, 0xDA, 0xD8, 0xD9, 0x0A])
    );
}

#[test]
fn special_and_ascii_titles_give_no_sample() {
    let filter = TitleFilter::new().unwrap();
    let fast = FastEncoder::new().unwrap();
    assert_eq!(
        filter.title_sample("Обсуждение:Россия\n", LegacyEncoding::Windows1251, true, &fast),
        None
    );
    assert!(filter
        .title_sample("Обсуждение:Россия и мир\n", LegacyEncoding::Windows1251, true, &fast)
        .is_some());
    assert_eq!(filter.title_sample("Main_Page\n", LegacyEncoding::Windows1251, true, &fast), None);
    assert_eq!(filter.title_sample("\n", LegacyEncoding::Windows1251, true, &fast), None);
    assert_eq!(filter.title_sample("", LegacyEncoding::Windows1251, true, &fast), None);
}

#[test]
fn body_tag_is_text() {
    assert!(is_body_tag(b"text"));
    assert!(!is_body_tag(b"Text"));
    assert!(!is_body_tag(b"tex"));
    assert!(!is_body_tag(b"texts"));
    assert!(!is_body_tag(b""));
}

#[test]
fn long_body_becomes_a_sample() {
    let mut scanner = ArticleScanner::new();
    let half = "é".repeat(1500);
    let rest = "a".repeat(3001);
    assert!(is_continue(scanner.step(&ArticleEvent::Start(b"page"))));
    assert!(is_continue(scanner.step(&ArticleEvent::Text("title"))));
    assert!(is_continue(scanner.step(&ArticleEvent::Start(b"text"))));
    assert!(is_continue(scanner.step(&ArticleEvent::Text(&half))));
    assert!(is_continue(scanner.step(&ArticleEvent::Other)));
    assert!(is_continue(scanner.step(&ArticleEvent::Text(&rest))));
    match scanner.step(&ArticleEvent::End(b"text")) {
        Ok(ScanAction::Sample(body)) => {
            assert_eq!(body.len(), 6001);
            assert_eq!(body, format!("{}{}", half, rest));
        }
        _ => panic!("a sample was owed"),
    }
    assert!(is_continue(scanner.step(&ArticleEvent::End(b"page"))));
    assert!(matches!(scanner.step(&ArticleEvent::Eof), Ok(ScanAction::Stop)));
}

#[test]
fn body_of_the_minimum_length_is_skipped() {
    let mut scanner = ArticleScanner::new();
    let body = "é".repeat(3000);
    assert!(is_continue(scanner.step(&ArticleEvent::Start(b"text"))));
    assert!(is_continue(scanner.step(&ArticleEvent::Text(&body))));
    assert!(is_continue(scanner.step(&ArticleEvent::End(b"text"))));
    // The next body starts empty.
    assert!(is_continue(scanner.step(&ArticleEvent::Start(b"text"))));
    assert!(is_continue(scanner.step(&ArticleEvent::Text("a"))));
    assert!(is_continue(scanner.step(&ArticleEvent::End(b"text"))));
}

#[test]
fn text_outside_a_body_is_dropped() {
    let mut scanner = ArticleScanner::new();
    let long = "a".repeat(7000);
    assert!(is_continue(scanner.step(&ArticleEvent::Text(&long))));
    assert!(is_continue(scanner.step(&ArticleEvent::Start(b"text"))));
    assert!(is_continue(scanner.step(&ArticleEvent::End(b"text"))));
}

#[test]
fn unpaired_bodies_are_errors() {
    let mut scanner = ArticleScanner::new();
    assert_eq!(scanner.step(&ArticleEvent::End(b"text")).err(), Some(ScanError::UnopenedBody));
    assert!(is_continue(scanner.step(&ArticleEvent::Start(b"text"))));
    assert_eq!(scanner.step(&ArticleEvent::Start(b"text")).err(), Some(ScanError::NestedBody));
    // The scan is as it was: the body is still open.
    assert!(is_continue(scanner.step(&ArticleEvent::End(b"text"))));
    assert_eq!(scanner.step(&ArticleEvent::End(b"text")).err(), Some(ScanError::UnopenedBody));
}

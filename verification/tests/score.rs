use charset_eval::score::Detector;
use charset_eval::score::ScoreCard;

#[test]
fn new_card_is_empty() {
    let card = ScoreCard::new();
    assert_eq!(card.total(), 0);
    assert_eq!(card.ng(), 0);
    assert_eq!(card.ced(), 0);
    assert_eq!(card.chardet(), 0);
    assert_eq!(card.icu(), 0);
    assert_eq!(card.winner(), Detector::Ng);
}

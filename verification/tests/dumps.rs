use charset_eval::dumps::download_urls;
use charset_eval::dumps::ends_with;
use charset_eval::dumps::is_corpus_file;
use charset_eval::dumps::starts_with;
use charset_eval::dumps::title_dump_url;
use charset_eval::taxonomy::encoding_classes;

fn text(s: &str) -> Vec<char> {
    s.chars().collect()
}

#[test]
fn corpus_file_names() {
    assert!(is_corpus_file("ruwiki-20190901-all-titles-in-ns0.gz", "ru", false));
    assert!(!is_corpus_file("ruwiki-20190901-all-titles-in-ns0.gz", "ru", true));
    assert!(is_corpus_file("ruwiki-20190901-pages-articles.xml.bz2", "ru", true));
    assert!(!is_corpus_file("ruwiki-20190901-pages-articles.xml.bz2", "ru", false));
    assert!(!is_corpus_file("ukwiki-20190901-all-titles-in-ns0.gz", "ru", false));
    assert!(is_corpus_file("zh-hanswiki.gz", "zh-hans", false));
    assert!(is_corpus_file(".gz", "", false));
    assert!(!is_corpus_file("gz", "", false));
    assert!(!is_corpus_file("r", "ru", false));
}

#[test]
fn prefixes_and_suffixes() {
    assert!(starts_with(&text("abc"), &text("")));
    assert!(starts_with(&text("abc"), &text("ab")));
    assert!(starts_with(&text("abc"), &text("abc")));
    assert!(!starts_with(&text("abc"), &text("abcd")));
    assert!(!starts_with(&text("abc"), &text("bc")));
    assert!(ends_with(&text("abc"), &text("")));
    assert!(ends_with(&text("abc"), &text("bc")));
    assert!(ends_with(&text("abc"), &text("abc")));
    assert!(!ends_with(&text("abc"), &text("zabc")));
    assert!(!ends_with(&text("abc"), &text("ab")));
}

#[test]
fn title_dump_address() {
    assert_eq!(
        title_dump_url("ru"),
        "https://ftp.acc.umu.se/mirror/wikimedia.org/dumps/ruwiki/20190901/ruwiki-20190901-all-titles-in-ns0.gz"
    );
    assert_eq!(
        title_dump_url("zh-hans"),
        "https://ftp.acc.umu.se/mirror/wikimedia.org/dumps/zh-hanswiki/20190901/zh-hanswiki-20190901-all-titles-in-ns0.gz"
    );
}

#[test]
fn one_address_for_each_language_of_each_class() {
    let urls = download_urls(&encoding_classes());
    assert_eq!(urls.len(), 60);
    assert_eq!(urls[0], title_dump_url("vi"));
    assert_eq!(urls[1], title_dump_url("pl"));
    assert_eq!(urls[59], title_dump_url("zh-hant"));
    assert!(download_urls(&Vec::new()).is_empty());
}

//! Where the corpora come from: the names of their files and the addresses
//! of the title dumps.

use crate::taxonomy::EncodingClass;
use crate::text::chars_of;
use vstd::prelude::*;
use vstd::string::StringExecFns;

verus! {

/// The ending of the file name of a corpus: full articles come compressed
/// with bzip2, titles with gzip.
pub open spec fn corpus_suffix(full_articles: bool) -> Seq<char> {
    if full_articles {
        ".bz2"@
    } else {
        ".gz"@
    }
}

/// Whether a file name is that of the corpus of a language: it begins with
/// the language tag and ends with the ending of the kind of corpus.
pub open spec fn names_corpus(name: Seq<char>, lang: Seq<char>, full_articles: bool) -> bool {
    lang.is_prefix_of(name) && corpus_suffix(full_articles).is_suffix_of(name)
}

/// Whether `text` begins with `prefix`.
pub fn starts_with(text: &Vec<char>, prefix: &Vec<char>) -> (found: bool)
    ensures
        found == prefix@.is_prefix_of(text@),
{
    if prefix.len() > text.len() {
        return false;
    }
    let mut i: usize = 0;
    while i < prefix.len()
        invariant
            i <= prefix@.len() <= text@.len(),
            forall|j: int| 0 <= j < i ==> text@[j] == prefix@[j],
        decreases prefix@.len() - i,
    {
        if text[i] != prefix[i] {
            assert(text@.subrange(0, prefix@.len() as int)[i as int] != prefix@[i as int]);
            return false;
        }
        i = i + 1;
    }
    assert(text@.subrange(0, prefix@.len() as int) =~= prefix@);
    true
}

/// Whether `text` ends with `suffix`.
pub fn ends_with(text: &Vec<char>, suffix: &Vec<char>) -> (found: bool)
    ensures
        found == suffix@.is_suffix_of(text@),
{
    if suffix.len() > text.len() {
        return false;
    }
    let offset = text.len() - suffix.len();
    let mut i: usize = 0;
    while i < suffix.len()
        invariant
            i <= suffix@.len() <= text@.len(),
            text@.len() <= usize::MAX,
            offset == text@.len() - suffix@.len(),
            forall|j: int| 0 <= j < i ==> text@[offset + j] == suffix@[j],
        decreases suffix@.len() - i,
    {
        if text[offset + i] != suffix[i] {
            assert(text@.subrange(offset as int, text@.len() as int)[i as int] != suffix@[i as int]);
            return false;
        }
        i = i + 1;
    }
    assert(text@.subrange(offset as int, text@.len() as int) =~= suffix@);
    true
}

/// Whether a file name is that of the corpus of a language.
pub fn is_corpus_file(name: &str, lang: &str, full_articles: bool) -> (found: bool)
    ensures
        found == names_corpus(name@, lang@, full_articles),
{
    let name_chars = chars_of(name);
    let lang_chars = chars_of(lang);
    let suffix = if full_articles {
        chars_of(".bz2")
    } else {
        chars_of(".gz")
    };
    starts_with(&name_chars, &lang_chars) && ends_with(&name_chars, &suffix)
}

/// The mirror that the title dumps are fetched from.
pub open spec fn dump_prefix() -> Seq<char> {
    "https://ftp.acc.umu.se/mirror/wikimedia.org/dumps/"@
}

/// The date of the dumps.
pub open spec fn dump_date() -> Seq<char> {
    "20190901"@
}

/// The address of the title dump of a language.
pub open spec fn title_dump_address(lang: Seq<char>) -> Seq<char> {
    dump_prefix() + lang + "wiki/"@ + dump_date() + "/"@ + lang + "wiki-"@ + dump_date()
        + "-all-titles-in-ns0.gz"@
}

/// The address of the title dump of a language.
pub fn title_dump_url(lang: &str) -> (url: String)
    ensures
        url@ == title_dump_address(lang@),
{
    let mut url = String::new();
    url.append("https://ftp.acc.umu.se/mirror/wikimedia.org/dumps/");
    url.append(lang);
    url.append("wiki/");
    url.append("20190901");
    url.append("/");
    url.append(lang);
    url.append("wiki-");
    url.append("20190901");
    url.append("-all-titles-in-ns0.gz");
    assert(url@ =~= title_dump_address(lang@));
    url
}

/// The addresses of the title dumps of some languages, in order.
pub open spec fn language_addresses(languages: Seq<(Seq<char>, Seq<char>)>) -> Seq<Seq<char>> {
    Seq::new(languages.len(), |j: int| title_dump_address(languages[j].0))
}

/// The addresses of the title dumps of every language of every class,
/// class by class.
pub open spec fn registry_addresses(classes: Seq<crate::taxonomy::ClassModel>) -> Seq<Seq<char>>
    decreases classes.len(),
{
    if classes.len() == 0 {
        Seq::empty()
    } else {
        registry_addresses(classes.drop_last()) + language_addresses(classes.last().languages)
    }
}

/// The views of a sequence of strings.
pub open spec fn string_views(strings: Seq<String>) -> Seq<Seq<char>> {
    Seq::new(strings.len(), |i: int| strings[i]@)
}

/// The addresses of the title dumps of every language of a registry.
pub fn download_urls(classes: &Vec<EncodingClass>) -> (urls: Vec<String>)
    ensures
        string_views(urls@) == registry_addresses(crate::taxonomy::class_models(classes@)),
{
    let ghost models = crate::taxonomy::class_models(classes@);
    let mut urls: Vec<String> = Vec::new();
    let mut c: usize = 0;
    assert(models.take(0) =~= Seq::<crate::taxonomy::ClassModel>::empty());
    assert(string_views(urls@) =~= Seq::<Seq<char>>::empty());
    while c < classes.len()
        invariant
            c <= classes@.len(),
            models == crate::taxonomy::class_models(classes@),
            string_views(urls@) == registry_addresses(models.take(c as int)),
        decreases classes@.len() - c,
    {
        let class = &classes[c];
        let ghost languages = models[c as int].languages;
        let ghost done = string_views(urls@);
        let mut l: usize = 0;
        assert(string_views(urls@) =~= done + language_addresses(languages.take(0)));
        while l < class.languages.len()
            invariant
                l <= class.languages@.len(),
                languages == class@.languages,
                string_views(urls@) == done + language_addresses(languages.take(l as int)),
            decreases class.languages@.len() - l,
        {
            let (language, _) = class.languages[l];
            let ghost before = string_views(urls@);
            urls.push(title_dump_url(language));
            assert(string_views(urls@) =~= before.push(title_dump_address(language@)));
            assert(string_views(urls@) =~= done + language_addresses(languages.take(l + 1)));
            l = l + 1;
        }
        proof {
            assert(languages.take(l as int) =~= languages);
            let taken = models.take(c + 1);
            assert(taken.drop_last() =~= models.take(c as int));
            assert(taken.last() == models[c as int]);
        }
        c = c + 1;
    }
    assert(models.take(c as int) =~= models);
    urls
}

} // verus!

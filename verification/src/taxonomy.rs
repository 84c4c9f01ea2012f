//! The registry of encoding classes: which languages were historically
//! written in which legacy encodings, and the tasks that follow from it.

use crate::detect::is_tld_label;
use crate::encoding::LegacyEncoding;
use vstd::prelude::*;

verus! {

/// Number of encoding classes in the registry.
pub const CLASS_COUNT: usize = 18;

/// A family of encodings and the languages that were written in them. Each
/// language comes as its tag and the country code that serves as the hint
/// for detectors that take one.
pub struct EncodingClass {
    pub encodings: Vec<LegacyEncoding>,
    pub languages: Vec<(&'static str, &'static str)>,
    pub name: &'static str,
}

/// The mathematical value of an encoding class.
pub struct ClassModel {
    pub encodings: Seq<LegacyEncoding>,
    pub languages: Seq<(Seq<char>, Seq<char>)>,
    pub name: Seq<char>,
}

impl View for EncodingClass {
    type V = ClassModel;

    open spec fn view(&self) -> ClassModel {
        ClassModel {
            encodings: self.encodings@,
            languages: Seq::new(
                self.languages@.len(),
                |j: int| (self.languages@[j].0@, self.languages@[j].1@),
            ),
            name: self.name@,
        }
    }
}

/// The class at a position of the registry. The Vietnamese class comes
/// first, and within a class the Windows encoding comes first.
pub open spec fn taxonomy_class(i: int) -> ClassModel {
    if i == 0 {
        ClassModel {
            encodings: seq![LegacyEncoding::Windows1258],
            languages: seq![
                ("vi"@, "vi"@),
            ],
            name: "vietnamese"@,
        }
    } else if i == 1 {
        ClassModel {
            encodings: seq![LegacyEncoding::Windows1250, LegacyEncoding::Iso8859_2],
            languages: seq![
                ("pl"@, "pl"@),
                ("hu"@, "hu"@),
                ("sh"@, "hr"@),
                ("cs"@, "cz"@),
                ("ro"@, "ro"@),
                ("sk"@, "sk"@),
                ("hr"@, "hr"@),
                ("sl"@, "si"@),
                ("bs"@, "ba"@),
            ],
            name: "central"@,
        }
    } else if i == 2 {
        ClassModel {
            encodings: seq![LegacyEncoding::Windows1251, LegacyEncoding::Koi8U, LegacyEncoding::Iso8859_5, LegacyEncoding::Ibm866],
            languages: seq![
                ("ru"@, "ru"@),
                ("ce"@, "ru"@),
            ],
            name: "russia"@,
        }
    } else if i == 3 {
        ClassModel {
            encodings: seq![LegacyEncoding::Windows1251, LegacyEncoding::Koi8U, LegacyEncoding::Iso8859_5],
            languages: seq![
                ("sr"@, "rs"@),
                ("bg"@, "bg"@),
                ("be"@, "by"@),
                ("mk"@, "mk"@),
            ],
            name: "cyrillic-iso"@,
        }
    } else if i == 4 {
        ClassModel {
            encodings: seq![LegacyEncoding::Windows1251, LegacyEncoding::Koi8U],
            languages: seq![
                ("uk"@, "ua"@),
                ("mn"@, "mn"@),
            ],
            name: "ukrainian"@,
        }
    } else if i == 5 {
        ClassModel {
            encodings: seq![LegacyEncoding::Windows1252],
            languages: seq![
                ("sv"@, "se"@),
                ("de"@, "de"@),
                ("fr"@, "fr"@),
                ("it"@, "it"@),
                ("es"@, "es"@),
                ("pt"@, "pt"@),
                ("ca"@, "es"@),
                ("no"@, "no"@),
                ("fi"@, "fi"@),
                ("eu"@, "es"@),
                ("da"@, "dk"@),
                ("gl"@, "es"@),
                ("nn"@, "no"@),
                ("oc"@, "fr"@),
                ("br"@, "fr"@),
                ("lb"@, "lu"@),
                ("ht"@, "ht"@),
                ("ga"@, "es"@),
                ("is"@, "is"@),
                ("an"@, "es"@),
                ("wa"@, "be"@),
                ("gd"@, "uk"@),
                ("fo"@, "fo"@),
                ("li"@, "be"@),
                ("sq"@, "al"@),
            ],
            name: "western"@,
        }
    } else if i == 6 {
        ClassModel {
            encodings: seq![LegacyEncoding::Windows1253, LegacyEncoding::Iso8859_7],
            languages: seq![
                ("el"@, "gr"@),
            ],
            name: "greek"@,
        }
    } else if i == 7 {
        ClassModel {
            encodings: seq![LegacyEncoding::Windows1254],
            languages: seq![
                ("tr"@, "tr"@),
                ("az"@, "az"@),
                ("ku"@, "tr"@),
            ],
            name: "turkish"@,
        }
    } else if i == 8 {
        ClassModel {
            encodings: seq![LegacyEncoding::Windows1255],
            languages: seq![
                ("he"@, "il"@),
                ("yi"@, "il"@),
            ],
            name: "hebrew"@,
        }
    } else if i == 9 {
        ClassModel {
            encodings: seq![LegacyEncoding::Windows1256, LegacyEncoding::Iso8859_6],
            languages: seq![
                ("ar"@, "sa"@),
            ],
            name: "arabic"@,
        }
    } else if i == 10 {
        ClassModel {
            encodings: seq![LegacyEncoding::Windows1256],
            languages: seq![
                ("fa"@, "ir"@),
                ("ur"@, "pk"@),
            ],
            name: "persian-urdu"@,
        }
    } else if i == 11 {
        ClassModel {
            encodings: seq![LegacyEncoding::Windows1252, LegacyEncoding::Windows1257, LegacyEncoding::Iso8859_4],
            languages: seq![
                ("et"@, "ee"@),
            ],
            name: "estonian"@,
        }
    } else if i == 12 {
        ClassModel {
            encodings: seq![LegacyEncoding::Windows1257, LegacyEncoding::Iso8859_4],
            languages: seq![
                ("lt"@, "lt"@),
                ("lv"@, "lv"@),
            ],
            name: "baltic"@,
        }
    } else if i == 13 {
        ClassModel {
            encodings: seq![LegacyEncoding::Windows874],
            languages: seq![
                ("th"@, "th"@),
            ],
            name: "thai"@,
        }
    } else if i == 14 {
        ClassModel {
            encodings: seq![LegacyEncoding::ShiftJis, LegacyEncoding::EucJp],
            languages: seq![
                ("ja"@, "jp"@),
            ],
            name: "japanese"@,
        }
    } else if i == 15 {
        ClassModel {
            encodings: seq![LegacyEncoding::EucKr],
            languages: seq![
                ("ko"@, "kr"@),
            ],
            name: "korean"@,
        }
    } else if i == 16 {
        ClassModel {
            encodings: seq![LegacyEncoding::Gbk],
            languages: seq![
                ("zh-hans"@, "cn"@),
            ],
            name: "simplified"@,
        }
    } else {
        ClassModel {
            encodings: seq![LegacyEncoding::Big5],
            languages: seq![
                ("zh-hant"@, "tw"@),
            ],
            name: "traditional"@,
        }
    }
}

/// The whole registry.
pub open spec fn taxonomy() -> Seq<ClassModel> {
    Seq::new(CLASS_COUNT as nat, |i: int| taxonomy_class(i))
}

/// The models of a sequence of classes.
pub open spec fn class_models(classes: Seq<EncodingClass>) -> Seq<ClassModel> {
    Seq::new(classes.len(), |i: int| classes[i]@)
}

/// A text of lower-case ASCII letters.
pub open spec fn is_lower_alpha(text: Seq<char>) -> bool {
    forall|i: int| 0 <= i < text.len() ==> 'a' <= #[trigger] text[i] <= 'z'
}

/// Every country code of a class is made of lower-case ASCII letters.
pub open spec fn countries_lower_alpha(class: ClassModel) -> bool {
    forall|j: int| 0 <= j < class.languages.len() ==> is_lower_alpha((#[trigger] class.languages[j]).1)
}

/// A text of lower-case ASCII letters is, as bytes, a top-level domain label
/// that the detectors accept.
pub proof fn lemma_lower_alpha_tld(text: Seq<char>)
    requires
        is_lower_alpha(text),
    ensures
        is_tld_label(vstd::utf8::encode_utf8(text)),
{
    assert(vstd::utf8::is_ascii_chars(text));
    vstd::utf8::is_ascii_chars_encode_utf8(text);
    let bytes = vstd::utf8::encode_utf8(text);
    assert forall|i: int| 0 <= i < bytes.len() implies {
        let b = #[trigger] bytes[i];
        b < 0x80 && b != 0x2E && !(0x41 <= b <= 0x5A)
    } by {
        lemma_lower_letter_byte(text[i]);
    }
}

proof fn lemma_lower_letter_byte(c: char)
    requires
        'a' <= c <= 'z',
    ensures
        0x61 <= c as u8 <= 0x7A,
{
}

/// The registry holds only classes with at least one encoding and one
/// language, and all its country codes are lower-case ASCII letters.
pub proof fn lemma_taxonomy_class(i: int)
    requires
        0 <= i < CLASS_COUNT,
    ensures
        taxonomy_class(i).encodings.len() > 0,
        taxonomy_class(i).languages.len() > 0,
        countries_lower_alpha(taxonomy_class(i)),
{
    reveal_strlit("al");
    reveal_strlit("az");
    reveal_strlit("ba");
    reveal_strlit("be");
    reveal_strlit("bg");
    reveal_strlit("by");
    reveal_strlit("cn");
    reveal_strlit("cz");
    reveal_strlit("de");
    reveal_strlit("dk");
    reveal_strlit("ee");
    reveal_strlit("es");
    reveal_strlit("fi");
    reveal_strlit("fo");
    reveal_strlit("fr");
    reveal_strlit("gr");
    reveal_strlit("hr");
    reveal_strlit("ht");
    reveal_strlit("hu");
    reveal_strlit("il");
    reveal_strlit("ir");
    reveal_strlit("is");
    reveal_strlit("it");
    reveal_strlit("jp");
    reveal_strlit("kr");
    reveal_strlit("lt");
    reveal_strlit("lu");
    reveal_strlit("lv");
    reveal_strlit("mk");
    reveal_strlit("mn");
    reveal_strlit("no");
    reveal_strlit("pk");
    reveal_strlit("pl");
    reveal_strlit("pt");
    reveal_strlit("ro");
    reveal_strlit("rs");
    reveal_strlit("ru");
    reveal_strlit("sa");
    reveal_strlit("se");
    reveal_strlit("si");
    reveal_strlit("sk");
    reveal_strlit("th");
    reveal_strlit("tr");
    reveal_strlit("tw");
    reveal_strlit("ua");
    reveal_strlit("uk");
    reveal_strlit("vi");
}

/// The class at a position of the registry.
pub fn class_at(i: usize) -> (class: EncodingClass)
    requires
        i < CLASS_COUNT,
    ensures
        class@ == taxonomy_class(i as int),
{
    let class = 
    if i == 0 {
        EncodingClass {
            encodings: vec![LegacyEncoding::Windows1258],
            languages: vec![
                ("vi", "vi"),
            ],
            name: "vietnamese",
        }
    } else if i == 1 {
        EncodingClass {
            encodings: vec![LegacyEncoding::Windows1250, LegacyEncoding::Iso8859_2],
            languages: vec![
                ("pl", "pl"),
                ("hu", "hu"),
                ("sh", "hr"),
                ("cs", "cz"),
                ("ro", "ro"),
                ("sk", "sk"),
                ("hr", "hr"),
                ("sl", "si"),
                ("bs", "ba"),
            ],
            name: "central",
        }
    } else if i == 2 {
        EncodingClass {
            encodings: vec![LegacyEncoding::Windows1251, LegacyEncoding::Koi8U, LegacyEncoding::Iso8859_5, LegacyEncoding::Ibm866],
            languages: vec![
                ("ru", "ru"),
                ("ce", "ru"),
            ],
            name: "russia",
        }
    } else if i == 3 {
        EncodingClass {
            encodings: vec![LegacyEncoding::Windows1251, LegacyEncoding::Koi8U, LegacyEncoding::Iso8859_5],
            languages: vec![
                ("sr", "rs"),
                ("bg", "bg"),
                ("be", "by"),
                ("mk", "mk"),
            ],
            name: "cyrillic-iso",
        }
    } else if i == 4 {
        EncodingClass {
            encodings: vec![LegacyEncoding::Windows1251, LegacyEncoding::Koi8U],
            languages: vec![
                ("uk", "ua"),
                ("mn", "mn"),
            ],
            name: "ukrainian",
        }
    } else if i == 5 {
        EncodingClass {
            encodings: vec![LegacyEncoding::Windows1252],
            languages: vec![
                ("sv", "se"),
                ("de", "de"),
                ("fr", "fr"),
                ("it", "it"),
                ("es", "es"),
                ("pt", "pt"),
                ("ca", "es"),
                ("no", "no"),
                ("fi", "fi"),
                ("eu", "es"),
                ("da", "dk"),
                ("gl", "es"),
                ("nn", "no"),
                ("oc", "fr"),
                ("br", "fr"),
                ("lb", "lu"),
                ("ht", "ht"),
                ("ga", "es"),
                ("is", "is"),
                ("an", "es"),
                ("wa", "be"),
                ("gd", "uk"),
                ("fo", "fo"),
                ("li", "be"),
                ("sq", "al"),
            ],
            name: "western",
        }
    } else if i == 6 {
        EncodingClass {
            encodings: vec![LegacyEncoding::Windows1253, LegacyEncoding::Iso8859_7],
            languages: vec![
                ("el", "gr"),
            ],
            name: "greek",
        }
    } else if i == 7 {
        EncodingClass {
            encodings: vec![LegacyEncoding::Windows1254],
            languages: vec![
                ("tr", "tr"),
                ("az", "az"),
                ("ku", "tr"),
            ],
            name: "turkish",
        }
    } else if i == 8 {
        EncodingClass {
            encodings: vec![LegacyEncoding::Windows1255],
            languages: vec![
                ("he", "il"),
                ("yi", "il"),
            ],
            name: "hebrew",
        }
    } else if i == 9 {
        EncodingClass {
            encodings: vec![LegacyEncoding::Windows1256, LegacyEncoding::Iso8859_6],
            languages: vec![
                ("ar", "sa"),
            ],
            name: "arabic",
        }
    } else if i == 10 {
        EncodingClass {
            encodings: vec![LegacyEncoding::Windows1256],
            languages: vec![
                ("fa", "ir"),
                ("ur", "pk"),
            ],
            name: "persian-urdu",
        }
    } else if i == 11 {
        EncodingClass {
            encodings: vec![LegacyEncoding::Windows1252, LegacyEncoding::Windows1257, LegacyEncoding::Iso8859_4],
            languages: vec![
                ("et", "ee"),
            ],
            name: "estonian",
        }
    } else if i == 12 {
        EncodingClass {
            encodings: vec![LegacyEncoding::Windows1257, LegacyEncoding::Iso8859_4],
            languages: vec![
                ("lt", "lt"),
                ("lv", "lv"),
            ],
            name: "baltic",
        }
    } else if i == 13 {
        EncodingClass {
            encodings: vec![LegacyEncoding::Windows874],
            languages: vec![
                ("th", "th"),
            ],
            name: "thai",
        }
    } else if i == 14 {
        EncodingClass {
            encodings: vec![LegacyEncoding::ShiftJis, LegacyEncoding::EucJp],
            languages: vec![
                ("ja", "jp"),
            ],
            name: "japanese",
        }
    } else if i == 15 {
        EncodingClass {
            encodings: vec![LegacyEncoding::EucKr],
            languages: vec![
                ("ko", "kr"),
            ],
            name: "korean",
        }
    } else if i == 16 {
        EncodingClass {
            encodings: vec![LegacyEncoding::Gbk],
            languages: vec![
                ("zh-hans", "cn"),
            ],
            name: "simplified",
        }
    } else {
        EncodingClass {
            encodings: vec![LegacyEncoding::Big5],
            languages: vec![
                ("zh-hant", "tw"),
            ],
            name: "traditional",
        }
    };
    assert(class@.encodings =~= taxonomy_class(i as int).encodings);
    assert(class@.languages =~= taxonomy_class(i as int).languages);
    class
}

/// The registry, built afresh.
pub fn encoding_classes() -> (classes: Vec<EncodingClass>)
    ensures
        class_models(classes@) == taxonomy(),
{
    let mut classes: Vec<EncodingClass> = Vec::new();
    let mut i: usize = 0;
    while i < CLASS_COUNT
        invariant
            i <= CLASS_COUNT,
            classes@.len() == i,
            forall|k: int| 0 <= k < i ==> (#[trigger] classes@[k])@ == taxonomy_class(k),
        decreases CLASS_COUNT - i,
    {
        classes.push(class_at(i));
        i = i + 1;
    }
    assert(class_models(classes@) =~= taxonomy());
    classes
}

} // verus!

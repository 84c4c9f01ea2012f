//! Orthographic normalization of a sample before it is written in a legacy
//! encoding.

use crate::encoding::is_central_european;
use crate::encoding::is_cyrillic;
use crate::encoding::is_kana_free_cjk;
use crate::encoding::LegacyEncoding;
use crate::text::chars_of;
use detone::IterDecomposeVietnamese;
use unic_normal::StrNormalForm;
use unicode_reverse::reverse_grapheme_clusters_in_place;
use vstd::prelude::*;

verus! {

/// `text` in Unicode Normalization Form C.
pub uninterp spec fn composed(text: Seq<char>) -> Seq<char>;

/// `text` with the tone marks of Vietnamese vowels detached from their base
/// letters: all of them where `orthographic` holds, otherwise only those
/// whose precomposed form windows-1258 lacks.
pub uninterp spec fn tones_detached(text: Seq<char>, orthographic: bool) -> Seq<char>;

/// `text` with its extended grapheme clusters in the opposite order.
pub uninterp spec fn graphemes_reversed(text: Seq<char>) -> Seq<char>;

/// `StrNormalForm::nfc` of `unic_normal` on the code points, collected: the
/// text in Normalization Form C, a function of the text.
#[verifier::external_body]
pub(crate) fn compose(text: &Vec<char>) -> (out: Vec<char>)
    ensures
        out@ == composed(text@),
{
    text.iter().copied().nfc().collect()
}

/// `IterDecomposeVietnamese::decompose_vietnamese_tones` of `detone` on the
/// code points, collected: a function of the text and the flag.
#[verifier::external_body]
pub(crate) fn detach_tones(text: &Vec<char>, orthographic: bool) -> (out: Vec<char>)
    ensures
        out@ == tones_detached(text@, orthographic),
{
    text.iter().copied().decompose_vietnamese_tones(orthographic).collect()
}

/// `reverse_grapheme_clusters_in_place` of `unicode_reverse` on the text as a
/// string: a function of the text.
#[verifier::external_body]
pub(crate) fn reverse_graphemes(text: &Vec<char>) -> (out: Vec<char>)
    ensures
        out@ == graphemes_reversed(text@),
{
    let mut string: String = text.iter().collect();
    reverse_grapheme_clusters_in_place(&mut string);
    string.chars().collect()
}

/// Whether every code point of a text is ASCII.
pub open spec fn is_ascii_text(text: Seq<char>) -> bool {
    forall|i: int| 0 <= i < text.len() ==> (#[trigger] text[i] as u32) < 0x80
}

/// Whether a code point is Hiragana or Katakana.
pub open spec fn is_kana(c: char) -> bool {
    0x3040 <= (c as u32) < 0x3100
}

/// Whether a text holds a Hiragana or Katakana code point.
pub open spec fn has_kana(text: Seq<char>) -> bool {
    exists|i: int| 0 <= i < text.len() && is_kana(#[trigger] text[i])
}

/// The code point written for `c` in a sample for `encoding`: the corpus
/// placeholder `_` becomes a space, and a letter that the encoding family
/// lacks becomes the related letter that it has.
pub open spec fn substituted(encoding: LegacyEncoding, c: char) -> char {
    if c == '_' {
        ' '
    } else if is_central_european(encoding) {
        if c == '\u{21B}' {
            '\u{163}'
        } else if c == '\u{219}' {
            '\u{15F}'
        } else if c == '\u{21A}' {
            '\u{162}'
        } else if c == '\u{218}' {
            '\u{15E}'
        } else {
            c
        }
    } else if encoding == LegacyEncoding::Windows1254 {
        if c == '\u{18F}' {
            '\u{C4}'
        } else if c == '\u{259}' {
            '\u{E4}'
        } else {
            c
        }
    } else if is_cyrillic(encoding) {
        if c == '\u{4AE}' {
            '\u{407}'
        } else if c == '\u{4AF}' {
            '\u{457}'
        } else if c == '\u{4E8}' {
            '\u{404}'
        } else if c == '\u{4E9}' {
            '\u{454}'
        } else {
            c
        }
    } else {
        c
    }
}

/// A text with every code point substituted.
pub open spec fn substituted_text(encoding: LegacyEncoding, text: Seq<char>) -> Seq<char> {
    Seq::new(text.len(), |i: int| substituted(encoding, text[i]))
}

/// The composed form of a text, with Vietnamese tones detached where the
/// target is the Vietnamese encoding.
pub open spec fn shaped(text: Seq<char>, encoding: LegacyEncoding, orthographic: bool) -> Seq<
    char,
> {
    if encoding == LegacyEncoding::Windows1258 {
        tones_detached(composed(text), orthographic)
    } else {
        composed(text)
    }
}

/// The normalized form of a sample, or `None` where the sample is rejected:
/// a sample of ASCII alone, a sample with kana for one of the three CJK
/// encodings that must be free of it, or a sample whose normalized form is
/// ASCII alone.
pub open spec fn normalized(text: Seq<char>, encoding: LegacyEncoding, orthographic: bool) -> Option<
    Seq<char>,
> {
    if is_ascii_text(text) {
        None
    } else if is_kana_free_cjk(encoding) && has_kana(text) {
        None
    } else {
        let out = substituted_text(encoding, shaped(text, encoding, orthographic));
        if is_ascii_text(out) {
            None
        } else {
            Some(out)
        }
    }
}

/// Whether every code point of `text` is ASCII.
pub fn text_is_ascii(text: &Vec<char>) -> (ascii: bool)
    ensures
        ascii == is_ascii_text(text@),
{
    let mut i: usize = 0;
    while i < text.len()
        invariant
            i <= text@.len(),
            forall|j: int| 0 <= j < i ==> (#[trigger] text@[j] as u32) < 0x80,
        decreases text@.len() - i,
    {
        if text[i] as u32 >= 0x80 {
            return false;
        }
        i = i + 1;
    }
    true
}

/// Whether `text` holds a Hiragana or Katakana code point.
pub fn contains_kana(text: &Vec<char>) -> (found: bool)
    ensures
        found == has_kana(text@),
{
    let mut i: usize = 0;
    while i < text.len()
        invariant
            i <= text@.len(),
            forall|j: int| 0 <= j < i ==> !is_kana(#[trigger] text@[j]),
        decreases text@.len() - i,
    {
        let code = text[i] as u32;
        if code >= 0x3040 && code < 0x3100 {
            assert(is_kana(text@[i as int]));
            return true;
        }
        i = i + 1;
    }
    false
}

/// The substitute for one code point.
pub fn substitute(encoding: LegacyEncoding, c: char) -> (out: char)
    ensures
        out == substituted(encoding, c),
{
    if c == '_' {
        ' '
    } else if encoding == LegacyEncoding::Windows1250 || encoding == LegacyEncoding::Iso8859_2 {
        if c == '\u{21B}' {
            '\u{163}'
        } else if c == '\u{219}' {
            '\u{15F}'
        } else if c == '\u{21A}' {
            '\u{162}'
        } else if c == '\u{218}' {
            '\u{15E}'
        } else {
            c
        }
    } else if encoding == LegacyEncoding::Windows1254 {
        if c == '\u{18F}' {
            '\u{C4}'
        } else if c == '\u{259}' {
            '\u{E4}'
        } else {
            c
        }
    } else if encoding == LegacyEncoding::Windows1251 || encoding == LegacyEncoding::Iso8859_5
        || encoding == LegacyEncoding::Ibm866 || encoding == LegacyEncoding::Koi8U {
        if c == '\u{4AE}' {
            '\u{407}'
        } else if c == '\u{4AF}' {
            '\u{457}'
        } else if c == '\u{4E8}' {
            '\u{404}'
        } else if c == '\u{4E9}' {
            '\u{454}'
        } else {
            c
        }
    } else {
        c
    }
}

/// Substitutes every code point of a text.
pub fn substitute_text(encoding: LegacyEncoding, text: &Vec<char>) -> (out: Vec<char>)
    ensures
        out@ == substituted_text(encoding, text@),
{
    let mut out: Vec<char> = Vec::new();
    let mut i: usize = 0;
    while i < text.len()
        invariant
            i <= text@.len(),
            out@.len() == i,
            forall|j: int| 0 <= j < i ==> out@[j] == substituted(encoding, text@[j]),
        decreases text@.len() - i,
    {
        out.push(substitute(encoding, text[i]));
        i = i + 1;
    }
    assert(out@ =~= substituted_text(encoding, text@));
    out
}

/// Normalizes a sample for its target encoding, or rejects it.
pub fn normalize(s: &str, encoding: LegacyEncoding, orthographic: bool) -> (out: Option<Vec<char>>)
    ensures
        out is Some <==> normalized(s@, encoding, orthographic) is Some,
        out matches Some(t) ==> normalized(s@, encoding, orthographic) == Some(t@),
        is_ascii_text(s@) ==> out is None,
        out matches Some(t) ==> !is_ascii_text(t@),
{
    let text = chars_of(s);
    normalize_chars(&text, encoding, orthographic)
}

/// As `normalize`, on a sample given as code points.
pub fn normalize_chars(text: &Vec<char>, encoding: LegacyEncoding, orthographic: bool) -> (out:
    Option<Vec<char>>)
    ensures
        out is Some <==> normalized(text@, encoding, orthographic) is Some,
        out matches Some(t) ==> normalized(text@, encoding, orthographic) == Some(t@),
        is_ascii_text(text@) ==> out is None,
        out matches Some(t) ==> !is_ascii_text(t@),
{
    if text_is_ascii(text) {
        return None;
    }
    let cjk = encoding == LegacyEncoding::Big5 || encoding == LegacyEncoding::EucKr || encoding
        == LegacyEncoding::Gbk;
    if cjk && contains_kana(text) {
        return None;
    }
    let composed = compose(text);
    let shaped = if encoding == LegacyEncoding::Windows1258 {
        detach_tones(&composed, orthographic)
    } else {
        composed
    };
    let out = substitute_text(encoding, &shaped);
    if text_is_ascii(&out) {
        None
    } else {
        Some(out)
    }
}

} // verus!

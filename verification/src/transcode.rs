//! Writing a normalized sample in its target encoding, and the rejection of
//! samples that carry no signal.

use crate::codec::bytewise_errors;
use crate::codec::decode_bytes;
use crate::codec::decoded;
use crate::codec::decoded_text;
use crate::codec::encode_text;
use crate::codec::encoded_bytes;
use crate::codec::MAX_BYTES_LEN;
use crate::codec::MAX_TEXT_LEN;
use crate::encoding::encoding_name;
use crate::encoding::fast_index;
use crate::encoding::is_kana_free_cjk;
use crate::encoding::lemma_name_round_trip;
use crate::encoding::LegacyEncoding;
use crate::normalize::has_kana;
use crate::normalize::is_ascii_text;
use crate::normalize::normalize;
use crate::normalize::normalize_chars;
use crate::normalize::normalized;
use crate::normalize::text_is_ascii;
use crate::table::bytewise_decoded;
use crate::table::fast_encoded;
use crate::table::lemma_fast_encoded_ascii;
use crate::table::lemma_mappable_keeps_signal;
use crate::table::lemma_round_trip;
use crate::table::mappable;
use crate::table::FastEncoder;
use vstd::prelude::*;

verus! {

/// The number of leading ASCII bytes of a buffer.
pub open spec fn ascii_prefix_len(bytes: Seq<u8>) -> nat
    decreases bytes.len(),
{
    if bytes.len() == 0 || bytes[0] >= 0x80 {
        0
    } else {
        1 + ascii_prefix_len(bytes.drop_first())
    }
}

/// Whether every byte of a buffer is ASCII.
pub open spec fn is_ascii_bytes(bytes: Seq<u8>) -> bool {
    forall|i: int| 0 <= i < bytes.len() ==> #[trigger] bytes[i] < 0x80
}

/// The leading ASCII bytes end at the first byte with the high bit set, or
/// at the end of the buffer.
pub proof fn lemma_ascii_prefix(bytes: Seq<u8>, n: int)
    requires
        0 <= n <= bytes.len(),
        forall|i: int| 0 <= i < n ==> #[trigger] bytes[i] < 0x80,
        n < bytes.len() ==> bytes[n] >= 0x80,
    ensures
        ascii_prefix_len(bytes) == n,
        is_ascii_bytes(bytes) <==> n == bytes.len(),
    decreases n,
{
    if n > 0 {
        let rest = bytes.drop_first();
        assert forall|i: int| 0 <= i < n - 1 implies #[trigger] rest[i] < 0x80 by {
            assert(rest[i] == bytes[i + 1]);
        }
        lemma_ascii_prefix(rest, n - 1);
    }
}

/// The index of the first byte that is not ASCII, or the length of the
/// buffer where all of it is ASCII.
pub fn ascii_valid_up_to(bytes: &[u8]) -> (n: usize)
    ensures
        n == ascii_prefix_len(bytes@),
        n <= bytes@.len(),
        forall|i: int| 0 <= i < n ==> #[trigger] bytes@[i] < 0x80,
        n < bytes@.len() ==> bytes@[n as int] >= 0x80,
        n == bytes@.len() <==> is_ascii_bytes(bytes@),
{
    let mut i: usize = 0;
    while i < bytes.len()
        invariant_except_break
            i <= bytes@.len(),
            forall|j: int| 0 <= j < i ==> #[trigger] bytes@[j] < 0x80,
        ensures
            i <= bytes@.len(),
            forall|j: int| 0 <= j < i ==> #[trigger] bytes@[j] < 0x80,
            i < bytes@.len() ==> bytes@[i as int] >= 0x80,
        decreases bytes@.len() - i,
    {
        if bytes[i] >= 0x80 {
            break;
        }
        i = i + 1;
    }
    proof {
        lemma_ascii_prefix(bytes@, i as int);
    }
    i
}

/// The bytes that the encoder in charge writes for a normalized text: the
/// fast table for an encoding that it covers, the encoding's own general
/// encoder otherwise. A general encoder is handed at most `MAX_TEXT_LEN`
/// code points, so a longer text has no bytes; the fast table has no such
/// limit.
pub open spec fn raw_bytes(text: Seq<char>, encoding: LegacyEncoding) -> Option<Seq<u8>> {
    match fast_index(encoding) {
        Some(row) => Some(fast_encoded(row, text)),
        None => if text.len() <= MAX_TEXT_LEN {
            encoded_bytes(encoding_name(encoding), text)
        } else {
            None
        },
    }
}

/// The bytes of a sample that qualifies: not ASCII alone.
pub open spec fn accepted(bytes: Seq<u8>) -> Option<Seq<u8>> {
    if is_ascii_bytes(bytes) {
        None
    } else {
        Some(bytes)
    }
}

/// The bytes of a normalized text in its target encoding, or `None` where
/// the text is rejected.
pub open spec fn transcoded(text: Seq<char>, encoding: LegacyEncoding) -> Option<Seq<u8>> {
    if is_ascii_text(text) {
        None
    } else {
        match raw_bytes(text, encoding) {
            Some(bytes) => accepted(bytes),
            None => None,
        }
    }
}

/// The bytes of a sample: normalized, then transcoded.
pub open spec fn sample_bytes(
    text: Seq<char>,
    encoding: LegacyEncoding,
    orthographic: bool,
) -> Option<Seq<u8>> {
    match normalized(text, encoding, orthographic) {
        Some(t) => transcoded(t, encoding),
        None => None,
    }
}

/// Keeps the bytes of a sample that qualifies and drops the others.
pub fn accept_bytes(bytes: Vec<u8>) -> (kept: Option<Vec<u8>>)
    ensures
        kept is Some <==> accepted(bytes@) is Some,
        kept matches Some(b) ==> b@ == bytes@,
        kept matches Some(b) ==> !is_ascii_bytes(b@),
{
    if ascii_valid_up_to(bytes.as_slice()) == bytes.len() {
        return None;
    }
    Some(bytes)
}

/// Writes a normalized text in its target encoding. A text of ASCII alone is
/// rejected whatever the encoding, and so is one whose bytes are ASCII alone.
/// For an encoding without a fast table, a text of more than `MAX_TEXT_LEN`
/// code points is dropped too: the general encoder cannot size its buffer
/// for it.
pub fn transcode(text: &Vec<char>, encoding: LegacyEncoding, table: &FastEncoder) -> (bytes: Option<
    Vec<u8>,
>)
    requires
        table.wf(),
    ensures
        bytes is Some <==> transcoded(text@, encoding) is Some,
        bytes matches Some(b) ==> transcoded(text@, encoding) == Some(b@),
        is_ascii_text(text@) ==> bytes is None,
        bytes matches Some(b) ==> !is_ascii_bytes(b@),
{
    if text_is_ascii(text) {
        return None;
    }
    match encoding.fast_table_index() {
        Some(_) => accept_bytes(table.encode_chars(encoding, text)),
        None => {
            if text.len() > MAX_TEXT_LEN {
                return None;
            }
            match encode_text(encoding.name(), text) {
                Some(raw) => accept_bytes(raw),
                None => None,
            }
        },
    }
}

/// Synthesizes the bytes of one sample: normalizes `s` for `encoding` and
/// writes the result in it. `None` means that the sample is rejected. For
/// an encoding without a fast table, a sample whose normalized form has
/// more than `MAX_TEXT_LEN` code points is dropped as `transcode` drops it.
pub fn encode(s: &str, encoding: LegacyEncoding, orthographic: bool, fast_encoder: &FastEncoder) -> (bytes:
    Option<Vec<u8>>)
    requires
        fast_encoder.wf(),
    ensures
        bytes is Some <==> sample_bytes(s@, encoding, orthographic) is Some,
        bytes matches Some(b) ==> sample_bytes(s@, encoding, orthographic) == Some(b@),
        is_ascii_text(s@) ==> bytes is None,
        bytes matches Some(b) ==> !is_ascii_bytes(b@),
{
    match normalize(s, encoding, orthographic) {
        Some(text) => transcode(&text, encoding, fast_encoder),
        None => None,
    }
}

/// As `encode`, on a sample given as code points.
pub fn encode_chars(
    text: &Vec<char>,
    encoding: LegacyEncoding,
    orthographic: bool,
    fast_encoder: &FastEncoder,
) -> (bytes: Option<Vec<u8>>)
    requires
        fast_encoder.wf(),
    ensures
        bytes is Some <==> sample_bytes(text@, encoding, orthographic) is Some,
        bytes matches Some(b) ==> sample_bytes(text@, encoding, orthographic) == Some(b@),
        is_ascii_text(text@) ==> bytes is None,
        bytes matches Some(b) ==> !is_ascii_bytes(b@),
{
    match normalize_chars(text, encoding, orthographic) {
        Some(normal) => transcode(&normal, encoding, fast_encoder),
        None => None,
    }
}

/// Reads the bytes of a sample under an encoding: the text, and whether the
/// bytes held a malformed sequence. For an encoding that the fast table
/// covers, that is reading them one byte at a time.
pub fn decode_checked(encoding: LegacyEncoding, bytes: &[u8]) -> (reading: (Vec<char>, bool))
    requires
        bytes@.len() <= MAX_BYTES_LEN,
    ensures
        decoded(encoding_name(encoding), bytes@) == Some((reading.0@, reading.1)),
        fast_index(encoding) matches Some(row) ==> reading.0@ == bytewise_decoded(row, bytes@)
            && reading.1 == bytewise_errors(encoding_name(encoding), bytes@),
{
    proof {
        lemma_name_round_trip(encoding);
    }
    match decode_bytes(encoding.name(), bytes) {
        Some(reading) => reading,
        None => (Vec::new(), true),
    }
}

/// The text that the bytes of a sample hold under an encoding.
pub fn decode_sample(encoding: LegacyEncoding, bytes: &[u8]) -> (text: Vec<char>)
    requires
        bytes@.len() <= MAX_BYTES_LEN,
    ensures
        decoded_text(encoding_name(encoding), bytes@) == Some(text@),
        fast_index(encoding) matches Some(row) ==> text@ == bytewise_decoded(row, bytes@),
{
    decode_checked(encoding, bytes).0
}

/// Whether a normalized text passes through the fast table of its encoding
/// without loss: the table covers the encoding, and every code point of the
/// text is ASCII or has an entry.
pub open spec fn maps_fully(text: Seq<char>, encoding: LegacyEncoding) -> bool {
    match fast_index(encoding) {
        Some(row) => forall|i: int| 0 <= i < text.len() ==> mappable(row, #[trigger] text[i]),
        None => false,
    }
}

/// Writes a normalized text in its target encoding and reads the bytes back
/// under the same encoding. `None` where the text is rejected or its bytes
/// are too many to be decoded.
///
/// A text that is not ASCII alone and passes through the fast table without
/// loss is written as one byte per code point, and the decoder reads the
/// same text back and finds nothing malformed.
pub fn round_trip(text: &Vec<char>, encoding: LegacyEncoding, table: &FastEncoder) -> (back:
    Option<(Vec<char>, bool)>)
    requires
        table.wf(),
        text@.len() <= MAX_TEXT_LEN,
    ensures
        back is Some <==> transcoded(text@, encoding) is Some && transcoded(text@, encoding)->0.len()
            <= MAX_BYTES_LEN,
        back matches Some(r) ==> decoded(encoding_name(encoding), transcoded(text@, encoding)->0)
            == Some((r.0@, r.1)),
        maps_fully(text@, encoding) && !is_ascii_text(text@) ==> {
            &&& back matches Some(r)
            &&& r.0@ == text@
            &&& !r.1
            &&& transcoded(text@, encoding)->0.len() == text@.len()
        },
{
    proof {
        lemma_maps_fully(text@, encoding);
    }
    match transcode(text, encoding, table) {
        Some(bytes) => {
            if bytes.len() > MAX_BYTES_LEN {
                return None;
            }
            Some(decode_checked(encoding, bytes.as_slice()))
        },
        None => None,
    }
}

/// A text that is not ASCII alone and passes through the fast table without
/// loss is not rejected: it is written as one byte per code point, and the
/// bytes read one at a time are the text again, none of them malformed.
pub proof fn lemma_maps_fully(text: Seq<char>, encoding: LegacyEncoding)
    ensures
        maps_fully(text, encoding) && !is_ascii_text(text) ==> {
            &&& transcoded(text, encoding) matches Some(bytes)
            &&& bytes == fast_encoded(fast_index(encoding)->0, text)
            &&& bytes.len() == text.len()
            &&& bytewise_decoded(fast_index(encoding)->0, bytes) == text
            &&& !bytewise_errors(encoding_name(encoding), bytes)
        },
{
    if maps_fully(text, encoding) && !is_ascii_text(text) {
        let row = fast_index(encoding)->0;
        lemma_round_trip(row, text);
        let at = choose|i: int| 0 <= i < text.len() && (#[trigger] text[i] as u32) >= 0x80;
        lemma_mappable_keeps_signal(row, text, at);
        assert(!is_ascii_bytes(fast_encoded(row, text))) by {
            assert(fast_encoded(row, text)[at] >= 0x80);
        }
    }
}

/// The round trip of a whole sample: where the normalized form of a sample
/// passes through the fast table of its encoding without loss, the sample is
/// not rejected, its bytes are as many as the code points of the normalized
/// form, and read one at a time they are the normalized form again, none of
/// them malformed.
pub proof fn lemma_sample_round_trip(
    text: Seq<char>,
    encoding: LegacyEncoding,
    orthographic: bool,
    normal: Seq<char>,
)
    requires
        normalized(text, encoding, orthographic) == Some(normal),
        maps_fully(normal, encoding),
    ensures
        sample_bytes(text, encoding, orthographic) matches Some(bytes) && bytes.len()
            == normal.len() && bytewise_decoded(fast_index(encoding)->0, bytes) == normal
            && !bytewise_errors(encoding_name(encoding), bytes),
{
    lemma_maps_fully(normal, encoding);
}

/// A sample of ASCII alone is rejected, whatever its target encoding: by
/// normalization, by transcoding, and by the two together.
pub proof fn lemma_ascii_rejected(text: Seq<char>, encoding: LegacyEncoding, orthographic: bool)
    requires
        is_ascii_text(text),
    ensures
        normalized(text, encoding, orthographic) is None,
        transcoded(text, encoding) is None,
        sample_bytes(text, encoding, orthographic) is None,
{
}

/// A sample with Hiragana or Katakana is rejected for each of the three CJK
/// encodings that must be free of it, before anything is transcoded.
pub proof fn lemma_kana_rejected(text: Seq<char>, encoding: LegacyEncoding, orthographic: bool)
    requires
        is_kana_free_cjk(encoding),
        has_kana(text),
    ensures
        normalized(text, encoding, orthographic) is None,
        sample_bytes(text, encoding, orthographic) is None,
{
}

/// Through the fast table a text of ASCII alone would come out as the same
/// bytes, which carry no signal.
pub proof fn lemma_fast_ascii_is_ascii(row: int, text: Seq<char>)
    requires
        is_ascii_text(text),
    ensures
        is_ascii_bytes(fast_encoded(row, text)),
{
    lemma_fast_encoded_ascii(row, text);
    assert forall|i: int| 0 <= i < fast_encoded(row, text).len() implies #[trigger] fast_encoded(
        row,
        text,
    )[i] < 0x80 by {
        assert((text[i] as u32) < 0x80);
    }
}

} // verus!

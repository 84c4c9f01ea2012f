//! The conversions between bytes and text that only the encoders and
//! decoders of `encoding_rs` can compute. Nothing in this file is proved:
//! each function states what the library relies on.

use crate::encoding::fast_index;
use crate::encoding::is_encoding_name;
use crate::encoding::name_encoding;
use encoding_rs::DecoderResult;
use encoding_rs::Encoding;
use vstd::prelude::*;

verus! {

/// The longest text, in code points, that is handed to a general encoder.
pub const MAX_TEXT_LEN: usize = 0x0400_0000;

/// The longest byte buffer that is handed to a decoder.
pub const MAX_BYTES_LEN: usize = 0x1000_0000;

/// How a decoder ended its work on a buffer.
#[derive(Clone, Copy, Debug, PartialEq, Eq, Structural)]
pub enum DecodeStatus {
    /// All input was consumed.
    InputEmpty,
    /// The output buffer could not take the next code unit.
    OutputFull,
    /// The input held a byte sequence that stands for no code point.
    Malformed,
}

/// What a decoder reports when it is given one byte and room for two UTF-16
/// code units.
#[derive(Clone, Copy, Debug, PartialEq, Eq, Structural)]
pub struct ByteDecoding {
    pub status: DecodeStatus,
    /// Number of input bytes consumed.
    pub read: usize,
    /// Number of code units written.
    pub written: usize,
    /// The first code unit of the output buffer, zero if none was written.
    pub unit: u16,
}

/// The report of a fresh decoder of the encoding labelled `label` on the
/// single byte `byte`; `None` where `label` is no encoding label.
pub uninterp spec fn byte_decoding(label: Seq<char>, byte: u8) -> Option<ByteDecoding>;

/// A report that maps the byte to exactly one code unit.
pub open spec fn report_maps(report: ByteDecoding) -> bool {
    report.status == DecodeStatus::InputEmpty && report.read == 1 && report.written == 1
}

/// The code unit that a byte stands for in the encoding labelled `label`.
pub open spec fn byte_unit(label: Seq<char>, byte: u8) -> Option<u16> {
    match byte_decoding(label, byte) {
        Some(r) => if report_maps(r) {
            Some(r.unit)
        } else {
            None
        },
        None => None,
    }
}

/// One byte read on its own: an ASCII byte is itself, a high byte is the
/// code unit that it stands for, or U+FFFD where it stands for none.
pub open spec fn byte_reading(label: Seq<char>, byte: u8) -> char {
    if byte < 0x80 {
        byte as char
    } else {
        match byte_unit(label, byte) {
            Some(unit) => unit as char,
            None => '\u{FFFD}',
        }
    }
}

/// A buffer read one byte at a time.
pub open spec fn bytewise_text(label: Seq<char>, bytes: Seq<u8>) -> Seq<char> {
    Seq::new(bytes.len(), |i: int| byte_reading(label, bytes[i]))
}

/// Whether a buffer holds a high byte that stands for no code unit.
pub open spec fn bytewise_errors(label: Seq<char>, bytes: Seq<u8>) -> bool {
    exists|i: int|
        0 <= i < bytes.len() && #[trigger] bytes[i] >= 0x80 && byte_unit(label, bytes[i]) is None
}

/// Whether `name` is the standard name of one of the single-byte encodings
/// that the fast table covers.
pub open spec fn is_covered_name(name: Seq<char>) -> bool {
    match name_encoding(name) {
        Some(encoding) => fast_index(encoding) is Some,
        None => false,
    }
}

/// The bytes that the encoder of the encoding labelled `label` writes for
/// `text`, unmappable code points replaced by numeric character references;
/// `None` where `label` is no encoding label.
pub uninterp spec fn encoded_bytes(label: Seq<char>, text: Seq<char>) -> Option<Seq<u8>>;

/// What the decoder of the encoding labelled `label` reads from `bytes`:
/// the text, malformed sequences replaced by U+FFFD, and whether there was
/// such a sequence; `None` where `label` is no encoding label.
pub uninterp spec fn decoded(label: Seq<char>, bytes: Seq<u8>) -> Option<(Seq<char>, bool)>;

/// The text that the decoder of the encoding labelled `label` reads from
/// `bytes`.
pub open spec fn decoded_text(label: Seq<char>, bytes: Seq<u8>) -> Option<Seq<char>> {
    match decoded(label, bytes) {
        Some(reading) => Some(reading.0),
        None => None,
    }
}

/// The standard name of the encoding that `label` stands for; `None` where
/// `label` is no encoding label.
pub uninterp spec fn label_name(label: Seq<u8>) -> Option<Seq<char>>;

/// `Encoding::for_label`, then `Decoder::decode_to_utf16_without_replacement`
/// of a new decoder without BOM handling, on the one byte and an output
/// buffer of two zeroed code units. The result is a function of the label and
/// the byte. Every standard encoding name is a label, so a name always gets a
/// report.
#[verifier::external_body]
pub(crate) fn decode_byte(label: &str, byte: u8) -> (report: Option<ByteDecoding>)
    ensures
        report == byte_decoding(label@, byte),
        is_encoding_name(label@) ==> report is Some,
{
    let mut decoder = Encoding::for_label(label.as_bytes())?.new_decoder_without_bom_handling();
    let mut output = [0u16; 2];
    let (result, read, written) =
        decoder.decode_to_utf16_without_replacement(&[byte], &mut output, false);
    let status = match result {
        DecoderResult::InputEmpty => DecodeStatus::InputEmpty,
        DecoderResult::OutputFull => DecodeStatus::OutputFull,
        DecoderResult::Malformed(_, _) => DecodeStatus::Malformed,
    };
    Some(ByteDecoding { status, read, written, unit: output[0] })
}

/// `Encoding::for_label`, then `Encoding::encode` on the whole text, of which
/// the bytes are kept. The result is a function of the label and the text.
/// The bound keeps the encoder's buffer size within `usize`.
#[verifier::external_body]
pub(crate) fn encode_text(label: &str, text: &Vec<char>) -> (bytes: Option<Vec<u8>>)
    requires
        text@.len() <= MAX_TEXT_LEN,
    ensures
        bytes is Some <==> encoded_bytes(label@, text@) is Some,
        bytes matches Some(b) ==> encoded_bytes(label@, text@) == Some(b@),
        is_encoding_name(label@) ==> bytes is Some,
{
    let encoding = Encoding::for_label(label.as_bytes())?;
    let string: String = text.iter().collect();
    let (bytes, _, _) = encoding.encode(&string);
    Some(bytes.into_owned())
}

/// `Encoding::for_label`, then `Encoding::decode_without_bom_handling` on
/// the whole buffer: the text and the flag that tells of malformed
/// sequences. The result is a function of the label and the bytes. The bound
/// keeps the decoder's buffer size within `usize`. The decoder of a covered
/// single-byte encoding keeps no state from byte to byte: it reads an ASCII
/// byte as itself and a high byte through the same index that `decode_byte`
/// reports from, with U+FFFD and the flag for a byte without an entry.
#[verifier::external_body]
pub(crate) fn decode_bytes(label: &str, bytes: &[u8]) -> (reading: Option<(Vec<char>, bool)>)
    requires
        bytes@.len() <= MAX_BYTES_LEN,
    ensures
        reading is Some <==> decoded(label@, bytes@) is Some,
        reading matches Some(r) ==> decoded(label@, bytes@) == Some((r.0@, r.1)),
        is_encoding_name(label@) ==> reading is Some,
        reading matches Some(r) ==> (is_covered_name(label@) ==> r.0@ == bytewise_text(
            label@,
            bytes@,
        ) && r.1 == bytewise_errors(label@, bytes@)),
{
    let encoding = Encoding::for_label(label.as_bytes())?;
    let (text, had_errors) = encoding.decode_without_bom_handling(bytes);
    Some((text.chars().collect(), had_errors))
}

/// `Encoding::for_label`, then `Encoding::name`: the standard name of the
/// encoding that a label stands for, after the label's white space is
/// trimmed and its letters are lower-cased.
#[verifier::external_body]
pub(crate) fn name_for_label(label: &[u8]) -> (name: Option<&'static str>)
    ensures
        name is Some <==> label_name(label@) is Some,
        name matches Some(n) ==> label_name(label@) == Some(n@),
{
    match Encoding::for_label(label) {
        Some(encoding) => Some(encoding.name()),
        None => None,
    }
}

} // verus!

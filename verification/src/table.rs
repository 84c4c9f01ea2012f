//! The fast reverse-lookup table: for each covered single-byte encoding, the
//! byte that stands for each code point of the Basic Multilingual Plane.

use crate::codec::byte_decoding;
use crate::codec::byte_reading;
use crate::codec::byte_unit;
use crate::codec::bytewise_errors;
use crate::codec::bytewise_text;
use crate::codec::report_maps;
use crate::codec::decode_byte;
use crate::codec::ByteDecoding;
use crate::codec::DecodeStatus;
use crate::encoding::encoding_name;
use crate::encoding::fast_encoding;
use crate::encoding::fast_index;
use crate::encoding::LegacyEncoding;
use crate::encoding::FAST_ENCODING_COUNT;
use crate::text::chars_of;
use vstd::prelude::*;

verus! {

/// Number of entries in one row of the table: one per code point below U+10000.
pub const ROW_LEN: usize = 0x10000;

/// The marker written in place of a code point that the encoding lacks.
pub open spec fn placeholder() -> Seq<u8> {
    seq![0x26u8, 0x23u8, 0x3Bu8]
}

/// A report that a table can be built from: the byte is either unmapped or
/// mapped to exactly one code unit.
pub open spec fn report_usable(report: Option<ByteDecoding>) -> bool {
    match report {
        Some(r) => r.status == DecodeStatus::Malformed || report_maps(r),
        None => false,
    }
}

/// The entry for code point `cp` once the bytes from 128 up to, but not
/// including, `upto` have been decoded in rising order: the last of them that
/// stands for `cp`, or zero.
pub open spec fn entry_upto(label: Seq<char>, cp: int, upto: int) -> u8
    decreases upto,
{
    if upto <= 128 {
        0
    } else if byte_unit(label, (upto - 1) as u8) == Some(cp as u16) {
        (upto - 1) as u8
    } else {
        entry_upto(label, cp, upto - 1)
    }
}

/// The entry of the finished table for a row and a code point.
pub open spec fn table_entry(row: int, cp: int) -> u8 {
    entry_upto(encoding_name(fast_encoding(row)), cp, 256)
}

/// Whether every high byte of one row's encoding gives a usable report.
pub open spec fn row_buildable(row: int) -> bool {
    forall|b: int|
        128 <= b < 256 ==> report_usable(
            #[trigger] byte_decoding(encoding_name(fast_encoding(row)), b as u8),
        )
}

/// Whether the table can be built: every row is buildable.
pub open spec fn tables_buildable() -> bool {
    forall|row: int| 0 <= row < FAST_ENCODING_COUNT ==> #[trigger] row_buildable(row)
}

/// The finished table as a value: one row per covered encoding.
pub open spec fn built_tables() -> Seq<Seq<u8>> {
    Seq::new(
        FAST_ENCODING_COUNT as nat,
        |row: int| Seq::new(ROW_LEN as nat, |cp: int| table_entry(row, cp)),
    )
}

/// Whether a code point passes through a row without loss.
pub open spec fn mappable(row: int, c: char) -> bool {
    (c as u32) < 0x80 || ((c as u32) < 0x10000 && table_entry(row, (c as u32) as int) != 0)
}

/// The bytes written for one code point.
pub open spec fn char_bytes(row: int, c: char) -> Seq<u8> {
    if (c as u32) < 0x80 {
        seq![(c as u32) as u8]
    } else if (c as u32) < 0x10000 && table_entry(row, (c as u32) as int) != 0 {
        seq![table_entry(row, (c as u32) as int)]
    } else {
        placeholder()
    }
}

/// The bytes written for a text: those of its code points, in order.
pub open spec fn fast_encoded(row: int, text: Seq<char>) -> Seq<u8>
    decreases text.len(),
{
    if text.len() == 0 {
        Seq::empty()
    } else {
        fast_encoded(row, text.drop_last()) + char_bytes(row, text.last())
    }
}

/// The code point that one byte stands for in a row's encoding, read on
/// its own.
pub open spec fn byte_char(row: int, byte: u8) -> char {
    byte_reading(encoding_name(fast_encoding(row)), byte)
}

/// A byte string read one byte at a time in a row's encoding.
pub open spec fn bytewise_decoded(row: int, bytes: Seq<u8>) -> Seq<char> {
    bytewise_text(encoding_name(fast_encoding(row)), bytes)
}

/// A byte for which a decoder gave a report that no table can be built from.
#[derive(Clone, Copy, Debug, PartialEq, Eq, Structural)]
pub struct TableError {
    pub encoding: LegacyEncoding,
    pub byte: u8,
}

/// Reverse lookup from code point to byte for the covered encodings.
pub struct FastEncoder {
    tables: Vec<Vec<u8>>,
}

impl View for FastEncoder {
    type V = Seq<Seq<u8>>;

    closed spec fn view(&self) -> Seq<Seq<u8>> {
        Seq::new(self.tables@.len(), |row: int| self.tables@[row]@)
    }
}

/// One row of the table, built from the reports on the high bytes of
/// `encoding`.
fn build_row(encoding: LegacyEncoding) -> (built: Result<Vec<u8>, TableError>)
    requires
        fast_index(encoding) is Some,
    ensures
        built is Ok <==> row_buildable(fast_index(encoding)->0),
        built matches Ok(row) ==> row@ == Seq::new(
            ROW_LEN as nat,
            |cp: int| table_entry(fast_index(encoding)->0, cp),
        ),
        built matches Err(e) ==> e.encoding == encoding && e.byte >= 128 && !report_usable(
            byte_decoding(encoding_name(encoding), e.byte),
        ),
{
    let ghost label = encoding_name(encoding);
    let ghost index = fast_index(encoding)->0;
    let name = encoding.name();
    let mut row: Vec<u8> = vec![0u8; ROW_LEN];
    let mut i: usize = 128;
    while i < 256
        invariant
            128 <= i <= 256,
            name@ == label,
            label == encoding_name(encoding),
            fast_index(encoding) == Some(index),
            fast_encoding(index) == encoding,
            row@.len() == ROW_LEN,
            forall|cp: int| 0 <= cp < ROW_LEN ==> row@[cp] == entry_upto(label, cp, i as int),
            forall|b: int| 128 <= b < i ==> report_usable(#[trigger] byte_decoding(label, b as u8)),
        decreases 256 - i,
    {
        let byte = i as u8;
        let report = decode_byte(name, byte);
        match report {
            Some(r) => {
                match r.status {
                    DecodeStatus::Malformed => {},
                    DecodeStatus::InputEmpty => {
                        if r.read == 1 && r.written == 1 {
                            row.set(r.unit as usize, byte);
                        } else {
                            assert(!row_buildable(index)) by {
                                assert(!report_usable(byte_decoding(label, i as u8)));
                            }
                            return Err(TableError { encoding, byte });
                        }
                    },
                    DecodeStatus::OutputFull => {
                        assert(!row_buildable(index)) by {
                            assert(!report_usable(byte_decoding(label, i as u8)));
                        }
                        return Err(TableError { encoding, byte });
                    },
                }
            },
            None => {
                assert(!row_buildable(index)) by {
                    assert(!report_usable(byte_decoding(label, i as u8)));
                }
                return Err(TableError { encoding, byte });
            },
        }
        i = i + 1;
    }
    assert(row_buildable(index));
    assert(row@ =~= Seq::new(ROW_LEN as nat, |cp: int| table_entry(index, cp)));
    Ok(row)
}

impl FastEncoder {
    /// The table is complete: it is the one table that the decoders' reports
    /// determine.
    pub closed spec fn wf(&self) -> bool {
        self@ == built_tables()
    }

    /// The entry for a row and a code point.
    pub open spec fn entry(&self, row: int, cp: int) -> u8 {
        self@[row][cp]
    }

    /// Builds the table by decoding each high byte of each covered encoding
    /// on its own. Fails on the first byte whose report is neither "unmapped"
    /// nor "one byte read, one code unit written".
    pub fn new() -> (built: Result<FastEncoder, TableError>)
        ensures
            built is Ok <==> tables_buildable(),
            built matches Ok(table) ==> table.wf(),
            built matches Err(e) ==> fast_index(e.encoding) is Some && e.byte >= 128
                && !report_usable(byte_decoding(encoding_name(e.encoding), e.byte)),
    {
        let mut tables: Vec<Vec<u8>> = Vec::new();
        let mut j: usize = 0;
        while j < FAST_ENCODING_COUNT
            invariant
                j <= FAST_ENCODING_COUNT,
                tables@.len() == j,
                forall|row: int| 0 <= row < j ==> #[trigger] row_buildable(row),
                forall|row: int|
                    0 <= row < j ==> (#[trigger] tables@[row])@ == Seq::new(
                        ROW_LEN as nat,
                        |cp: int| table_entry(row, cp),
                    ),
            decreases FAST_ENCODING_COUNT - j,
        {
            let encoding = LegacyEncoding::of_fast_table_index(j);
            match build_row(encoding) {
                Ok(row) => {
                    tables.push(row);
                },
                Err(e) => {
                    assert(!row_buildable(j as int));
                    return Err(e);
                },
            }
            j = j + 1;
        }
        let table = FastEncoder { tables };
        assert(table@ =~= built_tables());
        Ok(table)
    }

    /// The byte stored for a code point below U+10000, zero where the
    /// encoding has none.
    pub fn lookup(&self, encoding: LegacyEncoding, cp: u16) -> (byte: u8)
        requires
            self.wf(),
            fast_index(encoding) is Some,
        ensures
            byte == table_entry(fast_index(encoding)->0, cp as int),
    {
        let row = match encoding.fast_table_index() {
            Some(row) => row,
            None => 0,
        };
        assert(self@.len() == self.tables@.len());
        assert(self@[row as int] == self.tables@[row as int]@);
        assert(self@[row as int] == built_tables()[row as int]);
        self.tables[row][cp as usize]
    }

    /// Writes `text` in a covered encoding: ASCII as it is, a code point with
    /// a table entry as that byte, any other as the placeholder.
    pub fn encode_chars(&self, encoding: LegacyEncoding, text: &Vec<char>) -> (bytes: Vec<u8>)
        requires
            self.wf(),
            fast_index(encoding) is Some,
        ensures
            bytes@ == fast_encoded(fast_index(encoding)->0, text@),
    {
        let ghost index = fast_index(encoding)->0;
        let mut bytes: Vec<u8> = Vec::new();
        let mut i: usize = 0;
        while i < text.len()
            invariant
                i <= text@.len(),
                self.wf(),
                fast_index(encoding) == Some(index),
                bytes@ == fast_encoded(index, text@.take(i as int)),
            decreases text@.len() - i,
        {
            let c = text[i];
            let code = c as u32;
            proof {
                assert(text@.take(i + 1).drop_last() =~= text@.take(i as int));
                assert(text@.take(i + 1).last() == c);
            }
            if code < 0x80 {
                bytes.push(code as u8);
            } else if code < 0x10000 {
                let b = self.lookup(encoding, code as u16);
                if b == 0 {
                    bytes.push(0x26);
                    bytes.push(0x23);
                    bytes.push(0x3B);
                } else {
                    bytes.push(b);
                }
            } else {
                bytes.push(0x26);
                bytes.push(0x23);
                bytes.push(0x3B);
            }
            assert(bytes@ =~= fast_encoded(index, text@.take(i as int)) + char_bytes(index, c));
            i = i + 1;
        }
        assert(text@.take(text@.len() as int) =~= text@);
        bytes
    }

    /// As `encode_chars`, on a string.
    pub fn encode(&self, encoding: LegacyEncoding, s: &str) -> (bytes: Vec<u8>)
        requires
            self.wf(),
            fast_index(encoding) is Some,
        ensures
            bytes@ == fast_encoded(fast_index(encoding)->0, s@),
    {
        let text = chars_of(s);
        self.encode_chars(encoding, &text)
    }
}

/// Rebuilding the table gives the same table: any two complete tables are
/// equal, row by row and entry by entry.
pub proof fn lemma_tables_unique(a: &FastEncoder, b: &FastEncoder)
    requires
        a.wf(),
        b.wf(),
    ensures
        a@ == b@,
        a@ == built_tables(),
        forall|row: int, cp: int|
            0 <= row < FAST_ENCODING_COUNT && 0 <= cp < ROW_LEN ==> a.entry(row, cp) == b.entry(
                row,
                cp,
            ) && a.entry(row, cp) == table_entry(row, cp),
{
}

/// A non-zero entry is a high byte that the decoder maps back to the entry's
/// code point.
pub proof fn lemma_entry_decodes(label: Seq<char>, cp: int, upto: int)
    requires
        0 <= cp < ROW_LEN,
        upto <= 256,
        entry_upto(label, cp, upto) != 0,
    ensures
        128 <= entry_upto(label, cp, upto) < upto,
        byte_unit(label, entry_upto(label, cp, upto)) == Some(cp as u16),
    decreases upto,
{
    if upto > 128 && byte_unit(label, (upto - 1) as u8) != Some(cp as u16) {
        lemma_entry_decodes(label, cp, upto - 1);
    }
}

/// A text of ASCII alone is written byte for byte, so its bytes are ASCII
/// alone too.
pub proof fn lemma_fast_encoded_ascii(row: int, text: Seq<char>)
    requires
        forall|i: int| 0 <= i < text.len() ==> (text[i] as u32) < 0x80,
    ensures
        fast_encoded(row, text).len() == text.len(),
        forall|i: int|
            0 <= i < text.len() ==> #[trigger] fast_encoded(row, text)[i] == (text[i] as u32) as u8,
    decreases text.len(),
{
    if text.len() > 0 {
        lemma_fast_encoded_ascii(row, text.drop_last());
    }
}

/// A code point that passes through a row is written as one byte, a high
/// byte where the code point is not ASCII, and that byte read back is the
/// code point.
pub proof fn lemma_char_round_trip(row: int, c: char)
    requires
        0 <= row < FAST_ENCODING_COUNT,
        mappable(row, c),
    ensures
        char_bytes(row, c).len() == 1,
        byte_char(row, char_bytes(row, c)[0]) == c,
        (c as u32) < 0x80 <==> char_bytes(row, c)[0] < 0x80,
        char_bytes(row, c)[0] >= 0x80 ==> byte_unit(
            encoding_name(fast_encoding(row)),
            char_bytes(row, c)[0],
        ) is Some,
{
    let code = c as u32;
    if code >= 0x80 {
        lemma_entry_decodes(encoding_name(fast_encoding(row)), code as int, 256);
    }
}

/// Writing a text through a row and reading the bytes back one at a time
/// gives the text again, without a byte that stands for nothing, provided
/// that every code point of the text is ASCII or has an entry in the row.
/// Each code point is written as one byte, a high byte where it is not
/// ASCII.
pub proof fn lemma_round_trip(row: int, text: Seq<char>)
    requires
        0 <= row < FAST_ENCODING_COUNT,
        forall|i: int| 0 <= i < text.len() ==> mappable(row, #[trigger] text[i]),
    ensures
        fast_encoded(row, text).len() == text.len(),
        bytewise_decoded(row, fast_encoded(row, text)) == text,
        forall|i: int|
            0 <= i < text.len() ==> #[trigger] fast_encoded(row, text)[i] == char_bytes(
                row,
                text[i],
            )[0],
        !bytewise_errors(encoding_name(fast_encoding(row)), fast_encoded(row, text)),
    decreases text.len(),
{
    let label = encoding_name(fast_encoding(row));
    if text.len() > 0 {
        let front = text.drop_last();
        let c = text.last();
        assert forall|i: int| 0 <= i < front.len() implies mappable(row, #[trigger] front[i]) by {
            assert(front[i] == text[i]);
        }
        lemma_round_trip(row, front);
        assert(mappable(row, text[text.len() - 1]));
        lemma_char_round_trip(row, c);
        let b = char_bytes(row, c)[0];
        let bytes = fast_encoded(row, text);
        assert(bytes =~= fast_encoded(row, front).push(b));
        assert forall|i: int| 0 <= i < text.len() implies #[trigger] bytes[i] == char_bytes(
            row,
            text[i],
        )[0] by {
            if i < front.len() {
                assert(bytes[i] == fast_encoded(row, front)[i]);
                assert(front[i] == text[i]);
            }
        }
        assert(bytewise_decoded(row, bytes) =~= text) by {
            assert forall|i: int| 0 <= i < text.len() implies bytewise_decoded(row, bytes)[i]
                == text[i] by {
                if i < front.len() {
                    assert(bytes[i] == fast_encoded(row, front)[i]);
                    assert(bytewise_decoded(row, fast_encoded(row, front))[i] == front[i]);
                }
            }
        }
        assert(!bytewise_errors(label, bytes)) by {
            if bytewise_errors(label, bytes) {
                let i = choose|i: int|
                    0 <= i < bytes.len() && #[trigger] bytes[i] >= 0x80 && byte_unit(
                        label,
                        bytes[i],
                    ) is None;
                if i < front.len() {
                    assert(fast_encoded(row, front)[i] == bytes[i]);
                }
            }
        }
    } else {
        assert(bytewise_decoded(row, fast_encoded(row, text)) =~= text);
    }
}

/// The bytes of a text with a code point above ASCII, all of whose code
/// points pass through a row, are not ASCII alone.
pub proof fn lemma_mappable_keeps_signal(row: int, text: Seq<char>, at: int)
    requires
        0 <= row < FAST_ENCODING_COUNT,
        forall|i: int| 0 <= i < text.len() ==> mappable(row, #[trigger] text[i]),
        0 <= at < text.len(),
        (text[at] as u32) >= 0x80,
    ensures
        fast_encoded(row, text).len() == text.len(),
        fast_encoded(row, text)[at] >= 0x80,
{
    lemma_round_trip(row, text);
    assert(mappable(row, text[at]));
    lemma_char_round_trip(row, text[at]);
}

} // verus!

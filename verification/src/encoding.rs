//! The universe of legacy encodings, identified by their standard names.

use crate::text::str_eq;
use vstd::prelude::*;

verus! {

/// One of the character encodings that a sample can be written in or that a
/// detector can guess. Two values are the same encoding exactly when they are
/// the same variant.
#[allow(non_camel_case_types)]
#[derive(Clone, Copy, Debug, PartialEq, Eq, Structural, Hash)]
pub enum LegacyEncoding {
    Big5,
    EucJp,
    EucKr,
    Gbk,
    Ibm866,
    Iso2022Jp,
    Iso8859_10,
    Iso8859_13,
    Iso8859_14,
    Iso8859_15,
    Iso8859_16,
    Iso8859_2,
    Iso8859_3,
    Iso8859_4,
    Iso8859_5,
    Iso8859_6,
    Iso8859_7,
    Iso8859_8,
    Iso8859_8I,
    Koi8R,
    Koi8U,
    ShiftJis,
    Utf16Be,
    Utf16Le,
    Utf8,
    Gb18030,
    Macintosh,
    Replacement,
    Windows1250,
    Windows1251,
    Windows1252,
    Windows1253,
    Windows1254,
    Windows1255,
    Windows1256,
    Windows1257,
    Windows1258,
    Windows874,
    XMacCyrillic,
    XUserDefined,
}

/// Number of encodings that have a fast reverse-lookup table.
pub const FAST_ENCODING_COUNT: usize = 19;

/// Number of encodings in the universe.
pub const ENCODING_COUNT: usize = 40;

/// The standard name of an encoding.
pub open spec fn encoding_name(e: LegacyEncoding) -> Seq<char> {
    match e {
        LegacyEncoding::Big5 => "Big5"@,
        LegacyEncoding::EucJp => "EUC-JP"@,
        LegacyEncoding::EucKr => "EUC-KR"@,
        LegacyEncoding::Gbk => "GBK"@,
        LegacyEncoding::Ibm866 => "IBM866"@,
        LegacyEncoding::Iso2022Jp => "ISO-2022-JP"@,
        LegacyEncoding::Iso8859_10 => "ISO-8859-10"@,
        LegacyEncoding::Iso8859_13 => "ISO-8859-13"@,
        LegacyEncoding::Iso8859_14 => "ISO-8859-14"@,
        LegacyEncoding::Iso8859_15 => "ISO-8859-15"@,
        LegacyEncoding::Iso8859_16 => "ISO-8859-16"@,
        LegacyEncoding::Iso8859_2 => "ISO-8859-2"@,
        LegacyEncoding::Iso8859_3 => "ISO-8859-3"@,
        LegacyEncoding::Iso8859_4 => "ISO-8859-4"@,
        LegacyEncoding::Iso8859_5 => "ISO-8859-5"@,
        LegacyEncoding::Iso8859_6 => "ISO-8859-6"@,
        LegacyEncoding::Iso8859_7 => "ISO-8859-7"@,
        LegacyEncoding::Iso8859_8 => "ISO-8859-8"@,
        LegacyEncoding::Iso8859_8I => "ISO-8859-8-I"@,
        LegacyEncoding::Koi8R => "KOI8-R"@,
        LegacyEncoding::Koi8U => "KOI8-U"@,
        LegacyEncoding::ShiftJis => "Shift_JIS"@,
        LegacyEncoding::Utf16Be => "UTF-16BE"@,
        LegacyEncoding::Utf16Le => "UTF-16LE"@,
        LegacyEncoding::Utf8 => "UTF-8"@,
        LegacyEncoding::Gb18030 => "gb18030"@,
        LegacyEncoding::Macintosh => "macintosh"@,
        LegacyEncoding::Replacement => "replacement"@,
        LegacyEncoding::Windows1250 => "windows-1250"@,
        LegacyEncoding::Windows1251 => "windows-1251"@,
        LegacyEncoding::Windows1252 => "windows-1252"@,
        LegacyEncoding::Windows1253 => "windows-1253"@,
        LegacyEncoding::Windows1254 => "windows-1254"@,
        LegacyEncoding::Windows1255 => "windows-1255"@,
        LegacyEncoding::Windows1256 => "windows-1256"@,
        LegacyEncoding::Windows1257 => "windows-1257"@,
        LegacyEncoding::Windows1258 => "windows-1258"@,
        LegacyEncoding::Windows874 => "windows-874"@,
        LegacyEncoding::XMacCyrillic => "x-mac-cyrillic"@,
        LegacyEncoding::XUserDefined => "x-user-defined"@,
    }
}

/// Whether `name` is the standard name of some encoding of the universe.
pub open spec fn is_encoding_name(name: Seq<char>) -> bool {
    exists|e: LegacyEncoding| #[trigger] encoding_name(e) == name
}

/// The encoding with the given position in the universe, in variant order.
pub open spec fn encoding_at(i: int) -> LegacyEncoding {
    if i == 0 {
        LegacyEncoding::Big5
    } else if i == 1 {
        LegacyEncoding::EucJp
    } else if i == 2 {
        LegacyEncoding::EucKr
    } else if i == 3 {
        LegacyEncoding::Gbk
    } else if i == 4 {
        LegacyEncoding::Ibm866
    } else if i == 5 {
        LegacyEncoding::Iso2022Jp
    } else if i == 6 {
        LegacyEncoding::Iso8859_10
    } else if i == 7 {
        LegacyEncoding::Iso8859_13
    } else if i == 8 {
        LegacyEncoding::Iso8859_14
    } else if i == 9 {
        LegacyEncoding::Iso8859_15
    } else if i == 10 {
        LegacyEncoding::Iso8859_16
    } else if i == 11 {
        LegacyEncoding::Iso8859_2
    } else if i == 12 {
        LegacyEncoding::Iso8859_3
    } else if i == 13 {
        LegacyEncoding::Iso8859_4
    } else if i == 14 {
        LegacyEncoding::Iso8859_5
    } else if i == 15 {
        LegacyEncoding::Iso8859_6
    } else if i == 16 {
        LegacyEncoding::Iso8859_7
    } else if i == 17 {
        LegacyEncoding::Iso8859_8
    } else if i == 18 {
        LegacyEncoding::Iso8859_8I
    } else if i == 19 {
        LegacyEncoding::Koi8R
    } else if i == 20 {
        LegacyEncoding::Koi8U
    } else if i == 21 {
        LegacyEncoding::ShiftJis
    } else if i == 22 {
        LegacyEncoding::Utf16Be
    } else if i == 23 {
        LegacyEncoding::Utf16Le
    } else if i == 24 {
        LegacyEncoding::Utf8
    } else if i == 25 {
        LegacyEncoding::Gb18030
    } else if i == 26 {
        LegacyEncoding::Macintosh
    } else if i == 27 {
        LegacyEncoding::Replacement
    } else if i == 28 {
        LegacyEncoding::Windows1250
    } else if i == 29 {
        LegacyEncoding::Windows1251
    } else if i == 30 {
        LegacyEncoding::Windows1252
    } else if i == 31 {
        LegacyEncoding::Windows1253
    } else if i == 32 {
        LegacyEncoding::Windows1254
    } else if i == 33 {
        LegacyEncoding::Windows1255
    } else if i == 34 {
        LegacyEncoding::Windows1256
    } else if i == 35 {
        LegacyEncoding::Windows1257
    } else if i == 36 {
        LegacyEncoding::Windows1258
    } else if i == 37 {
        LegacyEncoding::Windows874
    } else if i == 38 {
        LegacyEncoding::XMacCyrillic
    } else {
        LegacyEncoding::XUserDefined
    }
}

/// Whether an encoding maps one byte to one code point of the Basic
/// Multilingual Plane.
pub open spec fn single_byte(e: LegacyEncoding) -> bool {
    match e {
        LegacyEncoding::Big5
        | LegacyEncoding::EucJp
        | LegacyEncoding::EucKr
        | LegacyEncoding::Gbk
        | LegacyEncoding::Iso2022Jp
        | LegacyEncoding::ShiftJis
        | LegacyEncoding::Utf16Be
        | LegacyEncoding::Utf16Le
        | LegacyEncoding::Utf8
        | LegacyEncoding::Gb18030
        | LegacyEncoding::Replacement => false,
        _ => true,
    }
}

/// The position of an encoding among those with a fast table, if it has one.
pub open spec fn fast_index(e: LegacyEncoding) -> Option<int> {
    match e {
        LegacyEncoding::Windows1250 => Some(0int),
        LegacyEncoding::Windows1251 => Some(1int),
        LegacyEncoding::Windows1252 => Some(2int),
        LegacyEncoding::Windows1253 => Some(3int),
        LegacyEncoding::Windows1254 => Some(4int),
        LegacyEncoding::Windows1255 => Some(5int),
        LegacyEncoding::Windows1256 => Some(6int),
        LegacyEncoding::Windows1257 => Some(7int),
        LegacyEncoding::Windows1258 => Some(8int),
        LegacyEncoding::Windows874 => Some(9int),
        LegacyEncoding::Ibm866 => Some(10int),
        LegacyEncoding::Koi8U => Some(11int),
        LegacyEncoding::Iso8859_2 => Some(12int),
        LegacyEncoding::Iso8859_4 => Some(13int),
        LegacyEncoding::Iso8859_5 => Some(14int),
        LegacyEncoding::Iso8859_6 => Some(15int),
        LegacyEncoding::Iso8859_7 => Some(16int),
        LegacyEncoding::Iso8859_8 => Some(17int),
        LegacyEncoding::Iso8859_13 => Some(18int),
        _ => None,
    }
}

/// The encoding at a position of the fast table.
pub open spec fn fast_encoding(i: int) -> LegacyEncoding {
    if i == 0 {
        LegacyEncoding::Windows1250
    } else if i == 1 {
        LegacyEncoding::Windows1251
    } else if i == 2 {
        LegacyEncoding::Windows1252
    } else if i == 3 {
        LegacyEncoding::Windows1253
    } else if i == 4 {
        LegacyEncoding::Windows1254
    } else if i == 5 {
        LegacyEncoding::Windows1255
    } else if i == 6 {
        LegacyEncoding::Windows1256
    } else if i == 7 {
        LegacyEncoding::Windows1257
    } else if i == 8 {
        LegacyEncoding::Windows1258
    } else if i == 9 {
        LegacyEncoding::Windows874
    } else if i == 10 {
        LegacyEncoding::Ibm866
    } else if i == 11 {
        LegacyEncoding::Koi8U
    } else if i == 12 {
        LegacyEncoding::Iso8859_2
    } else if i == 13 {
        LegacyEncoding::Iso8859_4
    } else if i == 14 {
        LegacyEncoding::Iso8859_5
    } else if i == 15 {
        LegacyEncoding::Iso8859_6
    } else if i == 16 {
        LegacyEncoding::Iso8859_7
    } else if i == 17 {
        LegacyEncoding::Iso8859_8
    } else {
        LegacyEncoding::Iso8859_13
    }
}

/// The two Central-European encodings.
pub open spec fn is_central_european(e: LegacyEncoding) -> bool {
    e == LegacyEncoding::Windows1250 || e == LegacyEncoding::Iso8859_2
}

/// The four Cyrillic encodings.
pub open spec fn is_cyrillic(e: LegacyEncoding) -> bool {
    e == LegacyEncoding::Windows1251 || e == LegacyEncoding::Iso8859_5 || e
        == LegacyEncoding::Ibm866 || e == LegacyEncoding::Koi8U
}

/// The three CJK encodings whose samples must be free of kana.
pub open spec fn is_kana_free_cjk(e: LegacyEncoding) -> bool {
    e == LegacyEncoding::Big5 || e == LegacyEncoding::EucKr || e == LegacyEncoding::Gbk
}

impl LegacyEncoding {
    /// The standard name of this encoding.
    pub fn name(self) -> (name: &'static str)
        ensures
            name@ == encoding_name(self),
            is_encoding_name(name@),
    {
        let name = match self {
            LegacyEncoding::Big5 => "Big5",
            LegacyEncoding::EucJp => "EUC-JP",
            LegacyEncoding::EucKr => "EUC-KR",
            LegacyEncoding::Gbk => "GBK",
            LegacyEncoding::Ibm866 => "IBM866",
            LegacyEncoding::Iso2022Jp => "ISO-2022-JP",
            LegacyEncoding::Iso8859_10 => "ISO-8859-10",
            LegacyEncoding::Iso8859_13 => "ISO-8859-13",
            LegacyEncoding::Iso8859_14 => "ISO-8859-14",
            LegacyEncoding::Iso8859_15 => "ISO-8859-15",
            LegacyEncoding::Iso8859_16 => "ISO-8859-16",
            LegacyEncoding::Iso8859_2 => "ISO-8859-2",
            LegacyEncoding::Iso8859_3 => "ISO-8859-3",
            LegacyEncoding::Iso8859_4 => "ISO-8859-4",
            LegacyEncoding::Iso8859_5 => "ISO-8859-5",
            LegacyEncoding::Iso8859_6 => "ISO-8859-6",
            LegacyEncoding::Iso8859_7 => "ISO-8859-7",
            LegacyEncoding::Iso8859_8 => "ISO-8859-8",
            LegacyEncoding::Iso8859_8I => "ISO-8859-8-I",
            LegacyEncoding::Koi8R => "KOI8-R",
            LegacyEncoding::Koi8U => "KOI8-U",
            LegacyEncoding::ShiftJis => "Shift_JIS",
            LegacyEncoding::Utf16Be => "UTF-16BE",
            LegacyEncoding::Utf16Le => "UTF-16LE",
            LegacyEncoding::Utf8 => "UTF-8",
            LegacyEncoding::Gb18030 => "gb18030",
            LegacyEncoding::Macintosh => "macintosh",
            LegacyEncoding::Replacement => "replacement",
            LegacyEncoding::Windows1250 => "windows-1250",
            LegacyEncoding::Windows1251 => "windows-1251",
            LegacyEncoding::Windows1252 => "windows-1252",
            LegacyEncoding::Windows1253 => "windows-1253",
            LegacyEncoding::Windows1254 => "windows-1254",
            LegacyEncoding::Windows1255 => "windows-1255",
            LegacyEncoding::Windows1256 => "windows-1256",
            LegacyEncoding::Windows1257 => "windows-1257",
            LegacyEncoding::Windows1258 => "windows-1258",
            LegacyEncoding::Windows874 => "windows-874",
            LegacyEncoding::XMacCyrillic => "x-mac-cyrillic",
            LegacyEncoding::XUserDefined => "x-user-defined",
        };
        assert(encoding_name(self) == name@);
        name
    }

    /// Whether this encoding maps one byte to one code point.
    pub fn is_single_byte(self) -> (b: bool)
        ensures
            b == single_byte(self),
    {
        match self {
            LegacyEncoding::Big5
            | LegacyEncoding::EucJp
            | LegacyEncoding::EucKr
            | LegacyEncoding::Gbk
            | LegacyEncoding::Iso2022Jp
            | LegacyEncoding::ShiftJis
            | LegacyEncoding::Utf16Be
            | LegacyEncoding::Utf16Le
            | LegacyEncoding::Utf8
            | LegacyEncoding::Gb18030
            | LegacyEncoding::Replacement => false,
            _ => true,
        }
    }

    /// The row of the fast table that belongs to this encoding, if any.
    pub fn fast_table_index(self) -> (i: Option<usize>)
        ensures
            i == match fast_index(self) {
                Some(k) => Some(k as usize),
                None => None,
            },
            i matches Some(k) ==> k < FAST_ENCODING_COUNT && fast_encoding(k as int) == self,
    {
        match self {
            LegacyEncoding::Windows1250 => Some(0),
            LegacyEncoding::Windows1251 => Some(1),
            LegacyEncoding::Windows1252 => Some(2),
            LegacyEncoding::Windows1253 => Some(3),
            LegacyEncoding::Windows1254 => Some(4),
            LegacyEncoding::Windows1255 => Some(5),
            LegacyEncoding::Windows1256 => Some(6),
            LegacyEncoding::Windows1257 => Some(7),
            LegacyEncoding::Windows1258 => Some(8),
            LegacyEncoding::Windows874 => Some(9),
            LegacyEncoding::Ibm866 => Some(10),
            LegacyEncoding::Koi8U => Some(11),
            LegacyEncoding::Iso8859_2 => Some(12),
            LegacyEncoding::Iso8859_4 => Some(13),
            LegacyEncoding::Iso8859_5 => Some(14),
            LegacyEncoding::Iso8859_6 => Some(15),
            LegacyEncoding::Iso8859_7 => Some(16),
            LegacyEncoding::Iso8859_8 => Some(17),
            LegacyEncoding::Iso8859_13 => Some(18),
            _ => None,
        }
    }

    /// The encoding of a row of the fast table.
    pub fn of_fast_table_index(i: usize) -> (e: LegacyEncoding)
        requires
            i < FAST_ENCODING_COUNT,
        ensures
            e == fast_encoding(i as int),
            fast_index(e) == Some(i as int),
    {
        if i == 0 {
            LegacyEncoding::Windows1250
        } else if i == 1 {
            LegacyEncoding::Windows1251
        } else if i == 2 {
            LegacyEncoding::Windows1252
        } else if i == 3 {
            LegacyEncoding::Windows1253
        } else if i == 4 {
            LegacyEncoding::Windows1254
        } else if i == 5 {
            LegacyEncoding::Windows1255
        } else if i == 6 {
            LegacyEncoding::Windows1256
        } else if i == 7 {
            LegacyEncoding::Windows1257
        } else if i == 8 {
            LegacyEncoding::Windows1258
        } else if i == 9 {
            LegacyEncoding::Windows874
        } else if i == 10 {
            LegacyEncoding::Ibm866
        } else if i == 11 {
            LegacyEncoding::Koi8U
        } else if i == 12 {
            LegacyEncoding::Iso8859_2
        } else if i == 13 {
            LegacyEncoding::Iso8859_4
        } else if i == 14 {
            LegacyEncoding::Iso8859_5
        } else if i == 15 {
            LegacyEncoding::Iso8859_6
        } else if i == 16 {
            LegacyEncoding::Iso8859_7
        } else if i == 17 {
            LegacyEncoding::Iso8859_8
        } else {
            LegacyEncoding::Iso8859_13
        }
    }

    /// The encoding at a position of the universe.
    pub fn at(i: usize) -> (e: LegacyEncoding)
        requires
            i < ENCODING_COUNT,
        ensures
            e == encoding_at(i as int),
    {
        if i == 0 {
            LegacyEncoding::Big5
        } else if i == 1 {
            LegacyEncoding::EucJp
        } else if i == 2 {
            LegacyEncoding::EucKr
        } else if i == 3 {
            LegacyEncoding::Gbk
        } else if i == 4 {
            LegacyEncoding::Ibm866
        } else if i == 5 {
            LegacyEncoding::Iso2022Jp
        } else if i == 6 {
            LegacyEncoding::Iso8859_10
        } else if i == 7 {
            LegacyEncoding::Iso8859_13
        } else if i == 8 {
            LegacyEncoding::Iso8859_14
        } else if i == 9 {
            LegacyEncoding::Iso8859_15
        } else if i == 10 {
            LegacyEncoding::Iso8859_16
        } else if i == 11 {
            LegacyEncoding::Iso8859_2
        } else if i == 12 {
            LegacyEncoding::Iso8859_3
        } else if i == 13 {
            LegacyEncoding::Iso8859_4
        } else if i == 14 {
            LegacyEncoding::Iso8859_5
        } else if i == 15 {
            LegacyEncoding::Iso8859_6
        } else if i == 16 {
            LegacyEncoding::Iso8859_7
        } else if i == 17 {
            LegacyEncoding::Iso8859_8
        } else if i == 18 {
            LegacyEncoding::Iso8859_8I
        } else if i == 19 {
            LegacyEncoding::Koi8R
        } else if i == 20 {
            LegacyEncoding::Koi8U
        } else if i == 21 {
            LegacyEncoding::ShiftJis
        } else if i == 22 {
            LegacyEncoding::Utf16Be
        } else if i == 23 {
            LegacyEncoding::Utf16Le
        } else if i == 24 {
            LegacyEncoding::Utf8
        } else if i == 25 {
            LegacyEncoding::Gb18030
        } else if i == 26 {
            LegacyEncoding::Macintosh
        } else if i == 27 {
            LegacyEncoding::Replacement
        } else if i == 28 {
            LegacyEncoding::Windows1250
        } else if i == 29 {
            LegacyEncoding::Windows1251
        } else if i == 30 {
            LegacyEncoding::Windows1252
        } else if i == 31 {
            LegacyEncoding::Windows1253
        } else if i == 32 {
            LegacyEncoding::Windows1254
        } else if i == 33 {
            LegacyEncoding::Windows1255
        } else if i == 34 {
            LegacyEncoding::Windows1256
        } else if i == 35 {
            LegacyEncoding::Windows1257
        } else if i == 36 {
            LegacyEncoding::Windows1258
        } else if i == 37 {
            LegacyEncoding::Windows874
        } else if i == 38 {
            LegacyEncoding::XMacCyrillic
        } else {
        LegacyEncoding::XUserDefined
        }
    }
}

/// The encoding that a standard name belongs to, if it is one.
pub open spec fn name_encoding(name: Seq<char>) -> Option<LegacyEncoding> {
    if is_encoding_name(name) {
        Some(choose|e: LegacyEncoding| #[trigger] encoding_name(e) == name)
    } else {
        None
    }
}

impl LegacyEncoding {
    /// The encoding with the given standard name, compared letter for letter.
    pub fn from_name(name: &str) -> (found: Option<LegacyEncoding>)
        ensures
            found == name_encoding(name@),
            found matches Some(e) ==> encoding_name(e) == name@,
            found is None <==> !is_encoding_name(name@),
    {
        let mut i: usize = 0;
        while i < ENCODING_COUNT
            invariant
                i <= ENCODING_COUNT,
                forall|j: int| 0 <= j < i ==> encoding_name(#[trigger] encoding_at(j)) != name@,
            decreases ENCODING_COUNT - i,
        {
            let candidate = LegacyEncoding::at(i);
            if str_eq(candidate.name(), name) {
                proof {
                    let chosen = choose|e: LegacyEncoding| #[trigger] encoding_name(e) == name@;
                    lemma_names_distinct(chosen, candidate);
                }
                return Some(candidate);
            }
            i = i + 1;
        }
        proof {
            assert forall|e: LegacyEncoding| encoding_name(e) != name@ by {
                lemma_universe_complete(e);
            }
        }
        None
    }
}

/// Length and last two letters of a name: enough to tell the names apart.
spec fn name_ending(name: Seq<char>) -> (nat, char, char) {
    (name.len(), name[name.len() - 2], name[name.len() - 1])
}

spec fn encoding_name_ending(e: LegacyEncoding) -> (nat, char, char) {
    match e {
        LegacyEncoding::Big5 => (4nat, 'g', '5'),
        LegacyEncoding::EucJp => (6nat, 'J', 'P'),
        LegacyEncoding::EucKr => (6nat, 'K', 'R'),
        LegacyEncoding::Gbk => (3nat, 'B', 'K'),
        LegacyEncoding::Ibm866 => (6nat, '6', '6'),
        LegacyEncoding::Iso2022Jp => (11nat, 'J', 'P'),
        LegacyEncoding::Iso8859_10 => (11nat, '1', '0'),
        LegacyEncoding::Iso8859_13 => (11nat, '1', '3'),
        LegacyEncoding::Iso8859_14 => (11nat, '1', '4'),
        LegacyEncoding::Iso8859_15 => (11nat, '1', '5'),
        LegacyEncoding::Iso8859_16 => (11nat, '1', '6'),
        LegacyEncoding::Iso8859_2 => (10nat, '-', '2'),
        LegacyEncoding::Iso8859_3 => (10nat, '-', '3'),
        LegacyEncoding::Iso8859_4 => (10nat, '-', '4'),
        LegacyEncoding::Iso8859_5 => (10nat, '-', '5'),
        LegacyEncoding::Iso8859_6 => (10nat, '-', '6'),
        LegacyEncoding::Iso8859_7 => (10nat, '-', '7'),
        LegacyEncoding::Iso8859_8 => (10nat, '-', '8'),
        LegacyEncoding::Iso8859_8I => (12nat, '-', 'I'),
        LegacyEncoding::Koi8R => (6nat, '-', 'R'),
        LegacyEncoding::Koi8U => (6nat, '-', 'U'),
        LegacyEncoding::ShiftJis => (9nat, 'I', 'S'),
        LegacyEncoding::Utf16Be => (8nat, 'B', 'E'),
        LegacyEncoding::Utf16Le => (8nat, 'L', 'E'),
        LegacyEncoding::Utf8 => (5nat, '-', '8'),
        LegacyEncoding::Gb18030 => (7nat, '3', '0'),
        LegacyEncoding::Macintosh => (9nat, 's', 'h'),
        LegacyEncoding::Replacement => (11nat, 'n', 't'),
        LegacyEncoding::Windows1250 => (12nat, '5', '0'),
        LegacyEncoding::Windows1251 => (12nat, '5', '1'),
        LegacyEncoding::Windows1252 => (12nat, '5', '2'),
        LegacyEncoding::Windows1253 => (12nat, '5', '3'),
        LegacyEncoding::Windows1254 => (12nat, '5', '4'),
        LegacyEncoding::Windows1255 => (12nat, '5', '5'),
        LegacyEncoding::Windows1256 => (12nat, '5', '6'),
        LegacyEncoding::Windows1257 => (12nat, '5', '7'),
        LegacyEncoding::Windows1258 => (12nat, '5', '8'),
        LegacyEncoding::Windows874 => (11nat, '7', '4'),
        LegacyEncoding::XMacCyrillic => (14nat, 'i', 'c'),
        LegacyEncoding::XUserDefined => (14nat, 'e', 'd'),
    }
}

proof fn lemma_name_ending(e: LegacyEncoding)
    ensures
        name_ending(encoding_name(e)) == encoding_name_ending(e),
{
    match e {
        LegacyEncoding::Big5 => {
            reveal_strlit("Big5");
        },
        LegacyEncoding::EucJp => {
            reveal_strlit("EUC-JP");
        },
        LegacyEncoding::EucKr => {
            reveal_strlit("EUC-KR");
        },
        LegacyEncoding::Gbk => {
            reveal_strlit("GBK");
        },
        LegacyEncoding::Ibm866 => {
            reveal_strlit("IBM866");
        },
        LegacyEncoding::Iso2022Jp => {
            reveal_strlit("ISO-2022-JP");
        },
        LegacyEncoding::Iso8859_10 => {
            reveal_strlit("ISO-8859-10");
        },
        LegacyEncoding::Iso8859_13 => {
            reveal_strlit("ISO-8859-13");
        },
        LegacyEncoding::Iso8859_14 => {
            reveal_strlit("ISO-8859-14");
        },
        LegacyEncoding::Iso8859_15 => {
            reveal_strlit("ISO-8859-15");
        },
        LegacyEncoding::Iso8859_16 => {
            reveal_strlit("ISO-8859-16");
        },
        LegacyEncoding::Iso8859_2 => {
            reveal_strlit("ISO-8859-2");
        },
        LegacyEncoding::Iso8859_3 => {
            reveal_strlit("ISO-8859-3");
        },
        LegacyEncoding::Iso8859_4 => {
            reveal_strlit("ISO-8859-4");
        },
        LegacyEncoding::Iso8859_5 => {
            reveal_strlit("ISO-8859-5");
        },
        LegacyEncoding::Iso8859_6 => {
            reveal_strlit("ISO-8859-6");
        },
        LegacyEncoding::Iso8859_7 => {
            reveal_strlit("ISO-8859-7");
        },
        LegacyEncoding::Iso8859_8 => {
            reveal_strlit("ISO-8859-8");
        },
        LegacyEncoding::Iso8859_8I => {
            reveal_strlit("ISO-8859-8-I");
        },
        LegacyEncoding::Koi8R => {
            reveal_strlit("KOI8-R");
        },
        LegacyEncoding::Koi8U => {
            reveal_strlit("KOI8-U");
        },
        LegacyEncoding::ShiftJis => {
            reveal_strlit("Shift_JIS");
        },
        LegacyEncoding::Utf16Be => {
            reveal_strlit("UTF-16BE");
        },
        LegacyEncoding::Utf16Le => {
            reveal_strlit("UTF-16LE");
        },
        LegacyEncoding::Utf8 => {
            reveal_strlit("UTF-8");
        },
        LegacyEncoding::Gb18030 => {
            reveal_strlit("gb18030");
        },
        LegacyEncoding::Macintosh => {
            reveal_strlit("macintosh");
        },
        LegacyEncoding::Replacement => {
            reveal_strlit("replacement");
        },
        LegacyEncoding::Windows1250 => {
            reveal_strlit("windows-1250");
        },
        LegacyEncoding::Windows1251 => {
            reveal_strlit("windows-1251");
        },
        LegacyEncoding::Windows1252 => {
            reveal_strlit("windows-1252");
        },
        LegacyEncoding::Windows1253 => {
            reveal_strlit("windows-1253");
        },
        LegacyEncoding::Windows1254 => {
            reveal_strlit("windows-1254");
        },
        LegacyEncoding::Windows1255 => {
            reveal_strlit("windows-1255");
        },
        LegacyEncoding::Windows1256 => {
            reveal_strlit("windows-1256");
        },
        LegacyEncoding::Windows1257 => {
            reveal_strlit("windows-1257");
        },
        LegacyEncoding::Windows1258 => {
            reveal_strlit("windows-1258");
        },
        LegacyEncoding::Windows874 => {
            reveal_strlit("windows-874");
        },
        LegacyEncoding::XMacCyrillic => {
            reveal_strlit("x-mac-cyrillic");
        },
        LegacyEncoding::XUserDefined => {
            reveal_strlit("x-user-defined");
        },
    }
}

/// Distinct encodings have distinct names.
pub proof fn lemma_names_distinct(a: LegacyEncoding, b: LegacyEncoding)
    ensures
        encoding_name(a) == encoding_name(b) ==> a == b,
{
    lemma_name_ending(a);
    lemma_name_ending(b);
}

/// Looking an encoding up by its own name finds it again.
pub proof fn lemma_name_round_trip(e: LegacyEncoding)
    ensures
        name_encoding(encoding_name(e)) == Some(e),
{
    let chosen = choose|x: LegacyEncoding| #[trigger] encoding_name(x) == encoding_name(e);
    lemma_names_distinct(chosen, e);
}

/// Every encoding stands at some position of the universe.
pub proof fn lemma_universe_complete(e: LegacyEncoding)
    ensures
        exists|i: int| 0 <= i < ENCODING_COUNT && #[trigger] encoding_at(i) == e,
{
    match e {
        LegacyEncoding::Big5 => {
            assert(encoding_at(0) == e);
        },
        LegacyEncoding::EucJp => {
            assert(encoding_at(1) == e);
        },
        LegacyEncoding::EucKr => {
            assert(encoding_at(2) == e);
        },
        LegacyEncoding::Gbk => {
            assert(encoding_at(3) == e);
        },
        LegacyEncoding::Ibm866 => {
            assert(encoding_at(4) == e);
        },
        LegacyEncoding::Iso2022Jp => {
            assert(encoding_at(5) == e);
        },
        LegacyEncoding::Iso8859_10 => {
            assert(encoding_at(6) == e);
        },
        LegacyEncoding::Iso8859_13 => {
            assert(encoding_at(7) == e);
        },
        LegacyEncoding::Iso8859_14 => {
            assert(encoding_at(8) == e);
        },
        LegacyEncoding::Iso8859_15 => {
            assert(encoding_at(9) == e);
        },
        LegacyEncoding::Iso8859_16 => {
            assert(encoding_at(10) == e);
        },
        LegacyEncoding::Iso8859_2 => {
            assert(encoding_at(11) == e);
        },
        LegacyEncoding::Iso8859_3 => {
            assert(encoding_at(12) == e);
        },
        LegacyEncoding::Iso8859_4 => {
            assert(encoding_at(13) == e);
        },
        LegacyEncoding::Iso8859_5 => {
            assert(encoding_at(14) == e);
        },
        LegacyEncoding::Iso8859_6 => {
            assert(encoding_at(15) == e);
        },
        LegacyEncoding::Iso8859_7 => {
            assert(encoding_at(16) == e);
        },
        LegacyEncoding::Iso8859_8 => {
            assert(encoding_at(17) == e);
        },
        LegacyEncoding::Iso8859_8I => {
            assert(encoding_at(18) == e);
        },
        LegacyEncoding::Koi8R => {
            assert(encoding_at(19) == e);
        },
        LegacyEncoding::Koi8U => {
            assert(encoding_at(20) == e);
        },
        LegacyEncoding::ShiftJis => {
            assert(encoding_at(21) == e);
        },
        LegacyEncoding::Utf16Be => {
            assert(encoding_at(22) == e);
        },
        LegacyEncoding::Utf16Le => {
            assert(encoding_at(23) == e);
        },
        LegacyEncoding::Utf8 => {
            assert(encoding_at(24) == e);
        },
        LegacyEncoding::Gb18030 => {
            assert(encoding_at(25) == e);
        },
        LegacyEncoding::Macintosh => {
            assert(encoding_at(26) == e);
        },
        LegacyEncoding::Replacement => {
            assert(encoding_at(27) == e);
        },
        LegacyEncoding::Windows1250 => {
            assert(encoding_at(28) == e);
        },
        LegacyEncoding::Windows1251 => {
            assert(encoding_at(29) == e);
        },
        LegacyEncoding::Windows1252 => {
            assert(encoding_at(30) == e);
        },
        LegacyEncoding::Windows1253 => {
            assert(encoding_at(31) == e);
        },
        LegacyEncoding::Windows1254 => {
            assert(encoding_at(32) == e);
        },
        LegacyEncoding::Windows1255 => {
            assert(encoding_at(33) == e);
        },
        LegacyEncoding::Windows1256 => {
            assert(encoding_at(34) == e);
        },
        LegacyEncoding::Windows1257 => {
            assert(encoding_at(35) == e);
        },
        LegacyEncoding::Windows1258 => {
            assert(encoding_at(36) == e);
        },
        LegacyEncoding::Windows874 => {
            assert(encoding_at(37) == e);
        },
        LegacyEncoding::XMacCyrillic => {
            assert(encoding_at(38) == e);
        },
        LegacyEncoding::XUserDefined => {
            assert(encoding_at(39) == e);
        },
    }
}

} // verus!

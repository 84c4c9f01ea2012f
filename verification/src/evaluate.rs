//! Scoring one sample: from the text of a corpus to the counts of a score
//! card.

use crate::codec::MAX_BYTES_LEN;
use crate::detect::answer_encoding;
use crate::detect::chardet_askable;
use crate::detect::chardet_charset;
use crate::detect::check_answer;
use crate::detect::check_chardet;
use crate::detect::check_ng;
use crate::detect::feed_plan;
use crate::detect::fresh_guess;
use crate::detect::guess_encoding;
use crate::detect::guess_is_right;
use crate::detect::guessed_name;
use crate::detect::lemma_single_feed;
use crate::detect::mismatch_of;
use crate::detect::tld_acceptable;
use crate::detect::tld_view;
use crate::detect::Mismatch;
use crate::codec::bytewise_errors;
use crate::encoding::encoding_name;
use crate::encoding::fast_index;
use crate::encoding::LegacyEncoding;
use crate::normalize::normalized;
use crate::score::Counts;
use crate::table::bytewise_decoded;
use crate::transcode::lemma_sample_round_trip;
use crate::transcode::maps_fully;
use crate::normalize::graphemes_reversed;
use crate::normalize::is_ascii_text;
use crate::normalize::reverse_graphemes;
use crate::score::counts_consistent;
use crate::score::has_room;
use crate::score::Detector;
use crate::score::record_outcome;
use crate::score::ScoreCard;
use crate::table::FastEncoder;
use crate::text::chars_of;
use crate::transcode::encode_chars;
use crate::transcode::is_ascii_bytes;
use crate::transcode::sample_bytes;
use vstd::prelude::*;

verus! {

/// Which detectors are asked about a sample.
#[derive(Clone, Copy, Debug, PartialEq, Eq, Structural)]
pub enum CheckMode {
    /// All four detectors.
    All,
    /// The incremental detector alone.
    Ng,
    /// The compact native classifier alone.
    Ced,
}

/// Whether a mode asks a detector. A detector that is not asked is not run;
/// the incremental detector is then never credited, each of the others
/// always.
pub open spec fn mode_asks(mode: CheckMode, detector: Detector) -> bool {
    match detector {
        Detector::Ng => mode != CheckMode::Ced,
        Detector::Ced => mode != CheckMode::Ng,
        Detector::Chardet => mode == CheckMode::All,
        Detector::Icu => mode == CheckMode::All,
    }
}

impl CheckMode {
    /// Whether this mode asks a detector.
    pub fn asks(self, detector: Detector) -> (asked: bool)
        ensures
            asked == mode_asks(self, detector),
    {
        match detector {
            Detector::Ng => self != CheckMode::Ced,
            Detector::Ced => self != CheckMode::Ng,
            Detector::Chardet => self == CheckMode::All,
            Detector::Icu => self == CheckMode::All,
        }
    }
}

/// The answers of the two native classifiers for a sample, each the label
/// of the guessed encoding. An answer is read only in a mode that asks its
/// classifier.
pub struct NativeAnswers {
    pub ced: Vec<u8>,
    pub icu: Vec<u8>,
}

/// What to tell the operator about a sample.
pub enum Diagnostic {
    /// Nothing.
    Silent,
    /// Every detector was wrong.
    AllFailed,
    /// The incremental detector was wrong and some other detector was right.
    Wrong { report: Mismatch, ced: bool, chardet: bool, icu: bool },
}

/// The text that is normalized and transcoded for a sample: for the visual
/// Hebrew encoding the sample with its grapheme clusters in reverse order,
/// otherwise the sample itself.
pub open spec fn prepared(text: Seq<char>, encoding: LegacyEncoding) -> Seq<char> {
    if encoding == LegacyEncoding::Iso8859_8 {
        graphemes_reversed(text)
    } else {
        text
    }
}

/// The bytes synthesized for a sample, or `None` where it is rejected.
pub open spec fn synthesized(text: Seq<char>, encoding: LegacyEncoding, orthographic: bool) -> Option<
    Seq<u8>,
> {
    sample_bytes(prepared(text, encoding), encoding, orthographic)
}

/// Whether the compact native classifier counts as right for a sample: in a
/// mode that does not ask it, it does.
pub open spec fn ced_verdict(
    mode: CheckMode,
    encoding: LegacyEncoding,
    answer: Seq<u8>,
    bytes: Seq<u8>,
) -> bool {
    !mode_asks(mode, Detector::Ced) || guess_is_right(encoding, answer_encoding(answer), bytes)
}

/// Whether the locale-filter classifier counts as right for a sample.
pub open spec fn icu_verdict(
    mode: CheckMode,
    encoding: LegacyEncoding,
    answer: Seq<u8>,
    bytes: Seq<u8>,
) -> bool {
    !mode_asks(mode, Detector::Icu) || guess_is_right(encoding, answer_encoding(answer), bytes)
}

/// Whether the statistical detector counts as right for a sample.
pub open spec fn chardet_verdict(mode: CheckMode, encoding: LegacyEncoding, bytes: Seq<u8>) -> bool {
    !mode_asks(mode, Detector::Chardet) || guess_is_right(
        encoding,
        answer_encoding(vstd::utf8::encode_utf8(chardet_charset(bytes))),
        bytes,
    )
}

/// Whether the incremental detector is credited for a sample: it is asked in
/// every mode but `Ced`, and credited where its guess is right.
pub open spec fn ng_verdict(
    mode: CheckMode,
    encoding: LegacyEncoding,
    bytes: Seq<u8>,
    tld: Option<Seq<u8>>,
    max_non_ascii: nat,
    chunk: nat,
) -> bool {
    mode_asks(mode, Detector::Ng) && guess_is_right(
        encoding,
        fresh_guess(bytes, tld, max_non_ascii, chunk),
        bytes,
    )
}

/// Synthesizes the bytes of one sample of a corpus. For the visual Hebrew
/// encoding the grapheme clusters of the sample are put in reverse order
/// first; for every other encoding their order is kept. For an encoding
/// without a fast table, a sample whose normalized form has more than
/// `MAX_TEXT_LEN` code points is dropped.
pub fn synthesize(
    s: &str,
    encoding: LegacyEncoding,
    orthographic: bool,
    fast_encoder: &FastEncoder,
) -> (bytes: Option<Vec<u8>>)
    requires
        fast_encoder.wf(),
    ensures
        bytes is Some <==> synthesized(s@, encoding, orthographic) is Some,
        bytes matches Some(b) ==> synthesized(s@, encoding, orthographic) == Some(b@),
        bytes matches Some(b) ==> !is_ascii_bytes(b@),
        encoding != LegacyEncoding::Iso8859_8 && is_ascii_text(s@) ==> bytes is None,
{
    let text = chars_of(s);
    synthesize_chars(&text, encoding, orthographic, fast_encoder)
}

/// As `synthesize`, on a sample given as code points.
pub fn synthesize_chars(
    text: &Vec<char>,
    encoding: LegacyEncoding,
    orthographic: bool,
    fast_encoder: &FastEncoder,
) -> (bytes: Option<Vec<u8>>)
    requires
        fast_encoder.wf(),
    ensures
        bytes is Some <==> synthesized(text@, encoding, orthographic) is Some,
        bytes matches Some(b) ==> synthesized(text@, encoding, orthographic) == Some(b@),
        bytes matches Some(b) ==> !is_ascii_bytes(b@),
        encoding != LegacyEncoding::Iso8859_8 && is_ascii_text(text@) ==> bytes is None,
{
    if encoding == LegacyEncoding::Iso8859_8 {
        let reversed = reverse_graphemes(text);
        encode_chars(&reversed, encoding, orthographic, fast_encoder)
    } else {
        encode_chars(text, encoding, orthographic, fast_encoder)
    }
}

/// Scores the detectors on the bytes of one sample and counts the sample on
/// the score card. The sample always counts towards the total; each detector
/// is credited where the bytes read under its guess give the same text as
/// under the true encoding. The diagnostic never affects the counts.
pub fn check(
    bytes: &[u8],
    tld: Option<&[u8]>,
    encoding: LegacyEncoding,
    answers: &NativeAnswers,
    print: bool,
    score_card: &mut ScoreCard,
    mode: CheckMode,
    max_non_ascii: usize,
    chunk: usize,
) -> (diagnostic: Diagnostic)
    requires
        has_room(old(score_card)@),
        bytes@.len() <= MAX_BYTES_LEN,
        tld_acceptable(tld),
        mode_asks(mode, Detector::Chardet) ==> chardet_askable(bytes@),
    ensures
        counts_consistent(old(score_card)@) ==> counts_consistent(final(score_card)@),
        final(score_card)@ == record_outcome(
            old(score_card)@,
            ng_verdict(
                mode,
                encoding,
                bytes@,
                tld_view(tld),
                max_non_ascii as nat,
                chunk as nat,
            ),
            ced_verdict(mode, encoding, answers.ced@, bytes@),
            chardet_verdict(mode, encoding, bytes@),
            icu_verdict(mode, encoding, answers.icu@, bytes@),
        ),
        diagnostic is Silent <==> !speaks(
            print,
            mode,
            ng_verdict(
                mode,
                encoding,
                bytes@,
                tld_view(tld),
                max_non_ascii as nat,
                chunk as nat,
            ),
        ),
        diagnostic is AllFailed ==> !ced_verdict(mode, encoding, answers.ced@, bytes@)
            && !chardet_verdict(mode, encoding, bytes@) && !icu_verdict(
            mode,
            encoding,
            answers.icu@,
            bytes@,
        ),
        diagnostic matches Diagnostic::Wrong { report, ced, chardet, icu } ==> {
            &&& (ced || chardet || icu)
            &&& ced == ced_verdict(mode, encoding, answers.ced@, bytes@)
            &&& chardet == chardet_verdict(mode, encoding, bytes@)
            &&& icu == icu_verdict(mode, encoding, answers.icu@, bytes@)
            &&& mismatch_of(
                report,
                feed_plan(bytes@, max_non_ascii as nat, chunk as nat),
                tld_view(tld),
                encoding,
                bytes@,
            )
        },
{
    let chardet = if mode.asks(Detector::Chardet) {
        check_chardet(encoding, bytes)
    } else {
        true
    };
    let ced = if mode.asks(Detector::Ced) {
        check_answer(encoding, answers.ced.as_slice(), bytes)
    } else {
        true
    };
    let icu = if mode.asks(Detector::Icu) {
        check_answer(encoding, answers.icu.as_slice(), bytes)
    } else {
        true
    };
    if !mode.asks(Detector::Ng) {
        score_card.record(false, ced, chardet, icu);
        return Diagnostic::Silent;
    }
    match check_ng(tld, encoding, bytes, max_non_ascii, chunk) {
        None => {
            score_card.record(true, ced, chardet, icu);
            Diagnostic::Silent
        },
        Some(report) => {
            score_card.record(false, ced, chardet, icu);
            if !print {
                Diagnostic::Silent
            } else if !chardet && !ced && !icu {
                Diagnostic::AllFailed
            } else {
                Diagnostic::Wrong { report, ced, chardet, icu }
            }
        },
    }
}

/// Whether there is something to tell the operator about a sample: printing
/// is asked for, and the incremental detector was asked and wrong.
pub open spec fn speaks(print: bool, mode: CheckMode, ng: bool) -> bool {
    print && mode_asks(mode, Detector::Ng) && !ng
}

/// With every detector asked and neither truncation nor chunking, each
/// detector is judged on its guess for exactly the bytes of the sample: the
/// incremental detector after one call of `feed` with the bytes, marked as
/// the last, and with the hint; the statistical detector on the bytes; the
/// native classifiers by the labels that they answered.
pub proof fn lemma_whole_sample_judged(
    encoding: LegacyEncoding,
    bytes: Seq<u8>,
    tld: Option<Seq<u8>>,
    ced: Seq<u8>,
    icu: Seq<u8>,
)
    ensures
        ng_verdict(CheckMode::All, encoding, bytes, tld, 0, 0) == guess_is_right(
            encoding,
            guess_encoding(guessed_name(seq![(bytes, true)], tld)),
            bytes,
        ),
        chardet_verdict(CheckMode::All, encoding, bytes) == guess_is_right(
            encoding,
            answer_encoding(vstd::utf8::encode_utf8(chardet_charset(bytes))),
            bytes,
        ),
        ced_verdict(CheckMode::All, encoding, ced, bytes) == guess_is_right(
            encoding,
            answer_encoding(ced),
            bytes,
        ),
        icu_verdict(CheckMode::All, encoding, icu, bytes) == guess_is_right(
            encoding,
            answer_encoding(icu),
            bytes,
        ),
{
    lemma_single_feed(bytes, 0);
}

/// A sample on which every detector is asked and every guess reads the
/// bytes differently from the true encoding counts towards the total and
/// towards no detector.
pub proof fn lemma_all_failed(
    before: Counts,
    encoding: LegacyEncoding,
    bytes: Seq<u8>,
    tld: Option<Seq<u8>>,
    ced: Seq<u8>,
    icu: Seq<u8>,
    max_non_ascii: nat,
    chunk: nat,
)
    requires
        !guess_is_right(encoding, fresh_guess(bytes, tld, max_non_ascii, chunk), bytes),
        !guess_is_right(
            encoding,
            answer_encoding(vstd::utf8::encode_utf8(chardet_charset(bytes))),
            bytes,
        ),
        !guess_is_right(encoding, answer_encoding(ced), bytes),
        !guess_is_right(encoding, answer_encoding(icu), bytes),
    ensures
        record_outcome(
            before,
            ng_verdict(CheckMode::All, encoding, bytes, tld, max_non_ascii, chunk),
            ced_verdict(CheckMode::All, encoding, ced, bytes),
            chardet_verdict(CheckMode::All, encoding, bytes),
            icu_verdict(CheckMode::All, encoding, icu, bytes),
        ) == (Counts { total: before.total + 1, ..before }),
{
}

/// The round trip of a synthesized sample. For the visual Hebrew encoding
/// the bytes hold the normalized form of the sample with its clusters in
/// reverse order, not of the sample as it stands; for any other encoding
/// the order is kept. In both cases, where that normalized form passes
/// through the fast table without loss, the bytes are as many as its code
/// points, and read one at a time they are that form again, none of them
/// malformed.
pub proof fn lemma_synthesized_round_trip(
    text: Seq<char>,
    encoding: LegacyEncoding,
    orthographic: bool,
    normal: Seq<char>,
)
    requires
        normalized(prepared(text, encoding), encoding, orthographic) == Some(normal),
        maps_fully(normal, encoding),
    ensures
        encoding == LegacyEncoding::Iso8859_8 ==> prepared(text, encoding) == graphemes_reversed(
            text,
        ),
        encoding != LegacyEncoding::Iso8859_8 ==> prepared(text, encoding) == text,
        synthesized(text, encoding, orthographic) matches Some(bytes) && bytes.len()
            == normal.len() && bytewise_decoded(fast_index(encoding)->0, bytes) == normal
            && !bytewise_errors(encoding_name(encoding), bytes),
{
    lemma_sample_round_trip(prepared(text, encoding), encoding, orthographic, normal);
}

} // verus!

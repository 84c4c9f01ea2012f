//! The words of a result row that depend on the counts and on the task.

use crate::encoding::encoding_name;
use crate::encoding::LegacyEncoding;
use crate::score::leading_detector;
use crate::score::Detector;
use crate::score::ScoreCard;
use vstd::prelude::*;
use vstd::string::StringExecFns;

verus! {

/// The name under which a detector appears in a row.
pub open spec fn detector_label(detector: Detector) -> Seq<char> {
    match detector {
        Detector::Ng => "ng"@,
        Detector::Ced => "ced"@,
        Detector::Chardet => "chardet"@,
        Detector::Icu => "icu"@,
    }
}

/// The note that marks the loose variant of the Vietnamese encoding; empty
/// for every other task.
pub open spec fn variant_label(encoding: LegacyEncoding, orthographic: bool) -> Seq<char> {
    if !orthographic && encoding == LegacyEncoding::Windows1258 {
        " (non-orthographic)"@
    } else {
        ""@
    }
}

/// The start of a row: language, encoding with its variant note, and the
/// winner, separated by tabs.
pub open spec fn row_head_text(
    lang: Seq<char>,
    encoding: LegacyEncoding,
    orthographic: bool,
    winner: Detector,
) -> Seq<char> {
    lang + "\t"@ + encoding_name(encoding) + variant_label(encoding, orthographic) + "\twin:\t"@
        + detector_label(winner)
}

/// The name under which a detector appears in a row.
pub fn detector_name(detector: Detector) -> (name: &'static str)
    ensures
        name@ == detector_label(detector),
{
    match detector {
        Detector::Ng => "ng",
        Detector::Ced => "ced",
        Detector::Chardet => "chardet",
        Detector::Icu => "icu",
    }
}

/// The note that marks the loose variant of the Vietnamese encoding.
pub fn variant_note(encoding: LegacyEncoding, orthographic: bool) -> (note: &'static str)
    ensures
        note@ == variant_label(encoding, orthographic),
{
    if !orthographic && encoding == LegacyEncoding::Windows1258 {
        " (non-orthographic)"
    } else {
        ""
    }
}

/// The start of the row of a score card.
pub fn row_head(card: &ScoreCard, lang: &str, encoding: LegacyEncoding, orthographic: bool) -> (row:
    String)
    ensures
        row@ == row_head_text(lang@, encoding, orthographic, leading_detector(card@)),
{
    let mut row = String::new();
    row.append(lang);
    row.append("\t");
    row.append(encoding.name());
    row.append(variant_note(encoding, orthographic));
    row.append("\twin:\t");
    row.append(detector_name(card.winner()));
    assert(row@ =~= row_head_text(lang@, encoding, orthographic, leading_detector(card@)));
    row
}

} // verus!

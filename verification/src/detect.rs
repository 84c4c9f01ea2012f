//! Feeding synthesized bytes to the detectors and judging their guesses.

use crate::codec::decoded_text;
use crate::codec::label_name;
use crate::codec::name_for_label;
use crate::codec::MAX_BYTES_LEN;
use crate::encoding::encoding_name;
use crate::encoding::is_encoding_name;
use crate::encoding::name_encoding;
use crate::encoding::LegacyEncoding;
use crate::text::same_text;
use crate::transcode::decode_sample;
use chardet::UniversalDetector;
use chardetng::EncodingDetector;
use chardetng::Iso2022JpDetection;
use chardetng::Utf8Detection;
use encoding_rs::Encoding;
use vstd::prelude::*;
use vstd::slice::slice_subrange;

verus! {

/// The incremental detector of `chardetng`. Its state is opaque; what the
/// library knows of a detector is the calls of `feed` that it has taken.
#[verifier::external_type_specification]
#[verifier::external_body]
pub struct ExEncodingDetector(EncodingDetector);

/// One call of `feed`: the chunk, and whether it was marked as the last.
pub type Feed = (Seq<u8>, bool);

/// The calls of `feed` that a detector has taken since it was made, in order.
pub uninterp spec fn detector_feeds(det: EncodingDetector) -> Seq<Feed>;

/// The standard name of the encoding that a detector guesses after the given
/// calls of `feed`, for the given top-level domain, UTF-8 not allowed.
pub uninterp spec fn guessed_name(feeds: Seq<Feed>, tld: Option<Seq<u8>>) -> Seq<char>;

/// The score that a detector holds for the encoding labelled `label` after
/// the given calls of `feed`: `None` where `label` is no encoding label,
/// `Some(None)` where the detector has disqualified the encoding.
pub uninterp spec fn candidate_score(feeds: Seq<Feed>, label: Seq<char>) -> Option<Option<i64>>;

/// The charset name that `chardet` reports for a buffer fed to it in one
/// piece.
pub uninterp spec fn chardet_charset(bytes: Seq<u8>) -> Seq<char>;

/// Whether some call of `feed` was marked as the last.
pub open spec fn is_closed(feeds: Seq<Feed>) -> bool {
    exists|i: int| 0 <= i < feeds.len() && (#[trigger] feeds[i]).1
}

/// A top-level domain label that a detector accepts: ASCII without
/// upper-case letters and without a period.
pub open spec fn is_tld_label(tld: Seq<u8>) -> bool {
    forall|i: int|
        0 <= i < tld.len() ==> {
            let b = #[trigger] tld[i];
            b < 0x80 && b != 0x2E && !(0x41 <= b <= 0x5A)
        }
}

/// The view of an optional top-level domain.
pub open spec fn tld_view(tld: Option<&[u8]>) -> Option<Seq<u8>> {
    match tld {
        Some(t) => Some(t@),
        None => None,
    }
}

/// Whether a top-level domain, if given, is one that a detector accepts.
pub open spec fn tld_acceptable(tld: Option<&[u8]>) -> bool {
    match tld {
        Some(t) => is_tld_label(t@),
        None => true,
    }
}

/// Whether a top-level domain is one that a detector accepts.
pub fn is_acceptable_tld(tld: &[u8]) -> (acceptable: bool)
    ensures
        acceptable == is_tld_label(tld@),
{
    let mut i: usize = 0;
    while i < tld.len()
        invariant
            i <= tld@.len(),
            forall|j: int|
                0 <= j < i ==> {
                    let b = #[trigger] tld@[j];
                    b < 0x80 && b != 0x2E && !(0x41 <= b <= 0x5A)
                },
        decreases tld@.len() - i,
    {
        let b = tld[i];
        if b >= 0x80 || b == 0x2E || (b >= 0x41 && b <= 0x5A) {
            return false;
        }
        i = i + 1;
    }
    true
}

/// `EncodingDetector::new`, with ISO-2022-JP among the possible guesses: a
/// detector that has taken no input.
#[verifier::external_body]
pub(crate) fn new_detector() -> (det: EncodingDetector)
    ensures
        detector_feeds(det) == Seq::<Feed>::empty(),
{
    EncodingDetector::new(Iso2022JpDetection::Allow)
}

/// `EncodingDetector::feed`: the detector takes one more chunk. It must not
/// be called once a chunk was marked as the last. The detector counts runs
/// of bytes above ASCII in 32 bits across calls, so all that it takes stays
/// within the bound.
#[verifier::external_body]
pub(crate) fn feed_detector(det: &mut EncodingDetector, chunk: &[u8], last: bool)
    requires
        !is_closed(detector_feeds(*old(det))),
        fed_bytes(detector_feeds(*old(det))).len() + chunk@.len() <= MAX_BYTES_LEN,
    ensures
        detector_feeds(*final(det)) == detector_feeds(*old(det)).push((chunk@, last)),
{
    det.feed(chunk, last);
}

/// `EncodingDetector::guess` with UTF-8 denied, then `Encoding::name`: the
/// guess is a function of the chunks fed and the top-level domain, and is
/// one of the encodings of the universe.
#[verifier::external_body]
pub(crate) fn guess_name(det: &EncodingDetector, tld: Option<&[u8]>) -> (name: &'static str)
    requires
        tld_acceptable(tld),
    ensures
        name@ == guessed_name(detector_feeds(*det), tld_view(tld)),
        is_encoding_name(name@),
{
    det.guess(tld, Utf8Detection::Deny).name()
}

/// `Encoding::for_label`, then `EncodingDetector::find_score`: the score of
/// one candidate, a function of the chunks fed and the label.
#[verifier::external_body]
pub(crate) fn find_score(det: &EncodingDetector, label: &str) -> (score: Option<Option<i64>>)
    ensures
        score == candidate_score(detector_feeds(*det), label@),
        is_encoding_name(label@) ==> score is Some,
{
    match Encoding::for_label(label.as_bytes()) {
        Some(encoding) => Some(det.find_score(encoding)),
        None => None,
    }
}

/// Whether `chardet` can be asked about a buffer: it gives up on a buffer
/// with an escape byte whose only bytes above ASCII are no-break spaces.
pub open spec fn chardet_askable(bytes: Seq<u8>) -> bool {
    (exists|i: int| 0 <= i < bytes.len() && #[trigger] bytes[i] >= 0x80 && bytes[i] != 0xA0) || (
    forall|i: int| 0 <= i < bytes.len() ==> #[trigger] bytes[i] != 0x1B)
}

/// `UniversalDetector::new`, `feed` of the whole buffer and `close` of
/// `chardet`, of which the charset name is kept: a function of the buffer.
/// Its probers count characters in 32 bits, so the buffer stays within the
/// bound.
#[verifier::external_body]
pub(crate) fn chardet_name(bytes: &[u8]) -> (name: String)
    requires
        chardet_askable(bytes@),
        bytes@.len() <= MAX_BYTES_LEN,
    ensures
        name@ == chardet_charset(bytes@),
{
    let mut detector = UniversalDetector::new();
    detector.feed(bytes);
    let (name, _, _) = detector.close();
    name
}

/// The number of bytes of a buffer that are not ASCII.
pub open spec fn non_ascii_count(bytes: Seq<u8>) -> nat
    decreases bytes.len(),
{
    if bytes.len() == 0 {
        0
    } else {
        non_ascii_count(bytes.drop_last()) + if bytes.last() >= 0x80 {
            1nat
        } else {
            0nat
        }
    }
}

/// The length of the shortest prefix of `bytes` that holds `max` bytes above
/// ASCII, or the length of `bytes` where it holds fewer.
pub open spec fn truncation_len(bytes: Seq<u8>, max: nat) -> int {
    if exists|n: int| 0 <= n <= bytes.len() && non_ascii_count(#[trigger] bytes.take(n)) == max {
        choose|n: int|
            0 <= n <= bytes.len() && non_ascii_count(#[trigger] bytes.take(n)) == max && forall|
                m: int,
            |
                0 <= m < n ==> non_ascii_count(#[trigger] bytes.take(m)) != max
    } else {
        bytes.len() as int
    }
}

/// The buffer cut off once `max` bytes above ASCII have been seen.
pub open spec fn truncated(bytes: Seq<u8>, max: nat) -> Seq<u8> {
    bytes.take(truncation_len(bytes, max))
}

/// A length that ends the shortest prefix with `max` bytes above ASCII, or
/// the whole length where no prefix has that many, is the truncation length.
pub proof fn lemma_truncation_len(bytes: Seq<u8>, max: nat, n: int)
    requires
        0 <= n <= bytes.len(),
        forall|m: int| 0 <= m < n ==> non_ascii_count(#[trigger] bytes.take(m)) != max,
        n < bytes.len() ==> non_ascii_count(bytes.take(n)) == max,
    ensures
        truncation_len(bytes, max) == n,
{
    if exists|k: int| 0 <= k <= bytes.len() && non_ascii_count(#[trigger] bytes.take(k)) == max {
        let k = choose|k: int|
            0 <= k <= bytes.len() && non_ascii_count(#[trigger] bytes.take(k)) == max;
        lemma_least_prefix(bytes, max, k);
        let t = truncation_len(bytes, max);
        assert(0 <= t <= bytes.len() && non_ascii_count(bytes.take(t)) == max);
        assert(forall|m: int| 0 <= m < t ==> non_ascii_count(#[trigger] bytes.take(m)) != max);
        if t < n {
            assert(non_ascii_count(bytes.take(t)) != max);
        }
        if n < t {
            assert(non_ascii_count(bytes.take(n)) != max);
        }
    }
}

/// Where some prefix holds `max` bytes above ASCII, a shortest one exists.
proof fn lemma_least_prefix(bytes: Seq<u8>, max: nat, k: int)
    requires
        0 <= k <= bytes.len(),
        non_ascii_count(bytes.take(k)) == max,
    ensures
        exists|n: int|
            0 <= n <= bytes.len() && non_ascii_count(#[trigger] bytes.take(n)) == max && forall|
                m: int,
            |
                0 <= m < n ==> non_ascii_count(#[trigger] bytes.take(m)) != max,
    decreases k,
{
    if exists|j: int| 0 <= j < k && non_ascii_count(#[trigger] bytes.take(j)) == max {
        let j = choose|j: int| 0 <= j < k && non_ascii_count(#[trigger] bytes.take(j)) == max;
        lemma_least_prefix(bytes, max, j);
    } else {
        assert(non_ascii_count(bytes.take(k)) == max);
    }
}

/// Cuts a buffer off once `max_non_ascii` bytes above ASCII have been seen.
pub fn truncate_by_num_ascii(buffer: &[u8], max_non_ascii: usize) -> (prefix: &[u8])
    ensures
        prefix@ == truncated(buffer@, max_non_ascii as nat),
        prefix@ == buffer@.take(prefix@.len() as int),
        prefix@.len() <= buffer@.len(),
        non_ascii_count(prefix@) <= max_non_ascii,
        prefix@.len() < buffer@.len() ==> non_ascii_count(prefix@) == max_non_ascii,
{
    let mut non_ascii: usize = 0;
    let mut i: usize = 0;
    assert(buffer@.take(0) =~= Seq::<u8>::empty());
    while i < buffer.len()
        invariant_except_break
            i <= buffer@.len(),
            non_ascii == non_ascii_count(buffer@.take(i as int)),
            non_ascii <= i,
            non_ascii <= max_non_ascii,
            forall|m: int| 0 <= m < i ==> non_ascii_count(#[trigger] buffer@.take(m)) != max_non_ascii,
        ensures
            i <= buffer@.len(),
            non_ascii == non_ascii_count(buffer@.take(i as int)),
            non_ascii <= max_non_ascii,
            forall|m: int| 0 <= m < i ==> non_ascii_count(#[trigger] buffer@.take(m)) != max_non_ascii,
            i < buffer@.len() ==> non_ascii == max_non_ascii,
        decreases buffer@.len() - i,
    {
        if non_ascii == max_non_ascii {
            break;
        }
        proof {
            assert(buffer@.take(i + 1).drop_last() =~= buffer@.take(i as int));
            assert(buffer@.take(i + 1).last() == buffer@[i as int]);
        }
        if buffer[i] >= 0x80 {
            non_ascii = non_ascii + 1;
        }
        i = i + 1;
    }
    proof {
        lemma_truncation_len(buffer@, max_non_ascii as nat, i as int);
    }
    slice_subrange(buffer, 0, i)
}

/// The calls of `feed` made for the part of `buf` from `pos` on, in chunks
/// of `chunk` bytes. Where `split_first` holds, the chunk at `pos` is handed
/// over in two pieces, the first of 1024 bytes.
pub open spec fn chunk_feeds(buf: Seq<u8>, chunk: int, pos: int, split_first: bool) -> Seq<Feed>
    decreases buf.len() - pos,
{
    if pos < 0 || pos >= buf.len() || chunk <= 0 {
        Seq::empty()
    } else {
        let end = if buf.len() - pos > chunk {
            pos + chunk
        } else {
            buf.len() as int
        };
        let head = if split_first {
            seq![(buf.subrange(pos, pos + 1024), false), (buf.subrange(pos + 1024, end), false)]
        } else {
            seq![(buf.subrange(pos, end), false)]
        };
        head + chunk_feeds(buf, chunk, end, false)
    }
}

/// The calls of `feed` made for a sample: the buffer, truncated where
/// `max_non_ascii` is not zero, in one call marked as the last where `chunk`
/// is zero or no shorter than the buffer, otherwise chunk by chunk, the
/// first chunk split at 1024 bytes where it is longer, followed by an empty
/// call marked as the last.
pub open spec fn feed_plan(buffer: Seq<u8>, max_non_ascii: nat, chunk: nat) -> Seq<Feed> {
    let buf = if max_non_ascii == 0 {
        buffer
    } else {
        truncated(buffer, max_non_ascii)
    };
    if chunk == 0 || chunk >= buf.len() {
        seq![(buf, true)]
    } else {
        chunk_feeds(buf, chunk as int, 0, chunk > 1024).push((Seq::<u8>::empty(), true))
    }
}

/// The bytes that a detector has been handed by some calls of `feed`, in
/// order.
pub open spec fn fed_bytes(feeds: Seq<Feed>) -> Seq<u8>
    decreases feeds.len(),
{
    if feeds.len() == 0 {
        Seq::empty()
    } else {
        fed_bytes(feeds.drop_last()) + feeds.last().0
    }
}

proof fn lemma_fed_bytes_concat(a: Seq<Feed>, b: Seq<Feed>)
    ensures
        fed_bytes(a + b) == fed_bytes(a) + fed_bytes(b),
    decreases b.len(),
{
    if b.len() == 0 {
        assert(a + b =~= a);
        assert(fed_bytes(a) + fed_bytes(b) =~= fed_bytes(a));
    } else {
        assert((a + b).drop_last() =~= a + b.drop_last());
        assert((a + b).last() == b.last());
        lemma_fed_bytes_concat(a, b.drop_last());
        assert(fed_bytes(a + b) =~= fed_bytes(a) + fed_bytes(b));
    }
}

proof fn lemma_chunk_feeds_cover(buf: Seq<u8>, chunk: int, pos: int, split_first: bool)
    requires
        0 <= pos <= buf.len(),
        chunk > 0,
        split_first ==> chunk > 1024 && buf.len() - pos > chunk,
    ensures
        fed_bytes(chunk_feeds(buf, chunk, pos, split_first)) == buf.skip(pos),
        !is_closed(chunk_feeds(buf, chunk, pos, split_first)),
    decreases buf.len() - pos,
{
    let feeds = chunk_feeds(buf, chunk, pos, split_first);
    if pos >= buf.len() {
        assert(buf.skip(pos) =~= Seq::<u8>::empty());
    } else {
        let end = if buf.len() - pos > chunk {
            pos + chunk
        } else {
            buf.len() as int
        };
        let head: Seq<Feed> = if split_first {
            seq![(buf.subrange(pos, pos + 1024), false), (buf.subrange(pos + 1024, end), false)]
        } else {
            seq![(buf.subrange(pos, end), false)]
        };
        let rest = chunk_feeds(buf, chunk, end, false);
        lemma_chunk_feeds_cover(buf, chunk, end, false);
        lemma_fed_bytes_concat(head, rest);
        assert(fed_bytes(head) =~= buf.subrange(pos, end)) by {
            reveal_with_fuel(fed_bytes, 3);
            if split_first {
                assert(head.drop_last() =~= seq![(buf.subrange(pos, pos + 1024), false)]);
                assert(head.drop_last().drop_last() =~= Seq::<Feed>::empty());
            } else {
                assert(head.drop_last() =~= Seq::<Feed>::empty());
            }
        }
        assert(buf.subrange(pos, end) + buf.skip(end) =~= buf.skip(pos));
        assert(!is_closed(feeds)) by {
            if is_closed(feeds) {
                let i = choose|i: int| 0 <= i < feeds.len() && (#[trigger] feeds[i]).1;
                if i >= head.len() {
                    assert(rest[i - head.len()].1);
                }
            }
        }
    }
}

/// However a sample is handed over, the detector gets every byte of the
/// buffer, truncated where truncation is asked for, once and in order, and
/// only the final call is marked as the last.
pub proof fn lemma_feed_plan_covers(buffer: Seq<u8>, max_non_ascii: nat, chunk: nat)
    ensures
        fed_bytes(feed_plan(buffer, max_non_ascii, chunk)) == if max_non_ascii == 0 {
            buffer
        } else {
            truncated(buffer, max_non_ascii)
        },
        feed_plan(buffer, max_non_ascii, chunk).len() > 0,
        feed_plan(buffer, max_non_ascii, chunk).last().1,
        !is_closed(feed_plan(buffer, max_non_ascii, chunk).drop_last()),
{
    let buf = if max_non_ascii == 0 {
        buffer
    } else {
        truncated(buffer, max_non_ascii)
    };
    let plan = feed_plan(buffer, max_non_ascii, chunk);
    if chunk == 0 || chunk >= buf.len() {
        assert(plan.drop_last() =~= Seq::<Feed>::empty());
        assert(fed_bytes(plan) =~= buf) by {
            reveal_with_fuel(fed_bytes, 2);
        }
    } else {
        let chunks = chunk_feeds(buf, chunk as int, 0, chunk > 1024);
        lemma_chunk_feeds_cover(buf, chunk as int, 0, chunk > 1024);
        assert(plan.drop_last() =~= chunks);
        assert(buf.skip(0) =~= buf);
        assert(fed_bytes(plan) =~= buf);
    }
}

/// Without chunking the detector is asked once: it gets the buffer,
/// truncated where truncation is asked for, in one call marked as the last.
pub proof fn lemma_single_feed(buffer: Seq<u8>, max_non_ascii: nat)
    ensures
        feed_plan(buffer, 0, 0) == seq![(buffer, true)],
        feed_plan(buffer, max_non_ascii, 0) == seq![
            (
                if max_non_ascii == 0 {
                    buffer
                } else {
                    truncated(buffer, max_non_ascii)
                },
                true,
            ),
        ],
{
}

/// The encoding that a guessed name stands for.
pub open spec fn guess_encoding(name: Seq<char>) -> LegacyEncoding {
    match name_encoding(name) {
        Some(encoding) => encoding,
        None => LegacyEncoding::Windows1252,
    }
}

/// Hands one chunk to a detector that is still open.
fn feed(det: &mut EncodingDetector, chunk: &[u8], last: bool)
    requires
        !is_closed(detector_feeds(*old(det))),
        fed_bytes(detector_feeds(*old(det))).len() + chunk@.len() <= MAX_BYTES_LEN,
    ensures
        detector_feeds(*final(det)) == detector_feeds(*old(det)).push((chunk@, last)),
        fed_bytes(detector_feeds(*final(det))) == fed_bytes(detector_feeds(*old(det))) + chunk@,
        !last ==> !is_closed(detector_feeds(*final(det))),
{
    let ghost before = detector_feeds(*det);
    feed_detector(det, chunk, last);
    proof {
        let after = detector_feeds(*det);
        assert(after.drop_last() =~= before);
        assert(after.last() == (chunk@, last));
        if !last && is_closed(after) {
            let i = choose|i: int| 0 <= i < after.len() && (#[trigger] after[i]).1;
            assert(before[i].1);
        }
    }
}

/// Feeds a sample to a detector as `feed_plan` says and returns its guess.
/// All that the detector takes, before and now, stays within the longest
/// buffer that a detector is handed.
pub fn ng(
    buffer: &[u8],
    det: &mut EncodingDetector,
    tld: Option<&[u8]>,
    max_non_ascii: usize,
    chunk: usize,
) -> (guess: LegacyEncoding)
    requires
        !is_closed(detector_feeds(*old(det))),
        fed_bytes(detector_feeds(*old(det))).len() + buffer@.len() <= MAX_BYTES_LEN,
        tld_acceptable(tld),
    ensures
        detector_feeds(*final(det)) == detector_feeds(*old(det)) + feed_plan(
            buffer@,
            max_non_ascii as nat,
            chunk as nat,
        ),
        encoding_name(guess) == guessed_name(detector_feeds(*final(det)), tld_view(tld)),
        guess == guess_encoding(guessed_name(detector_feeds(*final(det)), tld_view(tld))),
{
    let ghost start = detector_feeds(*det);
    let buf = if max_non_ascii == 0 {
        buffer
    } else {
        truncate_by_num_ascii(buffer, max_non_ascii)
    };
    if chunk == 0 || chunk >= buf.len() {
        feed(det, buf, true);
        assert(detector_feeds(*det) =~= start + feed_plan(
            buffer@,
            max_non_ascii as nat,
            chunk as nat,
        ));
    } else {
        let ghost plan = chunk_feeds(buf@, chunk as int, 0, chunk > 1024);
        let mut first = chunk > 1024;
        let mut pos: usize = 0;
        while pos < buf.len()
            invariant
                pos <= buf@.len(),
                0 < chunk < buf@.len(),
                first ==> pos == 0 && chunk > 1024,
                !is_closed(detector_feeds(*det)),
                fed_bytes(detector_feeds(*det)).len() + (buf@.len() - pos) <= MAX_BYTES_LEN,
                detector_feeds(*det) + chunk_feeds(buf@, chunk as int, pos as int, first) == start
                    + plan,
            decreases buf@.len() - pos,
        {
            let ghost before = detector_feeds(*det);
            let ghost was_first = first;
            let end = if buf.len() - pos > chunk {
                pos + chunk
            } else {
                buf.len()
            };
            let c = slice_subrange(buf, pos, end);
            if first {
                first = false;
                feed(det, slice_subrange(c, 0, 1024), false);
                feed(det, slice_subrange(c, 1024, c.len()), false);
                assert(c@.subrange(0, 1024) =~= buf@.subrange(pos as int, pos + 1024));
                assert(c@.subrange(1024, c@.len() as int) =~= buf@.subrange(
                    pos + 1024,
                    end as int,
                ));
            } else {
                feed(det, c, false);
            }
            proof {
                let rest = chunk_feeds(buf@, chunk as int, end as int, false);
                let head = if was_first {
                    seq![
                        (buf@.subrange(pos as int, pos + 1024), false),
                        (buf@.subrange(pos + 1024, end as int), false),
                    ]
                } else {
                    seq![(buf@.subrange(pos as int, end as int), false)]
                };
                assert(chunk_feeds(buf@, chunk as int, pos as int, was_first) == head + rest);
                assert(detector_feeds(*det) =~= before + head);
                assert((before + head) + rest =~= before + (head + rest));
            }
            pos = end;
        }
        assert(chunk_feeds(buf@, chunk as int, pos as int, first) =~= Seq::<Feed>::empty());
        assert(detector_feeds(*det) =~= start + plan);
        let empty: Vec<u8> = Vec::new();
        feed(det, empty.as_slice(), true);
        assert(empty@ =~= Seq::<u8>::empty());
        assert(detector_feeds(*det) =~= start + feed_plan(
            buffer@,
            max_non_ascii as nat,
            chunk as nat,
        ));
    }
    let name = guess_name(det, tld);
    proof {
        if let Some(found) = name_encoding(name@) {
            crate::encoding::lemma_name_round_trip(found);
        }
    }
    match LegacyEncoding::from_name(name) {
        Some(encoding) => encoding,
        None => LegacyEncoding::Windows1252,
    }
}

/// The encoding that a label stands for.
pub open spec fn label_encoding(label: Seq<u8>) -> Option<LegacyEncoding> {
    match label_name(label) {
        Some(name) => name_encoding(name),
        None => None,
    }
}

/// The encoding that a label stands for, `None` where it stands for none.
pub fn encoding_for_label(label: &[u8]) -> (found: Option<LegacyEncoding>)
    ensures
        found == label_encoding(label@),
{
    match name_for_label(label) {
        Some(name) => LegacyEncoding::from_name(name),
        None => None,
    }
}

/// The encoding that a detector's answer stands for: that of the label,
/// windows-1252 where the label stands for none.
pub open spec fn answer_encoding(label: Seq<u8>) -> LegacyEncoding {
    match label_encoding(label) {
        Some(encoding) => encoding,
        None => LegacyEncoding::Windows1252,
    }
}

/// The encoding that a detector's answer stands for.
pub fn encoding_for_answer(label: &[u8]) -> (encoding: LegacyEncoding)
    ensures
        encoding == answer_encoding(label@),
{
    match encoding_for_label(label) {
        Some(encoding) => encoding,
        None => LegacyEncoding::Windows1252,
    }
}

/// A guess is right for a sample when the sample's bytes read under the
/// guess give the same text as under the true encoding. Two encodings can
/// agree on a sample without being the same encoding.
pub open spec fn guess_is_right(
    encoding: LegacyEncoding,
    detected: LegacyEncoding,
    bytes: Seq<u8>,
) -> bool {
    decoded_text(encoding_name(encoding), bytes) == decoded_text(encoding_name(detected), bytes)
}

/// The text of a sample under the true encoding and under a guess.
pub struct Readings {
    pub expected: Vec<char>,
    pub actual: Vec<char>,
}

/// Reads a sample under the true encoding and under a guess.
pub fn read_both(encoding: LegacyEncoding, detected: LegacyEncoding, bytes: &[u8]) -> (readings:
    Readings)
    requires
        bytes@.len() <= MAX_BYTES_LEN,
    ensures
        decoded_text(encoding_name(encoding), bytes@) == Some(readings.expected@),
        decoded_text(encoding_name(detected), bytes@) == Some(readings.actual@),
{
    let expected = decode_sample(encoding, bytes);
    let actual = decode_sample(detected, bytes);
    Readings { expected, actual }
}

/// Whether a guess is right for a sample.
pub fn check_guess(encoding: LegacyEncoding, detected: LegacyEncoding, bytes: &[u8]) -> (right:
    bool)
    requires
        bytes@.len() <= MAX_BYTES_LEN,
    ensures
        right == guess_is_right(encoding, detected, bytes@),
        encoding == detected ==> right,
{
    let readings = read_both(encoding, detected, bytes);
    same_text(&readings.expected, &readings.actual)
}

/// Whether the answer of a detector that names its guess by a label is
/// right for a sample.
pub fn check_answer(encoding: LegacyEncoding, label: &[u8], bytes: &[u8]) -> (right: bool)
    requires
        bytes@.len() <= MAX_BYTES_LEN,
    ensures
        right == guess_is_right(encoding, answer_encoding(label@), bytes@),
{
    check_guess(encoding, encoding_for_answer(label), bytes)
}

/// The guess of `chardet` for a sample.
pub fn chardet(buffer: &[u8]) -> (guess: LegacyEncoding)
    requires
        chardet_askable(buffer@),
        buffer@.len() <= MAX_BYTES_LEN,
    ensures
        guess == answer_encoding(vstd::utf8::encode_utf8(chardet_charset(buffer@))),
{
    let name = chardet_name(buffer);
    encoding_for_answer(name.as_str().as_bytes())
}

/// Whether the guess of `chardet` is right for a sample.
pub fn check_chardet(encoding: LegacyEncoding, bytes: &[u8]) -> (right: bool)
    requires
        bytes@.len() <= MAX_BYTES_LEN,
        chardet_askable(bytes@),
    ensures
        right == guess_is_right(
            encoding,
            answer_encoding(vstd::utf8::encode_utf8(chardet_charset(bytes@))),
            bytes@,
        ),
{
    check_guess(encoding, chardet(bytes), bytes)
}

/// Whether `chardet` can be asked about a buffer.
pub fn can_ask_chardet(bytes: &[u8]) -> (askable: bool)
    ensures
        askable == chardet_askable(bytes@),
{
    let mut escape = false;
    let mut i: usize = 0;
    while i < bytes.len()
        invariant
            i <= bytes@.len(),
            forall|j: int| 0 <= j < i ==> !(#[trigger] bytes@[j] >= 0x80 && bytes@[j] != 0xA0),
            escape <==> exists|j: int| 0 <= j < i && #[trigger] bytes@[j] == 0x1B,
        decreases bytes@.len() - i,
    {
        let b = bytes[i];
        if b >= 0x80 && b != 0xA0 {
            return true;
        }
        if b == 0x1B {
            escape = true;
        }
        i = i + 1;
    }
    !escape
}

/// What the incremental detector got wrong on a sample.
pub struct Mismatch {
    /// The detector's guess.
    pub detected: LegacyEncoding,
    /// The sample read under the guess.
    pub actual_text: Vec<char>,
    /// The detector's score for its guess, zero where it has none.
    pub detected_score: i64,
    /// The sample read under the true encoding.
    pub expected_text: Vec<char>,
    /// The detector's score for the true encoding, zero where it has none.
    pub expected_score: i64,
    /// Whether the detector had no score for the true encoding.
    pub expected_disqualified: bool,
}

/// A score, zero where there is none.
pub open spec fn score_or_zero(score: Option<Option<i64>>) -> i64 {
    match score {
        Some(Some(value)) => value,
        _ => 0,
    }
}

/// Whether a report of a wrong guess says what the detector did on a sample
/// after the given calls of `feed`.
pub open spec fn mismatch_of(
    report: Mismatch,
    feeds: Seq<Feed>,
    tld: Option<Seq<u8>>,
    encoding: LegacyEncoding,
    bytes: Seq<u8>,
) -> bool {
    &&& encoding_name(report.detected) == guessed_name(feeds, tld)
    &&& decoded_text(encoding_name(report.detected), bytes) == Some(report.actual_text@)
    &&& decoded_text(encoding_name(encoding), bytes) == Some(report.expected_text@)
    &&& report.detected_score == score_or_zero(
        candidate_score(feeds, encoding_name(report.detected)),
    )
    &&& report.expected_score == score_or_zero(candidate_score(feeds, encoding_name(encoding)))
    &&& report.expected_disqualified == (candidate_score(feeds, encoding_name(encoding)) == Some(
        None::<i64>,
    ))
}

/// The guess of a fresh incremental detector for a sample.
pub open spec fn fresh_guess(
    bytes: Seq<u8>,
    tld: Option<Seq<u8>>,
    max_non_ascii: nat,
    chunk: nat,
) -> LegacyEncoding {
    guess_encoding(guessed_name(feed_plan(bytes, max_non_ascii, chunk), tld))
}

/// Asks a fresh incremental detector about a sample. `None` means that its
/// guess is right; otherwise the report says what it guessed instead.
pub fn check_ng(
    tld: Option<&[u8]>,
    encoding: LegacyEncoding,
    bytes: &[u8],
    max_non_ascii: usize,
    chunk: usize,
) -> (wrong: Option<Mismatch>)
    requires
        bytes@.len() <= MAX_BYTES_LEN,
        tld_acceptable(tld),
    ensures
        wrong is None <==> guess_is_right(
            encoding,
            fresh_guess(bytes@, tld_view(tld), max_non_ascii as nat, chunk as nat),
            bytes@,
        ),
        wrong matches Some(report) ==> report.detected == fresh_guess(
            bytes@,
            tld_view(tld),
            max_non_ascii as nat,
            chunk as nat,
        ) && mismatch_of(
            report,
            feed_plan(bytes@, max_non_ascii as nat, chunk as nat),
            tld_view(tld),
            encoding,
            bytes@,
        ),
{
    let mut det = new_detector();
    assert(!is_closed(detector_feeds(det)));
    let detected = ng(bytes, &mut det, tld, max_non_ascii, chunk);
    let ghost feeds = detector_feeds(det);
    assert(feeds =~= feed_plan(bytes@, max_non_ascii as nat, chunk as nat));
    let readings = read_both(encoding, detected, bytes);
    if same_text(&readings.expected, &readings.actual) {
        return None;
    }
    let detected_score = find_score(&det, detected.name());
    let expected_score = find_score(&det, encoding.name());
    let report = Mismatch {
        detected,
        actual_text: readings.actual,
        detected_score: match detected_score {
            Some(Some(value)) => value,
            _ => 0,
        },
        expected_text: readings.expected,
        expected_score: match expected_score {
            Some(Some(value)) => value,
            _ => 0,
        },
        expected_disqualified: match expected_score {
            Some(None) => true,
            _ => false,
        },
    };
    Some(report)
}

} // verus!

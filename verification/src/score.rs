//! Exact per-detector correctness counts and their order-independent merge.

use vstd::prelude::*;

verus! {

/// The detectors whose guesses are scored.
#[derive(Clone, Copy, Debug, PartialEq, Eq, Structural)]
pub enum Detector {
    Ng,
    Ced,
    Chardet,
    Icu,
}

/// The mathematical value of a score card: five exact counts.
pub struct Counts {
    pub total: nat,
    pub ng: nat,
    pub ced: nat,
    pub chardet: nat,
    pub icu: nat,
}

/// Field-wise sum of two count records.
pub open spec fn combine(a: Counts, b: Counts) -> Counts {
    Counts {
        total: a.total + b.total,
        ng: a.ng + b.ng,
        ced: a.ced + b.ced,
        chardet: a.chardet + b.chardet,
        icu: a.icu + b.icu,
    }
}

/// The empty record: the unit of `combine`.
pub open spec fn zero_counts() -> Counts {
    Counts { total: 0, ng: 0, ced: 0, chardet: 0, icu: 0 }
}

/// No detector is credited more often than samples were scored.
pub open spec fn counts_consistent(c: Counts) -> bool {
    c.ng <= c.total && c.ced <= c.total && c.chardet <= c.total && c.icu <= c.total
}

/// The counts after one more scored sample with the given per-detector outcomes.
pub open spec fn record_outcome(c: Counts, ng: bool, ced: bool, chardet: bool, icu: bool) -> Counts {
    Counts {
        total: c.total + 1,
        ng: c.ng + if ng { 1nat } else { 0nat },
        ced: c.ced + if ced { 1nat } else { 0nat },
        chardet: c.chardet + if chardet { 1nat } else { 0nat },
        icu: c.icu + if icu { 1nat } else { 0nat },
    }
}

/// The detector with the strictly highest count, earlier detectors winning ties.
pub open spec fn leading_detector(c: Counts) -> Detector {
    if c.icu > c.chardet && c.icu > c.ced && c.icu > c.ng {
        Detector::Icu
    } else if c.chardet > c.ced && c.chardet > c.ng {
        Detector::Chardet
    } else if c.ced > c.ng {
        Detector::Ced
    } else {
        Detector::Ng
    }
}

/// Sum of a sequence of count records, from the left.
pub open spec fn combine_all(cards: Seq<Counts>) -> Counts
    decreases cards.len(),
{
    if cards.len() == 0 {
        zero_counts()
    } else {
        combine(combine_all(cards.drop_last()), cards.last())
    }
}

/// Whether every count fits in 64 bits.
pub open spec fn fits(c: Counts) -> bool {
    c.total <= u64::MAX && c.ng <= u64::MAX && c.ced <= u64::MAX && c.chardet <= u64::MAX && c.icu
        <= u64::MAX
}

/// Whether every count can still grow by one.
pub open spec fn has_room(c: Counts) -> bool {
    c.total < u64::MAX && c.ng < u64::MAX && c.ced < u64::MAX && c.chardet < u64::MAX && c.icu
        < u64::MAX
}

/// Accumulator of per-detector correctness over a set of samples.
pub struct ScoreCard {
    total: u64,
    ng: u64,
    ced: u64,
    chardet: u64,
    icu: u64,
}

impl View for ScoreCard {
    type V = Counts;

    closed spec fn view(&self) -> Counts {
        Counts {
            total: self.total as nat,
            ng: self.ng as nat,
            ced: self.ced as nat,
            chardet: self.chardet as nat,
            icu: self.icu as nat,
        }
    }
}

impl ScoreCard {
    /// The counts of a card fit in 64 bits.
    pub proof fn lemma_bounded(&self)
        ensures
            fits(self@),
    {
    }

    /// An empty card.
    pub fn new() -> (card: ScoreCard)
        ensures
            card@ == zero_counts(),
    {
        ScoreCard { total: 0, ng: 0, ced: 0, chardet: 0, icu: 0 }
    }

    /// A card with the given counts.
    pub fn from_counts(total: u64, ng: u64, ced: u64, chardet: u64, icu: u64) -> (card: ScoreCard)
        ensures
            card@ == (Counts {
                total: total as nat,
                ng: ng as nat,
                ced: ced as nat,
                chardet: chardet as nat,
                icu: icu as nat,
            }),
    {
        ScoreCard { total, ng, ced, chardet, icu }
    }

    /// Whether no detector is credited more often than samples were scored.
    pub fn is_consistent(&self) -> (consistent: bool)
        ensures
            consistent == counts_consistent(self@),
    {
        self.ng <= self.total && self.ced <= self.total && self.chardet <= self.total && self.icu
            <= self.total
    }

    /// Whether one more sample can be counted, whatever the verdicts on it.
    pub fn has_room(&self) -> (room: bool)
        ensures
            room == has_room(self@),
    {
        self.total < u64::MAX && self.ng < u64::MAX && self.ced < u64::MAX && self.chardet
            < u64::MAX && self.icu < u64::MAX
    }

    pub fn total(&self) -> (n: u64)
        ensures
            n == self@.total,
    {
        self.total
    }

    pub fn ng(&self) -> (n: u64)
        ensures
            n == self@.ng,
    {
        self.ng
    }

    pub fn ced(&self) -> (n: u64)
        ensures
            n == self@.ced,
    {
        self.ced
    }

    pub fn chardet(&self) -> (n: u64)
        ensures
            n == self@.chardet,
    {
        self.chardet
    }

    pub fn icu(&self) -> (n: u64)
        ensures
            n == self@.icu,
    {
        self.icu
    }

    /// The count credited to one detector.
    pub fn correct(&self, detector: Detector) -> (n: u64)
        ensures
            n == match detector {
                Detector::Ng => self@.ng,
                Detector::Ced => self@.ced,
                Detector::Chardet => self@.chardet,
                Detector::Icu => self@.icu,
            },
    {
        match detector {
            Detector::Ng => self.ng,
            Detector::Ced => self.ced,
            Detector::Chardet => self.chardet,
            Detector::Icu => self.icu,
        }
    }

    /// Folds `other` into this card by exact field-wise addition. Every sum
    /// must fit in 64 bits.
    pub fn add(&mut self, other: &ScoreCard)
        requires
            fits(combine(old(self)@, other@)),
        ensures
            final(self)@ == combine(old(self)@, other@),
            counts_consistent(old(self)@) && counts_consistent(other@) ==> counts_consistent(
                final(self)@,
            ),
    {
        self.total = self.total + other.total;
        self.ng = self.ng + other.ng;
        self.ced = self.ced + other.ced;
        self.chardet = self.chardet + other.chardet;
        self.icu = self.icu + other.icu;
    }

    /// As `add`, but leaves the card unchanged and reports `false` where
    /// some sum does not fit in 64 bits.
    pub fn checked_add(&mut self, other: &ScoreCard) -> (done: bool)
        ensures
            done == fits(combine(old(self)@, other@)),
            done ==> final(self)@ == combine(old(self)@, other@),
            !done ==> final(self)@ == old(self)@,
            counts_consistent(old(self)@) && counts_consistent(other@) ==> counts_consistent(
                final(self)@,
            ),
    {
        if other.total <= u64::MAX - self.total && other.ng <= u64::MAX - self.ng && other.ced
            <= u64::MAX - self.ced && other.chardet <= u64::MAX - self.chardet && other.icu
            <= u64::MAX - self.icu {
            self.add(other);
            true
        } else {
            false
        }
    }

    /// Counts one scored sample with the given per-detector outcomes.
    pub fn record(&mut self, ng: bool, ced: bool, chardet: bool, icu: bool)
        requires
            fits(record_outcome(old(self)@, ng, ced, chardet, icu)),
        ensures
            final(self)@ == record_outcome(old(self)@, ng, ced, chardet, icu),
            counts_consistent(old(self)@) ==> counts_consistent(final(self)@),
    {
        self.total = self.total + 1;
        if ng {
            self.ng = self.ng + 1;
        }
        if ced {
            self.ced = self.ced + 1;
        }
        if chardet {
            self.chardet = self.chardet + 1;
        }
        if icu {
            self.icu = self.icu + 1;
        }
    }

    /// The detector reported as the winner of this card.
    pub fn winner(&self) -> (d: Detector)
        ensures
            d == leading_detector(self@),
    {
        let mut winner = Detector::Ng;
        if self.ced > self.ng {
            winner = Detector::Ced;
        }
        if self.chardet > self.ced && self.chardet > self.ng {
            winner = Detector::Chardet;
        }
        if self.icu > self.chardet && self.icu > self.ced && self.icu > self.ng {
            winner = Detector::Icu;
        }
        winner
    }
}

/// Merging score cards is commutative.
pub proof fn lemma_combine_commutative(a: Counts, b: Counts)
    ensures
        combine(a, b) == combine(b, a),
{
}

/// Merging score cards is associative, and any two of three cards may be
/// merged first.
pub proof fn lemma_combine_associative(a: Counts, b: Counts, c: Counts)
    ensures
        combine(combine(a, b), c) == combine(a, combine(b, c)),
        combine(a, combine(b, c)) == combine(b, combine(a, c)),
{
}

/// The empty card is the unit of merging.
pub proof fn lemma_combine_zero(a: Counts)
    ensures
        combine(a, zero_counts()) == a,
        combine(zero_counts(), a) == a,
{
}

} // verus!

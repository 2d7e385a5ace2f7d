//! Best-known feedback per keyboard letter, merged across all
//! submitted guesses. A letter's status only ever moves up the
//! priority order `Correct > Present > Absent > Unknown`.

use vstd::prelude::*;
use crate::cell::{join, priority, verdict_status, CellValue, LetterStatus};

verus! {

/// The status a whole guess contributes for letter `c`: the best of
/// the verdicts among its first `n` positions that speak about `c`,
/// or `Unknown` when none does.
pub open spec fn guess_status(vals: Seq<CellValue>, n: int, c: char) -> LetterStatus
    decreases n,
{
    if n <= 0 {
        LetterStatus::Unknown
    } else {
        let rest = guess_status(vals, n - 1, c);
        if vals[n - 1].spec_letter() == c {
            join(rest, verdict_status(vals[n - 1]))
        } else {
            rest
        }
    }
}

/// The status recorded for `c` in a list of keyboard entries: the
/// most recently added entry for `c` wins, `Unknown` if there is none.
pub open spec fn status_in(entries: Seq<(char, LetterStatus)>, c: char) -> LetterStatus
    decreases entries.len(),
{
    if entries.len() == 0 {
        LetterStatus::Unknown
    } else if entries.last().0 == c {
        entries.last().1
    } else {
        status_in(entries.drop_last(), c)
    }
}

/// Feedback state of the on-screen keyboard.
#[derive(Clone, Debug)]
pub struct KeyboardStatus {
    entries: Vec<(char, LetterStatus)>,
}

impl KeyboardStatus {
    /// The status this keyboard records for letter `c`.
    pub closed spec fn spec_status(self, c: char) -> LetterStatus {
        status_in(self.entries@, c)
    }

    /// A keyboard that knows nothing about any letter yet.
    pub fn new() -> (s: KeyboardStatus)
        ensures
            forall|c: char| s.spec_status(c) is Unknown,
    {
        KeyboardStatus { entries: Vec::new() }
    }

    /// The best-known status of letter `c`, `Unknown` if the letter
    /// has not appeared in any submitted guess.
    pub fn get_status(&self, c: char) -> (r: LetterStatus)
        ensures
            r == self.spec_status(c),
    {
        let mut i: usize = self.entries.len();
        proof {
            assert(self.entries@.take(i as int) =~= self.entries@);
        }
        while i > 0
            invariant
                i <= self.entries@.len(),
                status_in(self.entries@, c) == status_in(self.entries@.take(i as int), c),
            decreases i,
        {
            let (k, v) = self.entries[i - 1];
            proof {
                assert(self.entries@.take(i as int).last() == self.entries@[i - 1]);
                assert(self.entries@.take(i as int).drop_last() =~= self.entries@.take(i - 1));
            }
            if k == c {
                return v;
            }
            i = i - 1;
        }
        proof {
            assert(self.entries@.take(0) =~= Seq::<(char, LetterStatus)>::empty());
        }
        LetterStatus::Unknown
    }

    /// Merge one evaluated guess into the keyboard: every letter the
    /// guess speaks about takes the higher-priority status of its old
    /// one and the best verdict the guess gives it; every other letter
    /// keeps its status.
    pub fn update_status(&mut self, vals: &Vec<CellValue>)
        ensures
            forall|c: char| final(self).spec_status(c) == join(
                old(self).spec_status(c),
                guess_status(vals@, vals@.len() as int, c),
            ),
    {
        let ghost init = *self;
        let mut i: usize = 0;
        while i < vals.len()
            invariant
                i <= vals@.len(),
                forall|c: char| self.spec_status(c) == join(
                    init.spec_status(c),
                    guess_status(vals@, i as int, c),
                ),
            decreases vals@.len() - i,
        {
            let v = vals[i];
            let letter = v.letter();
            let incoming = status_of_verdict(v);
            let current = self.get_status(letter);
            let ghost before = self.entries@;
            if priority_of(incoming) > priority_of(current) {
                self.entries.push((letter, incoming));
            }
            proof {
                assert forall|c: char| self.spec_status(c) == join(
                    init.spec_status(c),
                    guess_status(vals@, i + 1, c),
                ) by {
                    lemma_join_assoc(init.spec_status(c), guess_status(vals@, i as int, c),
                        verdict_status(vals@[i as int]));
                    if self.entries@ != before {
                        assert(self.entries@.drop_last() =~= before);
                    }
                }
            }
            i = i + 1;
        }
    }
}

/// Executable form of `priority`.
fn priority_of(s: LetterStatus) -> (p: u8)
    ensures
        p as int == priority(s),
{
    match s {
        LetterStatus::Unknown => 0,
        LetterStatus::Absent => 1,
        LetterStatus::Present => 2,
        LetterStatus::Correct => 3,
    }
}

/// Executable form of `verdict_status`.
fn status_of_verdict(v: CellValue) -> (s: LetterStatus)
    ensures
        s == verdict_status(v),
{
    match v {
        CellValue::Correct(_) => LetterStatus::Correct,
        CellValue::Present(_) => LetterStatus::Present,
        CellValue::Absent(_) => LetterStatus::Absent,
    }
}

/// The merge associates: folding verdicts one by one into a stored
/// status lands on the same result as merging their combined best.
pub proof fn lemma_join_assoc(a: LetterStatus, b: LetterStatus, c: LetterStatus)
    ensures
        join(join(a, b), c) == join(a, join(b, c)),
{
}

/// The merge does not care in which order two statuses meet: the
/// priorities tell the statuses apart, so the higher one wins either
/// way.
pub proof fn lemma_join_commutes(a: LetterStatus, b: LetterStatus)
    ensures
        join(a, b) == join(b, a),
{
}

/// Merging the same guess a second time changes nothing: the per-letter
/// status after two identical updates equals the status after one.
pub proof fn lemma_update_idempotent(s: KeyboardStatus, vals: Seq<CellValue>, c: char)
    ensures
        join(
            join(s.spec_status(c), guess_status(vals, vals.len() as int, c)),
            guess_status(vals, vals.len() as int, c),
        ) == join(s.spec_status(c), guess_status(vals, vals.len() as int, c)),
{
}

/// A letter's status never moves down: an update keeps at least the
/// stored priority, and a letter once `Correct` stays `Correct` through
/// every later update.
pub proof fn lemma_update_monotone(s: KeyboardStatus, vals: Seq<CellValue>, c: char)
    ensures
        priority(join(s.spec_status(c), guess_status(vals, vals.len() as int, c))) >= priority(
            s.spec_status(c),
        ),
        s.spec_status(c) is Correct ==> join(
            s.spec_status(c),
            guess_status(vals, vals.len() as int, c),
        ) is Correct,
{
}

} // verus!

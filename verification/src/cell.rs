//! Per-letter verdicts produced by the guess evaluator, and the
//! best-known status a letter can hold on the on-screen keyboard.

use vstd::prelude::*;

verus! {

/// Verdict for one position of a submitted guess: the letter at this
/// position is in the right spot, elsewhere in the secret, or not
/// available in the secret at all.
#[derive(Clone, Copy, Debug, PartialEq, Eq, Structural)]
pub enum CellValue {
    Correct(char),
    Present(char),
    Absent(char),
}

impl CellValue {
    /// The letter this verdict speaks about.
    pub open spec fn spec_letter(self) -> char {
        match self {
            CellValue::Correct(c) => c,
            CellValue::Present(c) => c,
            CellValue::Absent(c) => c,
        }
    }

    /// The letter this verdict speaks about.
    pub fn letter(self) -> (c: char)
        ensures
            c == self.spec_letter(),
    {
        match self {
            CellValue::Correct(c) => c,
            CellValue::Present(c) => c,
            CellValue::Absent(c) => c,
        }
    }
}

/// Best feedback seen so far for a keyboard letter. `Unknown` means the
/// letter has not appeared in any submitted guess yet.
#[derive(Clone, Copy, Debug, PartialEq, Eq, Structural)]
pub enum LetterStatus {
    Unknown,
    Absent,
    Present,
    Correct,
}

/// Priority of a status: `Correct` beats `Present` beats `Absent` beats
/// `Unknown`. A keyboard letter only ever moves up this order.
pub open spec fn priority(s: LetterStatus) -> int {
    match s {
        LetterStatus::Unknown => 0,
        LetterStatus::Absent => 1,
        LetterStatus::Present => 2,
        LetterStatus::Correct => 3,
    }
}

/// The status a single verdict contributes for its letter.
pub open spec fn verdict_status(v: CellValue) -> LetterStatus {
    match v {
        CellValue::Correct(_) => LetterStatus::Correct,
        CellValue::Present(_) => LetterStatus::Present,
        CellValue::Absent(_) => LetterStatus::Absent,
    }
}

/// Merge of two statuses: the one with the higher priority wins; on a
/// tie the stored status is kept.
pub open spec fn join(stored: LetterStatus, incoming: LetterStatus) -> LetterStatus {
    if priority(incoming) > priority(stored) {
        incoming
    } else {
        stored
    }
}

} // verus!

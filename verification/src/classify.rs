//! The guess evaluator: scores a guess against the secret word,
//! position by position, with the duplicate-letter rules of the game.
//!
//! Exact matches claim letters of the secret first; the remaining
//! positions then claim what is left of each letter's count from left
//! to right. A position whose letter has no count left is absent.

use vstd::prelude::*;
use crate::cell::CellValue;

verus! {

/// How many of the first `n` characters of `s` equal `c`.
pub open spec fn count_upto(s: Seq<char>, c: char, n: int) -> nat
    decreases n,
{
    if n <= 0 {
        0
    } else {
        count_upto(s, c, n - 1) + (if s[n - 1] == c {
            1nat
        } else {
            0nat
        })
    }
}

/// How many occurrences of `c` the secret holds in total.
pub open spec fn count_of(s: Seq<char>, c: char) -> nat {
    count_upto(s, c, s.len() as int)
}

/// How many of the first `n` positions are exact matches on letter `c`:
/// the guess and the secret both hold `c` there.
pub open spec fn exact_upto(secret: Seq<char>, guess: Seq<char>, c: char, n: int) -> nat
    decreases n,
{
    if n <= 0 {
        0
    } else {
        exact_upto(secret, guess, c, n - 1) + (if guess[n - 1] == c && secret[n - 1] == c {
            1nat
        } else {
            0nat
        })
    }
}

/// How many of the first `n` positions are pending claims on letter `c`:
/// the guess holds `c` there but the secret holds a different letter.
pub open spec fn pending_upto(secret: Seq<char>, guess: Seq<char>, c: char, n: int) -> nat
    decreases n,
{
    if n <= 0 {
        0
    } else {
        pending_upto(secret, guess, c, n - 1) + (if guess[n - 1] == c && secret[n - 1] != c {
            1nat
        } else {
            0nat
        })
    }
}

/// The verdict the evaluator owes position `i`: an exact match is
/// `Correct`; otherwise the position is `Present` exactly when the
/// exact matches on its letter, together with the pending positions to
/// its left, have not yet used up the secret's count of that letter.
pub open spec fn verdict_at(secret: Seq<char>, guess: Seq<char>, i: int) -> CellValue
    recommends
        secret.len() == guess.len(),
        0 <= i < guess.len(),
{
    let c = guess[i];
    if secret[i] == c {
        CellValue::Correct(c)
    } else if exact_upto(secret, guess, c, guess.len() as int) + pending_upto(secret, guess, c, i)
        < count_of(secret, c) {
        CellValue::Present(c)
    } else {
        CellValue::Absent(c)
    }
}

/// The whole verdict sequence for a guess.
pub open spec fn classify_spec(secret: Seq<char>, guess: Seq<char>) -> Seq<CellValue> {
    Seq::new(guess.len(), |i: int| verdict_at(secret, guess, i))
}

/// A guess wins when every position came back `Correct`.
pub open spec fn is_winning(vals: Seq<CellValue>) -> bool {
    forall|i: int| 0 <= i < vals.len() ==> vals[i] is Correct
}

/// No letter occurs twice in `s`.
pub open spec fn distinct(s: Seq<char>) -> bool {
    forall|i: int, j: int| 0 <= i < j < s.len() ==> s[i] != s[j]
}

proof fn lemma_count_zero(s: Seq<char>, c: char, n: int)
    requires
        n <= s.len(),
        forall|j: int| 0 <= j < n ==> s[j] != c,
    ensures
        count_upto(s, c, n) == 0,
    decreases n,
{
    if n > 0 {
        lemma_count_zero(s, c, n - 1);
    }
}

proof fn lemma_count_pos(s: Seq<char>, c: char, k: int, n: int)
    requires
        0 <= k < n <= s.len(),
        s[k] == c,
    ensures
        count_upto(s, c, n) >= 1,
    decreases n,
{
    if k < n - 1 {
        lemma_count_pos(s, c, k, n - 1);
    }
}

proof fn lemma_count_distinct(s: Seq<char>, c: char, n: int)
    requires
        n <= s.len(),
        distinct(s),
    ensures
        count_upto(s, c, n) <= 1,
    decreases n,
{
    if n > 0 {
        lemma_count_distinct(s, c, n - 1);
        if s[n - 1] == c {
            lemma_count_zero(s, c, n - 1);
        }
    }
}

proof fn lemma_exact_zero(secret: Seq<char>, guess: Seq<char>, c: char, n: int)
    requires
        forall|j: int| 0 <= j < n ==> !(guess[j] == c && secret[j] == c),
    ensures
        exact_upto(secret, guess, c, n) == 0,
    decreases n,
{
    if n > 0 {
        lemma_exact_zero(secret, guess, c, n - 1);
    }
}

proof fn lemma_pending_zero(secret: Seq<char>, guess: Seq<char>, c: char, n: int)
    requires
        forall|j: int| 0 <= j < n ==> !(guess[j] == c && secret[j] != c),
    ensures
        pending_upto(secret, guess, c, n) == 0,
    decreases n,
{
    if n > 0 {
        lemma_pending_zero(secret, guess, c, n - 1);
    }
}

/// The exact matches on a letter never outnumber the letter's
/// occurrences in the secret.
proof fn lemma_exact_le_count(secret: Seq<char>, guess: Seq<char>, c: char, n: int)
    requires
        n <= secret.len(),
    ensures
        exact_upto(secret, guess, c, n) <= count_upto(secret, c, n),
    decreases n,
{
    if n > 0 {
        lemma_exact_le_count(secret, guess, c, n - 1);
    }
}

/// When neither word repeats a letter, the verdicts take the simple
/// form: an exact match is `Correct`, any other letter of the guess is
/// `Present` exactly when the secret contains it somewhere.
pub proof fn lemma_classify_distinct(secret: Seq<char>, guess: Seq<char>, i: int)
    requires
        secret.len() == guess.len(),
        distinct(secret),
        distinct(guess),
        0 <= i < guess.len(),
    ensures
        guess[i] == secret[i] ==> verdict_at(secret, guess, i) == CellValue::Correct(guess[i]),
        guess[i] != secret[i] && secret.contains(guess[i]) ==> verdict_at(secret, guess, i)
            == CellValue::Present(guess[i]),
        guess[i] != secret[i] && !secret.contains(guess[i]) ==> verdict_at(secret, guess, i)
            == CellValue::Absent(guess[i]),
{
    let c = guess[i];
    if c != secret[i] {
        assert(forall|j: int| 0 <= j < guess.len() && j != i ==> guess[j] != c);
        lemma_exact_zero(secret, guess, c, guess.len() as int);
        lemma_pending_zero(secret, guess, c, i);
        if secret.contains(c) {
            let k = choose|k: int| 0 <= k < secret.len() && secret[k] == c;
            lemma_count_pos(secret, c, k, secret.len() as int);
        } else {
            lemma_count_zero(secret, c, secret.len() as int);
        }
    }
}

/// Evaluating a word against itself yields `Correct` everywhere.
pub proof fn lemma_classify_self(word: Seq<char>)
    ensures
        forall|i: int| 0 <= i < word.len() ==> classify_spec(word, word)[i] == CellValue::Correct(
            word[i],
        ),
{
}

/// A guess wins if and only if it is the secret word itself.
pub proof fn lemma_winning_iff_secret(secret: Seq<char>, guess: Seq<char>)
    requires
        secret.len() == guess.len(),
    ensures
        is_winning(classify_spec(secret, guess)) <==> guess == secret,
{
    if is_winning(classify_spec(secret, guess)) {
        assert forall|i: int| 0 <= i < guess.len() implies guess[i] == secret[i] by {
            assert(classify_spec(secret, guess)[i] is Correct);
            assert(classify_spec(secret, guess)[i] == verdict_at(secret, guess, i));
        }
        assert(guess =~= secret);
    }
    if guess == secret {
        assert forall|i: int| 0 <= i < guess.len() implies classify_spec(secret, guess)[i]
            is Correct by {
            assert(classify_spec(secret, guess)[i] == verdict_at(secret, guess, i));
        }
    }
}

fn count_all_exec(s: &Vec<char>, c: char) -> (k: usize)
    ensures
        k == count_of(s@, c),
{
    let mut k: usize = 0;
    let mut i: usize = 0;
    while i < s.len()
        invariant
            i <= s@.len(),
            k <= i,
            k == count_upto(s@, c, i as int),
        decreases s@.len() - i,
    {
        if s[i] == c {
            k = k + 1;
        }
        i = i + 1;
    }
    k
}

fn exact_all_exec(secret: &Vec<char>, guess: &Vec<char>, c: char) -> (k: usize)
    requires
        secret@.len() == guess@.len(),
    ensures
        k == exact_upto(secret@, guess@, c, guess@.len() as int),
{
    let mut k: usize = 0;
    let mut i: usize = 0;
    while i < guess.len()
        invariant
            i <= guess@.len(),
            secret@.len() == guess@.len(),
            k <= i,
            k == exact_upto(secret@, guess@, c, i as int),
        decreases guess@.len() - i,
    {
        if guess[i] == c && secret[i] == c {
            k = k + 1;
        }
        i = i + 1;
    }
    k
}

fn pending_upto_exec(secret: &Vec<char>, guess: &Vec<char>, c: char, n: usize) -> (k: usize)
    requires
        secret@.len() == guess@.len(),
        n <= guess@.len(),
    ensures
        k == pending_upto(secret@, guess@, c, n as int),
{
    let mut k: usize = 0;
    let mut i: usize = 0;
    while i < n
        invariant
            i <= n <= guess@.len(),
            secret@.len() == guess@.len(),
            k <= i,
            k == pending_upto(secret@, guess@, c, i as int),
        decreases n - i,
    {
        if guess[i] == c && secret[i] != c {
            k = k + 1;
        }
        i = i + 1;
    }
    k
}

/// Score a guess against the secret word. Both words must have the
/// same length; the result holds one verdict per position, as the
/// duplicate-aware two-pass rules demand.
pub fn evaluate_guess(word: &Vec<char>, guess: &Vec<char>) -> (vals: Vec<CellValue>)
    requires
        word@.len() == guess@.len(),
    ensures
        vals@ == classify_spec(word@, guess@),
{
    let mut vals: Vec<CellValue> = Vec::new();
    let mut i: usize = 0;
    while i < guess.len()
        invariant
            i <= guess@.len(),
            word@.len() == guess@.len(),
            vals@.len() == i,
            forall|j: int| 0 <= j < i ==> vals@[j] == verdict_at(word@, guess@, j),
        decreases guess@.len() - i,
    {
        let c = guess[i];
        let cell = if word[i] == c {
            CellValue::Correct(c)
        } else {
            let total = count_all_exec(word, c);
            let exact = exact_all_exec(word, guess, c);
            proof {
                lemma_exact_le_count(word@, guess@, c, word@.len() as int);
            }
            let remaining = total - exact;
            let pending = pending_upto_exec(word, guess, c, i);
            if pending < remaining {
                CellValue::Present(c)
            } else {
                CellValue::Absent(c)
            }
        };
        assert(cell == verdict_at(word@, guess@, i as int));
        vals.push(cell);
        i = i + 1;
    }
    proof {
        assert(vals@ =~= classify_spec(word@, guess@));
    }
    vals
}

/// Whether every verdict of an evaluated guess is `Correct`.
pub fn all_correct(vals: &Vec<CellValue>) -> (r: bool)
    ensures
        r == is_winning(vals@),
{
    let mut i: usize = 0;
    while i < vals.len()
        invariant
            i <= vals@.len(),
            forall|j: int| 0 <= j < i ==> vals@[j] is Correct,
        decreases vals@.len() - i,
    {
        match vals[i] {
            CellValue::Correct(_) => {
                i = i + 1;
            },
            _ => {
                return false;
            },
        }
    }
    true
}

} // verus!

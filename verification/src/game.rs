//! The game state machine: the secret word, the guess history, the
//! in-progress input and the outcome, together with the transition
//! taken on each input event.

use vstd::prelude::*;
use crate::cell::{join, CellValue};
use crate::classify::{classify_spec, evaluate_guess, all_correct, is_winning};
use crate::keyboard_status::{guess_status, KeyboardStatus};
use crate::input::{lower_char, to_ascii_lowercase};

verus! {

/// Overall outcome of a game. `InProgress` is the initial state;
/// `Won` and `Lost` are terminal.
#[derive(Clone, Copy, Debug, PartialEq, Eq, Structural)]
pub enum GameState {
    InProgress,
    Won,
    Lost,
}

/// An input event handed to the state machine.
#[derive(Clone, Copy, Debug, PartialEq, Eq, Structural)]
pub enum PaudleMsg {
    TypeLetter(char),
    Backspace,
    Submit,
}

/// Whether `w` is one of the accepted words.
pub open spec fn word_in_list(words: Seq<Vec<char>>, w: Seq<char>) -> bool {
    exists|i: int| 0 <= i < words.len() && (#[trigger] words[i])@ == w
}

/// The whole game: configuration, accepted word list, secret word and
/// the mutable state the transitions act on.
pub struct Paudle {
    pub word: Vec<char>,
    pub words: Vec<Vec<char>>,
    pub guesses: Vec<Vec<CellValue>>,
    pub keyboard_status: KeyboardStatus,
    pub current_guess: Vec<char>,
    pub word_length: usize,
    pub max_guesses: usize,
    pub bad_guess: bool,
    pub game_state: GameState,
}

impl Paudle {
    /// Internal consistency of a game value: the secret fits the
    /// configured length, the typed input never exceeds it, every
    /// recorded guess has that length, and a game still in progress
    /// has guesses left to spend.
    pub open spec fn wf(self) -> bool {
        &&& self.word@.len() == self.word_length
        &&& self.current_guess@.len() <= self.word_length
        &&& self.max_guesses >= 1
        &&& self.guesses@.len() <= self.max_guesses
        &&& (self.game_state is InProgress ==> self.guesses@.len() < self.max_guesses)
        &&& forall|i: int| 0 <= i < self.guesses@.len() ==> (#[trigger] self.guesses@[i])@.len()
            == self.word_length
    }

    /// The transition relation of the state machine: how one input
    /// event takes the game from `pre` to `post`, and whether the view
    /// must be redrawn. Terminal states accept nothing; typing extends
    /// the input up to the word length; backspace trims it and clears
    /// the invalid-word flag; submitting a full accepted word records
    /// its verdicts, feeds the keyboard, and decides the outcome.
    pub open spec fn step(pre: Paudle, msg: PaudleMsg, post: Paudle, redraw: bool) -> bool {
        if pre.game_state !is InProgress {
            post == pre && redraw == false
        } else {
            match msg {
                PaudleMsg::TypeLetter(c) => {
                    if pre.current_guess@.len() < pre.word_length {
                        &&& post == (Paudle { current_guess: post.current_guess, ..pre })
                        &&& post.current_guess@ == pre.current_guess@.push(lower_char(c))
                        &&& redraw == true
                    } else {
                        post == pre && redraw == false
                    }
                },
                PaudleMsg::Backspace => {
                    &&& post == (Paudle {
                        current_guess: post.current_guess,
                        bad_guess: false,
                        ..pre
                    })
                    &&& post.current_guess@ == (if pre.current_guess@.len() == 0 {
                        pre.current_guess@
                    } else {
                        pre.current_guess@.drop_last()
                    })
                    &&& redraw == true
                },
                PaudleMsg::Submit => {
                    if pre.current_guess@.len() != pre.word_length {
                        post == pre && redraw == false
                    } else if !word_in_list(pre.words@, pre.current_guess@) {
                        &&& post == (Paudle { bad_guess: true, ..pre })
                        &&& redraw == true
                    } else {
                        let vals = classify_spec(pre.word@, pre.current_guess@);
                        &&& post == (Paudle {
                            guesses: post.guesses,
                            keyboard_status: post.keyboard_status,
                            current_guess: post.current_guess,
                            game_state: post.game_state,
                            ..pre
                        })
                        &&& post.guesses@.len() == pre.guesses@.len() + 1
                        &&& forall|k: int| 0 <= k < pre.guesses@.len() ==> post.guesses@[k]
                            == pre.guesses@[k]
                        &&& post.guesses@[pre.guesses@.len() as int]@ == vals
                        &&& forall|c: char| post.keyboard_status.spec_status(c) == join(
                            pre.keyboard_status.spec_status(c),
                            guess_status(vals, vals.len() as int, c),
                        )
                        &&& post.current_guess@ == Seq::<char>::empty()
                        &&& post.game_state == (if is_winning(vals) {
                            GameState::Won
                        } else if pre.guesses@.len() + 1 == pre.max_guesses {
                            GameState::Lost
                        } else {
                            GameState::InProgress
                        })
                        &&& redraw == true
                    }
                },
            }
        }
    }

    /// Start a game with a chosen secret word.
    pub fn create_with_secret(
        word: Vec<char>,
        words: Vec<Vec<char>>,
        word_length: usize,
        max_guesses: usize,
    ) -> (game: Paudle)
        requires
            word@.len() == word_length,
            max_guesses >= 1,
        ensures
            game.wf(),
            game == (Paudle {
                word: word,
                words: words,
                guesses: game.guesses,
                keyboard_status: game.keyboard_status,
                current_guess: game.current_guess,
                word_length: word_length,
                max_guesses: max_guesses,
                bad_guess: false,
                game_state: GameState::InProgress,
            }),
            game.guesses@.len() == 0,
            game.current_guess@.len() == 0,
            forall|c: char| game.keyboard_status.spec_status(c) is Unknown,
    {
        Paudle {
            word,
            words,
            guesses: Vec::new(),
            keyboard_status: KeyboardStatus::new(),
            current_guess: Vec::new(),
            word_length,
            max_guesses,
            bad_guess: false,
            game_state: GameState::InProgress,
        }
    }

    /// Start a game whose secret is drawn at random from the accepted
    /// word list.
    pub fn create(words: Vec<Vec<char>>, word_length: usize, max_guesses: usize) -> (game: Paudle)
        requires
            words@.len() > 0,
            max_guesses >= 1,
            forall|i: int| 0 <= i < words@.len() ==> (#[trigger] words@[i])@.len() == word_length,
        ensures
            game.wf(),
            exists|i: int| 0 <= i < words@.len() && game.word@ == (#[trigger] words@[i])@,
            game.words == words,
            game.word_length == word_length,
            game.max_guesses == max_guesses,
            game.guesses@.len() == 0,
            game.current_guess@.len() == 0,
            game.bad_guess == false,
            game.game_state is InProgress,
            forall|c: char| game.keyboard_status.spec_status(c) is Unknown,
    {
        let idx = choose_index(words.len());
        let word = clone_chars(&words[idx]);
        Paudle::create_with_secret(word, words, word_length, max_guesses)
    }

    /// Feed one input event into the game. Returns whether the view
    /// must be redrawn. The whole behaviour is given by `step`.
    pub fn update(&mut self, msg: PaudleMsg) -> (redraw: bool)
        requires
            old(self).wf(),
        ensures
            final(self).wf(),
            Paudle::step(*old(self), msg, *final(self), redraw),
    {
        match self.game_state {
            GameState::InProgress => {},
            _ => {
                return false;
            },
        }
        match msg {
            PaudleMsg::TypeLetter(c) => {
                if self.current_guess.len() < self.word_length {
                    let lc = to_ascii_lowercase(c);
                    self.current_guess.push(lc);
                    true
                } else {
                    false
                }
            },
            PaudleMsg::Backspace => {
                self.bad_guess = false;
                self.current_guess.pop();
                true
            },
            PaudleMsg::Submit => {
                if self.current_guess.len() == self.word_length {
                    if !is_valid_word(&self.words, &self.current_guess) {
                        self.bad_guess = true;
                        return true;
                    }
                    let new_guess = evaluate_guess(&self.word, &self.current_guess);
                    self.keyboard_status.update_status(&new_guess);
                    let correct = all_correct(&new_guess);
                    self.guesses.push(new_guess);
                    self.current_guess = Vec::new();
                    if correct {
                        self.game_state = GameState::Won;
                    } else if self.guesses.len() == self.max_guesses {
                        self.game_state = GameState::Lost;
                    }
                    true
                } else {
                    false
                }
            },
        }
    }
}

/// A game that is already won or lost accepts nothing: every event is
/// a no-op that asks for no redraw.
pub proof fn lemma_terminal_frozen(pre: Paudle, msg: PaudleMsg, post: Paudle, redraw: bool)
    requires
        Paudle::step(pre, msg, post, redraw),
        pre.game_state !is InProgress,
    ensures
        post == pre,
        redraw == false,
{
}

/// Submitting a full-length word that the list does not accept sets
/// only the transient invalid-guess flag: history, keyboard, typed
/// input and outcome all stay as they were.
pub proof fn lemma_invalid_word_submit(pre: Paudle, post: Paudle, redraw: bool)
    requires
        Paudle::step(pre, PaudleMsg::Submit, post, redraw),
        pre.game_state is InProgress,
        pre.current_guess@.len() == pre.word_length,
        !word_in_list(pre.words@, pre.current_guess@),
    ensures
        post == (Paudle { bad_guess: true, ..pre }),
        redraw == true,
{
}

/// An accepted submission of the secret itself wins the game, however
/// many guesses are left; any other accepted submission loses the game
/// exactly when it spends the last guess, and otherwise leaves it in
/// progress.
pub proof fn lemma_submit_outcome(pre: Paudle, post: Paudle, redraw: bool)
    requires
        Paudle::step(pre, PaudleMsg::Submit, post, redraw),
        pre.wf(),
        pre.game_state is InProgress,
        pre.current_guess@.len() == pre.word_length,
        word_in_list(pre.words@, pre.current_guess@),
    ensures
        pre.current_guess@ == pre.word@ ==> post.game_state is Won,
        pre.current_guess@ != pre.word@ && pre.guesses@.len() + 1 == pre.max_guesses
            ==> post.game_state is Lost,
        pre.current_guess@ != pre.word@ && pre.guesses@.len() + 1 < pre.max_guesses
            ==> post.game_state is InProgress,
{
    crate::classify::lemma_winning_iff_secret(pre.word@, pre.current_guess@);
}

/// Character-for-character equality of two words.
pub fn chars_eq(a: &Vec<char>, b: &Vec<char>) -> (r: bool)
    ensures
        r == (a@ == b@),
{
    if a.len() != b.len() {
        return false;
    }
    let mut i: usize = 0;
    while i < a.len()
        invariant
            i <= a@.len(),
            a@.len() == b@.len(),
            forall|j: int| 0 <= j < i ==> a@[j] == b@[j],
        decreases a@.len() - i,
    {
        if a[i] != b[i] {
            return false;
        }
        i = i + 1;
    }
    proof {
        assert(a@ =~= b@);
    }
    true
}

/// Whether a candidate word stands in the accepted word list.
pub fn is_valid_word(words: &Vec<Vec<char>>, candidate: &Vec<char>) -> (r: bool)
    ensures
        r == word_in_list(words@, candidate@),
{
    let mut i: usize = 0;
    while i < words.len()
        invariant
            i <= words@.len(),
            forall|j: int| 0 <= j < i ==> (#[trigger] words@[j])@ != candidate@,
        decreases words@.len() - i,
    {
        if chars_eq(&words[i], candidate) {
            return true;
        }
        i = i + 1;
    }
    false
}

/// A fresh copy of a word.
pub fn clone_chars(src: &Vec<char>) -> (r: Vec<char>)
    ensures
        r@ == src@,
{
    let mut r: Vec<char> = Vec::new();
    let mut i: usize = 0;
    while i < src.len()
        invariant
            i <= src@.len(),
            r@ == src@.take(i as int),
        decreases src@.len() - i,
    {
        r.push(src[i]);
        proof {
            assert(r@ =~= src@.take(i + 1));
        }
        i = i + 1;
    }
    proof {
        assert(src@.take(src@.len() as int) =~= src@);
    }
    r
}

/// Relies on rand: sampling `gen_range(0..n)` on the thread-local
/// generator panics only on an empty range and returns a value within
/// the range. Nothing more is assumed of the drawn value.
#[verifier::external_body]
fn choose_index(n: usize) -> (i: usize)
    requires
        n > 0,
    ensures
        i < n,
{
    rand::Rng::gen_range(&mut rand::thread_rng(), 0..n)
}

} // verus!

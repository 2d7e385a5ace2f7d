//! Decoding of raw key events into game messages, and the letter
//! normalization applied to typed characters.

use vstd::prelude::*;
use crate::game::PaudleMsg;

verus! {

/// Whether `c` is an alphabetic character, as Unicode defines it.
pub uninterp spec fn is_alphabetic_spec(c: char) -> bool;

/// Relies on char::is_alphabetic: the answer depends on the character
/// alone.
#[verifier::external_body]
fn is_alphabetic_char(c: char) -> (r: bool)
    ensures
        r == is_alphabetic_spec(c),
{
    c.is_alphabetic()
}

/// ASCII lower-casing of a character: `'A'..='Z'` move down to
/// `'a'..='z'`, every other character stays as it is.
pub open spec fn lower_char(c: char) -> char {
    if 'A' as u32 <= c as u32 && c as u32 <= 'Z' as u32 {
        ((c as u32 + 32) as char)
    } else {
        c
    }
}

/// Relies on char::to_ascii_lowercase: maps `'A'..='Z'` to
/// `'a'..='z'` and leaves every other character unchanged.
#[verifier::external_body]
pub(crate) fn to_ascii_lowercase(c: char) -> (r: char)
    ensures
        r == lower_char(c),
{
    c.to_ascii_lowercase()
}

/// The message owed for a key event: the named backspace and enter
/// keys map to their actions; any other multi-character key name, any
/// modifier combination and any non-alphabetic character are ignored;
/// a plain alphabetic character is typed.
pub open spec fn keypress_msg(
    key: Seq<char>,
    ctrl: bool,
    alt: bool,
    meta: bool,
    shift: bool,
) -> Option<PaudleMsg> {
    if key == "Backspace"@ {
        Some(PaudleMsg::Backspace)
    } else if key == "Enter"@ {
        Some(PaudleMsg::Submit)
    } else if key.len() > 1 {
        None
    } else if ctrl || alt || meta || shift {
        None
    } else if key.len() == 1 && is_alphabetic_spec(key[0]) {
        Some(PaudleMsg::TypeLetter(key[0]))
    } else {
        None
    }
}

fn is_backspace_key(key: &Vec<char>) -> (r: bool)
    ensures
        r == (key@ == "Backspace"@),
{
    proof {
        reveal_strlit("Backspace");
    }
    if key.len() != 9 {
        return false;
    }
    let r = key[0] == 'B' && key[1] == 'a' && key[2] == 'c' && key[3] == 'k' && key[4] == 's'
        && key[5] == 'p' && key[6] == 'a' && key[7] == 'c' && key[8] == 'e';
    proof {
        if r {
            assert(key@ =~= "Backspace"@);
        }
    }
    r
}

fn is_enter_key(key: &Vec<char>) -> (r: bool)
    ensures
        r == (key@ == "Enter"@),
{
    proof {
        reveal_strlit("Enter");
    }
    if key.len() != 5 {
        return false;
    }
    let r = key[0] == 'E' && key[1] == 'n' && key[2] == 't' && key[3] == 'e' && key[4] == 'r';
    proof {
        if r {
            assert(key@ =~= "Enter"@);
        }
    }
    r
}

/// Turn one key event, given as the key's name and the modifier keys
/// held with it, into the game message it stands for, if any.
pub fn handle_keypress(key: &Vec<char>, ctrl: bool, alt: bool, meta: bool, shift: bool) -> (msg:
    Option<PaudleMsg>)
    ensures
        msg == keypress_msg(key@, ctrl, alt, meta, shift),
{
    if is_backspace_key(key) {
        return Some(PaudleMsg::Backspace);
    }
    if is_enter_key(key) {
        return Some(PaudleMsg::Submit);
    }
    if key.len() > 1 {
        return None;
    }
    if ctrl || alt || meta || shift {
        return None;
    }
    if key.len() == 1 {
        let c = key[0];
        if is_alphabetic_char(c) {
            return Some(PaudleMsg::TypeLetter(c));
        }
    }
    None
}

} // verus!

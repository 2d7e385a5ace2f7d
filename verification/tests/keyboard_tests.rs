use paudle::cell::{CellValue, LetterStatus};
use paudle::keyboard_status::KeyboardStatus;

#[test]
fn keyboard_starts_unknown() {
    let kb = KeyboardStatus::new();
    assert_eq!(kb.get_status('a'), LetterStatus::Unknown);
    assert_eq!(kb.get_status('z'), LetterStatus::Unknown);
}

#[test]
fn keyboard_records_verdicts() {
    let mut kb = KeyboardStatus::new();
    kb.update_status(&vec![
        CellValue::Correct('a'),
        CellValue::Present('b'),
        CellValue::Absent('c'),
    ]);
    assert_eq!(kb.get_status('a'), LetterStatus::Correct);
    assert_eq!(kb.get_status('b'), LetterStatus::Present);
    assert_eq!(kb.get_status('c'), LetterStatus::Absent);
    assert_eq!(kb.get_status('d'), LetterStatus::Unknown);
}

#[test]
fn keyboard_update_is_idempotent() {
    let guess = vec![
        CellValue::Correct('a'),
        CellValue::Present('b'),
        CellValue::Absent('c'),
    ];
    let mut once = KeyboardStatus::new();
    once.update_status(&guess);
    let mut twice = KeyboardStatus::new();
    twice.update_status(&guess);
    twice.update_status(&guess);
    for c in ['a', 'b', 'c', 'd', 'e'] {
        assert_eq!(once.get_status(c), twice.get_status(c));
    }
}

#[test]
fn keyboard_never_downgrades_correct() {
    let mut kb = KeyboardStatus::new();
    kb.update_status(&vec![CellValue::Correct('a')]);
    kb.update_status(&vec![CellValue::Absent('a')]);
    kb.update_status(&vec![CellValue::Present('a')]);
    assert_eq!(kb.get_status('a'), LetterStatus::Correct);
}

#[test]
fn keyboard_never_downgrades_present() {
    let mut kb = KeyboardStatus::new();
    kb.update_status(&vec![CellValue::Present('b')]);
    kb.update_status(&vec![CellValue::Absent('b')]);
    assert_eq!(kb.get_status('b'), LetterStatus::Present);
}

#[test]
fn keyboard_upgrades_along_priority() {
    let mut kb = KeyboardStatus::new();
    kb.update_status(&vec![CellValue::Absent('e')]);
    assert_eq!(kb.get_status('e'), LetterStatus::Absent);
    kb.update_status(&vec![CellValue::Present('e')]);
    assert_eq!(kb.get_status('e'), LetterStatus::Present);
    kb.update_status(&vec![CellValue::Correct('e')]);
    assert_eq!(kb.get_status('e'), LetterStatus::Correct);
}

#[test]
fn keyboard_takes_best_verdict_of_one_guess() {
    // One guess can speak about the same letter twice: the better
    // verdict wins.
    let mut kb = KeyboardStatus::new();
    kb.update_status(&vec![CellValue::Absent('e'), CellValue::Correct('e')]);
    assert_eq!(kb.get_status('e'), LetterStatus::Correct);
}

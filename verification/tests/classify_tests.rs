use paudle::cell::CellValue;
use paudle::classify::evaluate_guess;

fn chars(s: &str) -> Vec<char> {
    s.chars().collect()
}

#[test]
fn classify_word_against_itself_is_all_correct() {
    let word = chars("crane");
    let vals = evaluate_guess(&word, &word);
    assert_eq!(vals.len(), 5);
    for (i, v) in vals.iter().enumerate() {
        assert_eq!(*v, CellValue::Correct(word[i]));
    }
}

#[test]
fn classify_distinct_letters() {
    let secret = chars("abc");
    let guess = chars("acx");
    let vals = evaluate_guess(&secret, &guess);
    assert_eq!(
        vals,
        vec![
            CellValue::Correct('a'),
            CellValue::Present('c'),
            CellValue::Absent('x'),
        ]
    );
}

#[test]
fn classify_speed_erase_duplicate_letters() {
    // Secret SPEED holds two E letters and one S; no position of the
    // guess ERASE matches exactly, so the leftmost pending E claims
    // one E count, the S claims the S, and the final E takes the
    // second E count.
    let secret = chars("SPEED");
    let guess = chars("ERASE");
    let vals = evaluate_guess(&secret, &guess);
    assert_eq!(
        vals,
        vec![
            CellValue::Present('E'),
            CellValue::Absent('R'),
            CellValue::Absent('A'),
            CellValue::Present('S'),
            CellValue::Present('E'),
        ]
    );
}

#[test]
fn classify_exact_match_consumes_count() {
    // The secret has a single a, claimed by the exact match at the
    // first position: the second a of the guess comes back absent.
    let secret = chars("ab");
    let guess = chars("aa");
    let vals = evaluate_guess(&secret, &guess);
    assert_eq!(vals, vec![CellValue::Correct('a'), CellValue::Absent('a')]);
}

#[test]
fn classify_exact_match_beats_earlier_pending() {
    // Secret abab, guess aabb: the exact matches at the outer
    // positions claim one a and one b before the pending middle
    // positions claim the remaining ones.
    let secret = chars("abab");
    let guess = chars("aabb");
    let vals = evaluate_guess(&secret, &guess);
    assert_eq!(
        vals,
        vec![
            CellValue::Correct('a'),
            CellValue::Present('a'),
            CellValue::Present('b'),
            CellValue::Correct('b'),
        ]
    );
}

#[test]
fn classify_empty_words() {
    let secret = chars("");
    let guess = chars("");
    let vals = evaluate_guess(&secret, &guess);
    assert!(vals.is_empty());
}

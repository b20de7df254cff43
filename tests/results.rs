use typing_tutor::{Duration, FinishedWord, Metric, TestResults, Word};

fn type_word<'a>(target: &'a str, typed: &str, each: Duration) -> FinishedWord<'a> {
    let mut word = Word::new(target);
    for c in typed.chars() {
        word.add_char(c, each);
    }
    if !word.is_complete() {
        while word.typed_len() > 0 {
            word.remove_char();
        }
        for c in target.chars() {
            word.add_char(c, each);
        }
    }
    word.finalise(' ', each)
}

fn wpm(results: &TestResults) -> f64 {
    let (num, den) = results.wpm_ratio();
    num as f64 / den as f64
}

#[test]
fn empty_results_are_all_zero() {
    let results = TestResults::new();
    assert_eq!(results.word_cnt(), 0);
    assert_eq!(results.char_cnt(), 0);
    assert_eq!(results.typo_cnt(), 0);
    assert_eq!(results.duration().as_nanos(), 0);
    assert_eq!(results.wpm_ratio(), (0, 1));
    assert_eq!(wpm(&results), 0.0);
    assert!(results.word_durations().is_empty());
}

#[test]
fn one_word_in_five_seconds_is_twelve_wpm() {
    let mut word = Word::new("test");
    for c in "test".chars() {
        word.add_char(c, Duration::from_secs(1));
    }
    let finished = word.finalise(' ', Duration::from_secs(1));
    assert!(finished.metrics().iter().all(|m| !matches!(m, Metric::Typo { .. })));
    let mut results = TestResults::new();
    assert!(results.push(finished));
    assert_eq!(results.word_cnt(), 1);
    assert_eq!(results.char_cnt(), 5);
    assert_eq!(results.duration().as_nanos(), 5_000_000_000);
    assert_eq!(results.wpm_ratio(), (5 * 60_000_000_000, 5_000_000_000 * 5));
    assert_eq!(wpm(&results), 12.0);
}

#[test]
fn typos_and_durations_sum_over_words() {
    let mut results = TestResults::new();
    assert!(results.push(type_word("ab", "xb", Duration::from_millis(10))));
    assert!(results.push(type_word("cde", "cde", Duration::from_millis(20))));
    assert_eq!(results.word_cnt(), 2);
    assert_eq!(results.char_cnt(), 3 + 4);
    assert_eq!(results.typo_cnt(), 1);
    // "ab": x, b, then both erased and a, b typed again, then the delimiter.
    let per_word = results.word_durations();
    assert_eq!(per_word.len(), 2);
    assert_eq!(per_word[0], 5 * 10_000_000);
    assert_eq!(per_word[1], 4 * 20_000_000);
    assert_eq!(results.duration().as_nanos(), per_word[0] + per_word[1]);
}

#[test]
fn push_refuses_a_word_whose_time_overflows() {
    let mut results = TestResults::new();
    let mut word = Word::new("a");
    word.add_char('a', Duration::from_nanos(u64::MAX));
    assert!(results.push(word.finalise(' ', Duration::from_nanos(0))));
    let mut word = Word::new("b");
    word.add_char('b', Duration::from_nanos(1));
    assert!(!results.push(word.finalise(' ', Duration::from_nanos(0))));
    assert_eq!(results.word_cnt(), 1);
    assert_eq!(results.duration().as_nanos(), u64::MAX);
}

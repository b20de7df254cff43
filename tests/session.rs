use std::collections::VecDeque;

use typing_tutor::{after_results, lessons, Choice, Duration, KeyCode, Step, TypingTest};

fn ms(n: u64) -> Duration {
    Duration::from_millis(n)
}

#[test]
fn typing_two_words_finishes_the_test() {
    // On a QWERTY board, "asdf" types the Dvorak home row "aoeu".
    let words: VecDeque<&str> = vec!["ao", "eu"].into();
    let mut test = TypingTest::new(words).unwrap();
    assert_eq!(test.handle(KeyCode::Char('a'), ms(100)), Step::RestartClock);
    assert_eq!(test.handle(KeyCode::Char('s'), ms(100)), Step::RestartClock);
    assert_eq!(test.handle(KeyCode::Char(' '), ms(50)), Step::RestartClock);
    assert_eq!(test.current().unwrap().as_str(), "eu");
    assert_eq!(test.typed().iter().collect::<String>(), "ao ");
    assert_eq!(test.handle(KeyCode::Char('d'), ms(100)), Step::RestartClock);
    assert_eq!(test.handle(KeyCode::Char('f'), ms(100)), Step::RestartClock);
    assert_eq!(test.handle(KeyCode::Char(' '), ms(50)), Step::Finished);
    assert!(test.is_finished());
    assert_eq!(test.handle(KeyCode::Char('a'), ms(1)), Step::Finished);
    let results = test.into_results();
    assert_eq!(results.word_cnt(), 2);
    assert_eq!(results.char_cnt(), 6);
    assert_eq!(results.typo_cnt(), 0);
    assert_eq!(results.duration().as_nanos(), 500_000_000);
}

#[test]
fn space_before_completion_is_typed_and_backspace_keeps_the_clock() {
    let words: VecDeque<&str> = vec!["a"].into();
    let mut test = TypingTest::new(words).unwrap();
    assert_eq!(test.handle(KeyCode::Char(' '), ms(10)), Step::RestartClock);
    assert_eq!(test.current().unwrap().typed_len(), 1);
    assert_eq!(test.handle(KeyCode::Backspace, ms(10)), Step::KeepClock);
    assert_eq!(test.handle(KeyCode::Other, ms(10)), Step::KeepClock);
    assert_eq!(test.handle(KeyCode::Char('a'), ms(10)), Step::RestartClock);
    assert_eq!(test.handle(KeyCode::Char(' '), ms(10)), Step::Finished);
    let results = test.into_results();
    assert_eq!(results.typo_cnt(), 1);
    assert_eq!(results.word_durations(), vec![30_000_000]);
}

#[test]
fn escape_drops_the_word_in_progress() {
    let words: VecDeque<&str> = vec!["a", "o"].into();
    let mut test = TypingTest::new(words).unwrap();
    test.handle(KeyCode::Char('a'), ms(10));
    test.handle(KeyCode::Char(' '), ms(10));
    test.handle(KeyCode::Char('s'), ms(10));
    assert_eq!(test.handle(KeyCode::Esc, ms(10)), Step::Finished);
    assert!(test.current().is_none());
    let results = test.into_results();
    assert_eq!(results.word_cnt(), 1);
    assert_eq!(results.char_cnt(), 2);
}

#[test]
fn no_words_no_test() {
    assert!(TypingTest::new(VecDeque::new()).is_none());
}

#[test]
fn upcoming_words_shift_by_the_overflow() {
    let words: VecDeque<&str> = vec!["a", "eu", "h"].into();
    let mut test = TypingTest::new(words).unwrap();
    assert_eq!(test.upcoming().iter().collect::<String>(), " eu h");
    test.handle(KeyCode::Char('a'), ms(1));
    test.handle(KeyCode::Char('x'), ms(1));
    test.handle(KeyCode::Char('x'), ms(1));
    assert_eq!(test.upcoming().iter().collect::<String>(), "u h");
}

#[test]
fn results_screen_choices() {
    assert_eq!(after_results(KeyCode::Esc), Choice::Quit);
    assert_eq!(after_results(KeyCode::Enter), Choice::NextLesson);
    assert_eq!(after_results(KeyCode::Char('x')), Choice::Wait);
}

#[test]
fn lessons_grow_from_the_home_row() {
    let all = lessons();
    assert_eq!(all.len(), 5);
    assert_eq!(all[0], "aoeuhtns");
    assert_eq!(all[4], "abcdefghijklmnopqrstuvwxyz");
    for lesson in &all {
        assert!("aoeuhtns".chars().all(|c| lesson.contains(c)));
    }
}

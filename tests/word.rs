use typing_tutor::{CharStyle, Duration, Metric, StyledChar, Word};

#[test]
fn test_generate_match_metric() {
    let mut word: Word = "test".into();

    word.add_char('t', Duration::from_secs(1));

    assert_eq!(word.as_str(), "test");
    assert_eq!(word.typed().iter().collect::<String>(), "t".to_string());
    assert_eq!(
        word.metrics(),
        &[Metric::Match {
            value: 't',
            duration: Duration::from_secs(1),
        }][..]
    );
}

#[test]
fn test_generate_typo_metric() {
    let mut word: Word = "test".into();

    word.add_char('e', Duration::from_secs(1));

    assert_eq!(word.as_str(), "test");
    assert_eq!(word.typed().iter().collect::<String>(), "e".to_string());
    assert_eq!(
        word.metrics(),
        &[Metric::Typo {
            value: 'e',
            expected: 't',
            duration: Duration::from_secs(1),
        }][..]
    );
}

#[test]
fn replaying_the_target_completes_only_at_the_end() {
    let target = "hello";
    let mut word = Word::new(target);
    assert!(!word.is_complete());
    let chars: Vec<char> = target.chars().collect();
    for (i, c) in chars.iter().enumerate() {
        word.add_char(*c, Duration::from_millis(100));
        assert_eq!(word.is_complete(), i + 1 == chars.len());
    }
}

#[test]
fn empty_target_is_complete_at_once() {
    let word = Word::new("");
    assert!(word.is_complete());
    assert_eq!(word.len(), 0);
}

#[test]
fn add_char_classifies_by_position_and_ignores_overflow() {
    let mut word = Word::new("ab");
    word.add_char('a', Duration::from_nanos(1));
    word.add_char('x', Duration::from_nanos(2));
    word.add_char('b', Duration::from_nanos(3));
    assert_eq!(
        word.metrics(),
        &[
            Metric::Match { value: 'a', duration: Duration::from_nanos(1) },
            Metric::Typo { value: 'x', expected: 'b', duration: Duration::from_nanos(2) },
        ][..]
    );
    assert_eq!(word.typed_len(), 3);
    assert_eq!(word.overflow(), 1);
    assert!(!word.is_complete());
}

#[test]
fn remove_char_keeps_the_log() {
    let mut word = Word::new("ab");
    word.remove_char();
    assert_eq!(word.typed_len(), 0);
    word.add_char('x', Duration::from_nanos(5));
    word.remove_char();
    assert_eq!(word.typed_len(), 0);
    assert_eq!(
        word.metrics(),
        &[Metric::Typo { value: 'x', expected: 'a', duration: Duration::from_nanos(5) }][..]
    );
    word.add_char('a', Duration::from_nanos(6));
    word.add_char('b', Duration::from_nanos(7));
    assert!(word.is_complete());
    assert_eq!(word.metrics().len(), 3);
}

#[test]
fn finalise_appends_one_delimiter() {
    let mut word = Word::new("ok");
    word.add_char('o', Duration::from_nanos(1));
    word.add_char('k', Duration::from_nanos(2));
    let finished = word.finalise(' ', Duration::from_nanos(9));
    assert_eq!(finished.as_str(), "ok");
    assert_eq!(finished.len(), 2);
    assert_eq!(finished.len_inc_delim(), 3);
    assert_eq!(finished.metrics().len(), 3);
    assert_eq!(
        finished.metrics()[2],
        Metric::Delimiter { value: ' ', duration: Duration::from_nanos(9) }
    );
}

#[test]
fn char_at_and_len_count_characters() {
    let word = Word::new("héllo");
    assert_eq!(word.len(), 5);
    assert_eq!(word.char_at(1), Some('é'));
    assert_eq!(word.char_at(4), Some('o'));
    assert_eq!(word.char_at(5), None);
}

#[test]
fn styled_text_classifies_each_character() {
    let mut word = Word::new("test");
    word.add_char('t', Duration::from_nanos(1));
    word.add_char(' ', Duration::from_nanos(1));
    assert_eq!(
        word.styled_text(),
        vec![
            StyledChar { ch: 't', style: CharStyle::Correct },
            StyledChar { ch: '\u{2423}', style: CharStyle::Wrong },
            StyledChar { ch: 's', style: CharStyle::Untyped },
            StyledChar { ch: 't', style: CharStyle::Untyped },
        ]
    );
}

#[test]
fn styled_text_shows_overflow_as_wrong() {
    let mut word = Word::new("a");
    word.add_char('a', Duration::from_nanos(1));
    word.add_char('b', Duration::from_nanos(1));
    assert_eq!(
        word.styled_text(),
        vec![
            StyledChar { ch: 'a', style: CharStyle::Correct },
            StyledChar { ch: 'b', style: CharStyle::Wrong },
        ]
    );
}

#[test]
fn durations_convert_to_nanoseconds() {
    assert_eq!(Duration::from_secs(2).as_nanos(), 2_000_000_000);
    assert_eq!(Duration::from_millis(3).as_nanos(), 3_000_000);
    assert_eq!(Duration::zero().as_nanos(), 0);
}

use typing_tutor::{get_test_words, uses_only_allowed, SamplingExhausted};

#[test]
fn sampler_never_returns_words_with_other_letters() {
    let corpus = ["ooze", "fox"];
    // "fox" has f and x, and "ooze" has z: neither is made of a, o, e, u only.
    for _ in 0..50 {
        match get_test_words(&corpus, "aoeu", 20) {
            Ok(words) => assert!(words.iter().all(|w| *w != "fox")),
            Err(e) => assert_eq!(e, SamplingExhausted),
        }
    }
    assert_eq!(get_test_words(&corpus, "aoeu", 20), Err(SamplingExhausted));
    // With z allowed too, only "ooze" qualifies.
    for _ in 0..50 {
        let words = get_test_words(&corpus, "aoeuz", 20).unwrap();
        assert_eq!(words.len(), 20);
        assert!(words.iter().all(|w| *w == "ooze"));
    }
}

#[test]
fn sampler_end_to_end_draws_every_eligible_word() {
    let corpus = ["aa", "oo", "zoo"];
    let mut seen_aa = false;
    let mut seen_oo = false;
    for _ in 0..500 {
        let words = get_test_words(&corpus, "ao", 2).unwrap();
        assert_eq!(words.len(), 2);
        for w in words {
            assert!(w == "aa" || w == "oo");
            seen_aa |= w == "aa";
            seen_oo |= w == "oo";
        }
    }
    assert!(seen_aa && seen_oo);
}

#[test]
fn sampler_fails_when_nothing_qualifies() {
    assert_eq!(get_test_words(&["fox"], "aoeu", 3), Err(SamplingExhausted));
    assert_eq!(get_test_words(&[], "aoeu", 1), Err(SamplingExhausted));
    assert_eq!(get_test_words(&["fox"], "aoeu", 0).unwrap().len(), 0);
}

#[test]
fn uses_only_allowed_checks_every_character() {
    assert!(uses_only_allowed("ooze", "aoeuz"));
    assert!(!uses_only_allowed("ooze", "aoeu"));
    assert!(uses_only_allowed("", ""));
}

use vstd::prelude::*;

use crate::duration::Duration;
use crate::keymap::{KeyCode, qwerty_to_dvorak, remap};
use crate::results::{TestResults, totals_fit};
use crate::word::{FinishedWordView, Word, WordView};
use std::collections::VecDeque;

verus! {

/// What the caller does with its clock after a key press was handled.
#[derive(Clone, Copy, Debug, PartialEq, Eq, Structural)]
pub enum Step {
    /// Nothing was timed: keep measuring from the same instant.
    KeepClock,
    /// A keystroke was recorded: measure the next one from now.
    RestartClock,
    /// The test is over; its results are final.
    Finished,
}

/// What a typing test holds: the word being typed (none once the test is
/// over), the words still to come, the finished words, and the text of the
/// finished words, each followed by a space.
pub struct TypingTestView {
    pub current: Option<WordView>,
    pub remaining: Seq<Seq<char>>,
    pub finished: Seq<FinishedWordView>,
    pub typed: Seq<char>,
}

/// The test after the key press `code`, made `elapsed` after the previous
/// recorded keystroke, and what the caller does with its clock.
///
/// Escape ends the test and drops the word in progress. Otherwise the key is
/// remapped to Dvorak: backspace removes a character; a space that confirms a
/// completed word finishes it and moves on to the next word, or ends the test
/// after the last one; any other character is typed into the current word.
/// A word whose statistics would overflow cannot be recorded: the test then ends.
pub open spec fn next(s: TypingTestView, code: KeyCode, elapsed: Duration) -> (
    TypingTestView,
    Step,
) {
    match s.current {
        None => (s, Step::Finished),
        Some(word) => if code == KeyCode::Esc {
            (TypingTestView { current: None, ..s }, Step::Finished)
        } else {
            match remap(code) {
                KeyCode::Backspace => (
                    TypingTestView { current: Some(word.remove_char()), ..s },
                    Step::KeepClock,
                ),
                KeyCode::Char(c) => if c == ' ' && word.is_complete() {
                    let finished = s.finished.push(word.finalise(c, elapsed));
                    let typed = s.typed + word.value.push(' ');
                    if !totals_fit(finished) {
                        (TypingTestView { current: None, ..s }, Step::Finished)
                    } else if s.remaining.len() == 0 {
                        (TypingTestView { current: None, finished, typed, ..s }, Step::Finished)
                    } else {
                        (
                            TypingTestView {
                                current: Some(WordView::fresh(s.remaining[0])),
                                remaining: s.remaining.drop_first(),
                                finished,
                                typed,
                            },
                            Step::RestartClock,
                        )
                    }
                } else {
                    (
                        TypingTestView { current: Some(word.add_char(c, elapsed)), ..s },
                        Step::RestartClock,
                    )
                },
                _ => (s, Step::KeepClock),
            }
        },
    }
}

/// The words `ws`, each preceded by a space.
pub open spec fn spaced(ws: Seq<Seq<char>>) -> Seq<char>
    decreases ws.len(),
{
    if ws.len() == 0 {
        Seq::empty()
    } else {
        spaced(ws.drop_last()) + seq![' '] + ws.last()
    }
}

/// How many characters the word in progress runs past its end.
pub open spec fn overflow_of(current: Option<WordView>) -> nat {
    match current {
        Some(w) => if w.typed.len() > w.value.len() {
            (w.typed.len() - w.value.len()) as nat
        } else {
            0
        },
        None => 0,
    }
}

/// `s` without its first `k` characters.
pub open spec fn drop_chars(s: Seq<char>, k: nat) -> Seq<char> {
    if k >= s.len() {
        Seq::empty()
    } else {
        s.skip(k as int)
    }
}

/// Key presses never change or drop a finished word: each either leaves
/// the finished words as they are, or appends the word in progress, confirmed
/// by a space typed `elapsed` after the previous keystroke. Escape appends
/// nothing.
pub proof fn lemma_finished_only_grow(s: TypingTestView, code: KeyCode, elapsed: Duration)
    ensures
        ({
            let after = next(s, code, elapsed).0;
            ||| after.finished == s.finished
            ||| exists|w: WordView|
                s.current == Some(w) && w.is_complete() && after.finished == s.finished.push(
                    w.finalise(' ', elapsed),
                )
        }),
        code == KeyCode::Esc ==> next(s, code, elapsed).0.finished == s.finished,
{
    let after = next(s, code, elapsed).0;
    if after.finished != s.finished {
        let w = s.current->0;
        assert(s.current == Some(w) && w.is_complete() && after.finished == s.finished.push(
            w.finalise(' ', elapsed),
        ));
    }
}

/// One lesson's typing test: the sampled words are typed one after another.
pub struct TypingTest<'a> {
    current: Option<Word<'a>>,
    remaining: VecDeque<&'a str>,
    results: TestResults<'a>,
    typed: Vec<char>,
}

impl<'a> View for TypingTest<'a> {
    type V = TypingTestView;

    closed spec fn view(&self) -> TypingTestView {
        TypingTestView {
            current: match self.current {
                Some(w) => Some(w@),
                None => None,
            },
            remaining: self.remaining@.map_values(|w: &'a str| w@),
            finished: self.results@,
            typed: self.typed@,
        }
    }
}

impl<'a> TypingTest<'a> {
    /// A test over `words`, starting with the first; `None` when there is no word.
    pub fn new(words: VecDeque<&'a str>) -> (r: Option<TypingTest<'a>>)
        ensures
            words@.len() == 0 <==> r is None,
            r matches Some(t) ==> {
                &&& t@.current == Some(WordView::fresh(words@[0]@))
                &&& t@.remaining == words@.drop_first().map_values(|w: &'a str| w@)
                &&& t@.finished.len() == 0
                &&& t@.typed.len() == 0
            },
    {
        let mut remaining = words;
        match remaining.pop_front() {
            None => None,
            Some(first) => {
                let t = TypingTest {
                    current: Some(Word::new(first)),
                    remaining,
                    results: TestResults::new(),
                    typed: Vec::new(),
                };
                proof {
                    assert(t@.remaining =~= words@.drop_first().map_values(|w: &'a str| w@));
                }
                Some(t)
            },
        }
    }

    /// Handles the key press `code`, made `elapsed` after the previous recorded
    /// keystroke.
    pub fn handle(&mut self, code: KeyCode, elapsed: Duration) -> (r: Step)
        ensures
            (final(self)@, r) == next(old(self)@, code, elapsed),
    {
        let ghost s = self@;
        let ghost queue = self.remaining@;
        let word = self.current.take();
        let mut word = match word {
            None => {
                return Step::Finished;
            },
            Some(w) => w,
        };
        if code == KeyCode::Esc {
            return Step::Finished;
        }
        match qwerty_to_dvorak(code) {
            KeyCode::Backspace => {
                word.remove_char();
                self.current = Some(word);
                Step::KeepClock
            },
            KeyCode::Char(c) => {
                if c == ' ' && word.is_complete() {
                    let ghost typed_word = word@.value;
                    let finished = word.finalise(c, elapsed);
                    let value = finished.as_str();
                    if !self.results.push(finished) {
                        return Step::Finished;
                    }
                    let ghost results = self.results@;
                    let n = value.unicode_len();
                    let mut i: usize = 0;
                    while i < n
                        invariant
                            self.remaining@ == queue,
                            self.results@ == results,
                            self.current is None,
                            n == typed_word.len(),
                            value@ == typed_word,
                            i <= n,
                            self.typed@ == s.typed + typed_word.take(i as int),
                        decreases n - i,
                    {
                        self.typed.push(value.get_char(i));
                        proof {
                            assert(typed_word.take(i + 1) =~= typed_word.take(i as int).push(
                                typed_word[i as int],
                            ));
                        }
                        i = i + 1;
                    }
                    self.typed.push(' ');
                    proof {
                        assert(self.typed@ =~= s.typed + typed_word.push(' '));
                    }
                    match self.remaining.pop_front() {
                        None => Step::Finished,
                        Some(next_word) => {
                            self.current = Some(Word::new(next_word));
                            proof {
                                assert(queue[0] == next_word);
                                assert(s.remaining[0] == next_word@);
                                assert(self@.remaining =~= s.remaining.drop_first());
                            }
                            Step::RestartClock
                        },
                    }
                } else {
                    word.add_char(c, elapsed);
                    self.current = Some(word);
                    Step::RestartClock
                }
            },
            _ => {
                self.current = Some(word);
                Step::KeepClock
            },
        }
    }

    /// Whether the test is over.
    pub fn is_finished(&self) -> (r: bool)
        ensures
            r == (self@.current is None),
    {
        self.current.is_none()
    }

    /// The word being typed; `None` once the test is over.
    pub fn current(&self) -> (r: Option<&Word<'a>>)
        ensures
            match r {
                Some(w) => self@.current == Some(w@),
                None => self@.current is None,
            },
    {
        match &self.current {
            Some(w) => Some(w),
            None => None,
        }
    }

    /// The finished words, each followed by a space.
    pub fn typed(&self) -> (r: &[char])
        ensures
            r@ == self@.typed,
    {
        self.typed.as_slice()
    }

    /// The words still to come, each preceded by a space, less as many
    /// leading characters as the word in progress overflows, so that the
    /// line keeps its length.
    pub fn upcoming(&self) -> (r: Vec<char>)
        ensures
            r@ == drop_chars(spaced(self@.remaining), overflow_of(self@.current)),
    {
        let ghost words = self@.remaining;
        let mut line: Vec<char> = Vec::new();
        let mut i: usize = 0;
        while i < self.remaining.len()
            invariant
                words == self@.remaining,
                words.len() == self.remaining@.len(),
                i <= words.len(),
                line@ == spaced(words.take(i as int)),
            decreases words.len() - i,
        {
            let word = self.remaining[i];
            let ghost before = line@;
            line.push(' ');
            let n = word.unicode_len();
            let mut j: usize = 0;
            while j < n
                invariant
                    n == word@.len(),
                    j <= n,
                    line@ == before + seq![' '] + word@.take(j as int),
                decreases n - j,
            {
                line.push(word.get_char(j));
                proof {
                    assert(word@.take(j + 1) =~= word@.take(j as int).push(word@[j as int]));
                }
                j = j + 1;
            }
            proof {
                assert(word@.take(n as int) =~= word@);
                assert(words.take(i + 1).drop_last() =~= words.take(i as int));
                assert(words[i as int] == word@);
                assert(line@ =~= spaced(words.take(i + 1)));
            }
            i = i + 1;
        }
        proof {
            assert(words.take(i as int) =~= words);
        }
        let skip = match &self.current {
            Some(w) => w.overflow(),
            None => 0,
        };
        let mut out: Vec<char> = Vec::new();
        let mut k: usize = skip;
        while k < line.len()
            invariant
                skip <= k,
                skip < line@.len() ==> k <= line@.len(),
                skip < line@.len() ==> out@ == line@.subrange(skip as int, k as int),
                skip >= line@.len() ==> out@.len() == 0,
            decreases line@.len() - k,
        {
            out.push(line[k]);
            proof {
                assert(line@.subrange(skip as int, k + 1) =~= line@.subrange(skip as int, k as int).push(line@[k as int]));
            }
            k = k + 1;
        }
        proof {
            if skip < line@.len() {
                assert(out@ =~= line@.skip(skip as int));
            } else {
                assert(out@ =~= Seq::<char>::empty());
            }
        }
        out
    }

    /// The results so far.
    pub fn results(&self) -> (r: &TestResults<'a>)
        ensures
            r@ == self@.finished,
    {
        &self.results
    }

    /// Ends the test, handing over the finished words; a word in progress is dropped.
    pub fn into_results(self) -> (r: TestResults<'a>)
        ensures
            r@ == self@.finished,
    {
        self.results
    }
}

} // verus!

use vstd::prelude::*;

use crate::duration::Duration;
use crate::metrics::Metric;

verus! {

/// What a word in progress holds: the target text, what has been typed so
/// far, and the log of classified keystrokes.
pub struct WordView {
    pub value: Seq<char>,
    pub typed: Seq<char>,
    pub metrics: Seq<Metric>,
}

/// What a finished word holds: the target text and its final keystroke log.
pub struct FinishedWordView {
    pub value: Seq<char>,
    pub metrics: Seq<Metric>,
}

/// The metric that typing `c` at position `pos` of `target` records: a match
/// or a typo while `pos` lies inside the word, nothing once past its end.
pub open spec fn metric_for(target: Seq<char>, pos: int, c: char, d: Duration) -> Seq<Metric> {
    if 0 <= pos < target.len() {
        if c == target[pos] {
            Seq::empty().push(Metric::Match { value: c, duration: d })
        } else {
            Seq::empty().push(Metric::Typo { value: c, expected: target[pos], duration: d })
        }
    } else {
        Seq::empty()
    }
}

impl WordView {
    /// A word that nothing has been typed into yet.
    pub open spec fn fresh(value: Seq<char>) -> WordView {
        WordView { value, typed: seq![], metrics: seq![] }
    }

    pub open spec fn is_complete(self) -> bool {
        self.value == self.typed
    }

    /// The word after `c` is typed, `d` after the previous keystroke.
    pub open spec fn add_char(self, c: char, d: Duration) -> WordView {
        WordView {
            value: self.value,
            typed: self.typed.push(c),
            metrics: self.metrics + metric_for(self.value, self.typed.len() as int, c, d),
        }
    }

    /// The word after a backspace: the last typed character goes, the log stays.
    pub open spec fn remove_char(self) -> WordView {
        WordView {
            value: self.value,
            typed: if self.typed.len() == 0 { self.typed } else { self.typed.drop_last() },
            metrics: self.metrics,
        }
    }

    /// The word confirmed by delimiter `c`, typed `d` after the previous keystroke.
    pub open spec fn finalise(self, c: char, d: Duration) -> FinishedWordView {
        FinishedWordView {
            value: self.value,
            metrics: self.metrics.push(Metric::Delimiter { value: c, duration: d }),
        }
    }
}

/// The word after each character of `cs` is typed in turn, the `i`-th one
/// `ds[i]` after the keystroke before it.
pub open spec fn replay(w: WordView, cs: Seq<char>, ds: Seq<Duration>) -> WordView
    decreases cs.len(),
{
    if cs.len() == 0 {
        w
    } else {
        replay(w, cs.drop_last(), ds).add_char(cs.last(), ds[cs.len() - 1])
    }
}

proof fn lemma_replay_typed(w: WordView, cs: Seq<char>, ds: Seq<Duration>)
    ensures
        replay(w, cs, ds).value == w.value,
        replay(w, cs, ds).typed == w.typed + cs,
    decreases cs.len(),
{
    if cs.len() > 0 {
        lemma_replay_typed(w, cs.drop_last(), ds);
        assert(w.typed + cs =~= (w.typed + cs.drop_last()).push(cs.last()));
    } else {
        assert(w.typed + cs =~= w.typed);
    }
}

/// Typing the characters of a word's target text in order into the fresh
/// word completes it, and stopping after any proper prefix leaves it
/// incomplete.
pub proof fn lemma_replay_completes(target: Seq<char>, ds: Seq<Duration>)
    requires
        ds.len() == target.len(),
    ensures
        replay(WordView::fresh(target), target, ds).is_complete(),
        forall|k: int|
            0 <= k < target.len() ==> !(#[trigger] replay(
                WordView::fresh(target),
                target.take(k),
                ds,
            )).is_complete(),
{
    lemma_replay_typed(WordView::fresh(target), target, ds);
    assert(Seq::<char>::empty() + target =~= target);
    assert forall|k: int| 0 <= k < target.len() implies !(#[trigger] replay(
        WordView::fresh(target),
        target.take(k),
        ds,
    )).is_complete() by {
        lemma_replay_typed(WordView::fresh(target), target.take(k), ds);
        assert(Seq::<char>::empty() + target.take(k) =~= target.take(k));
    }
}

/// How a character of a word is drawn.
#[derive(Clone, Copy, Debug, PartialEq, Eq, Structural)]
pub enum CharStyle {
    /// Typed, and the character due there.
    Correct,
    /// Typed, but not the character due there, or past the end of the word.
    Wrong,
    /// Not typed yet: the character of the word itself.
    Untyped,
}

/// One character to draw, with its classification.
#[derive(Clone, Copy, Debug, PartialEq, Eq, Structural)]
pub struct StyledChar {
    pub ch: char,
    pub style: CharStyle,
}

/// The visible stand-in for a typed space.
pub const VISIBLE_SPACE: char = '\u{2423}';

/// A typed character as drawn: a space shows as a visible mark.
pub open spec fn shown(c: char) -> char {
    if c == ' ' {
        VISIBLE_SPACE
    } else {
        c
    }
}

/// How the typed character at position `i` of `w` is drawn.
pub open spec fn typed_cell(w: WordView, i: int) -> StyledChar {
    StyledChar {
        ch: shown(w.typed[i]),
        style: if i < w.value.len() && w.value[i] == w.typed[i] {
            CharStyle::Correct
        } else {
            CharStyle::Wrong
        },
    }
}

/// A word of a typing test while it is being typed.
///
/// The keystroke log only grows: a backspace shortens the typed text but
/// keeps every metric already recorded.
#[derive(Debug)]
pub struct Word<'a> {
    value: &'a str,
    typed: Vec<char>,
    metrics: Vec<Metric>,
}

/// A word whose typing was confirmed by a delimiter. It never changes again.
#[derive(Debug)]
pub struct FinishedWord<'a> {
    value: &'a str,
    metrics: Vec<Metric>,
}

impl<'a> View for Word<'a> {
    type V = WordView;

    closed spec fn view(&self) -> WordView {
        WordView { value: self.value@, typed: self.typed@, metrics: self.metrics@ }
    }
}

impl<'a> View for FinishedWord<'a> {
    type V = FinishedWordView;

    closed spec fn view(&self) -> FinishedWordView {
        FinishedWordView { value: self.value@, metrics: self.metrics@ }
    }
}

impl<'a> From<&'a str> for Word<'a> {
    /// A fresh word over `value`; see `Word::new`.
    fn from(value: &'a str) -> Word<'a> {
        Word::new(value)
    }
}

impl<'a> vstd::std_specs::convert::FromSpecImpl<&'a str> for Word<'a> {
    /// The result is stated by `Word::new`, over the word's view.
    open spec fn obeys_from_spec() -> bool {
        false
    }

    open spec fn from_spec(v: &'a str) -> Word<'a> {
        vstd::pervasive::arbitrary()
    }
}

impl<'a> FinishedWord<'a> {
    pub fn len(&self) -> (r: usize)
        ensures
            r == self@.value.len(),
    {
        self.value.unicode_len()
    }

    /// Length of the word counting the delimiter that confirmed it.
    pub fn len_inc_delim(&self) -> (r: usize)
        requires
            self@.value.len() < usize::MAX,
        ensures
            r == self@.value.len() + 1,
    {
        self.len() + 1
    }

    pub fn metrics(&self) -> (r: &[Metric])
        ensures
            r@ == self@.metrics,
    {
        self.metrics.as_slice()
    }

    pub fn as_str(&self) -> (r: &'a str)
        ensures
            r@ == self@.value,
    {
        self.value
    }
}

impl<'a> Word<'a> {
    pub fn new(value: &'a str) -> (r: Word<'a>)
        ensures
            r@ == WordView::fresh(value@),
    {
        Word { value, typed: Vec::new(), metrics: Vec::new() }
    }

    pub fn as_str(&self) -> (r: &'a str)
        ensures
            r@ == self@.value,
    {
        self.value
    }

    pub fn char_at(&self, idx: usize) -> (r: Option<char>)
        ensures
            r == if idx < self@.value.len() {
                Some(self@.value[idx as int])
            } else {
                None::<char>
            },
    {
        if idx < self.value.unicode_len() {
            Some(self.value.get_char(idx))
        } else {
            None
        }
    }

    pub fn len(&self) -> (r: usize)
        ensures
            r == self@.value.len(),
    {
        self.value.unicode_len()
    }

    pub fn typed_len(&self) -> (r: usize)
        ensures
            r == self@.typed.len(),
    {
        self.typed.len()
    }

    /// The characters typed so far.
    pub fn typed(&self) -> (r: &[char])
        ensures
            r@ == self@.typed,
    {
        self.typed.as_slice()
    }

    /// The character typed at position `i`.
    fn typed_at(&self, i: usize) -> (r: char)
        requires
            i < self@.typed.len(),
        ensures
            r == self@.typed[i as int],
    {
        self.typed[i]
    }

    /// The keystroke log so far.
    pub fn metrics(&self) -> (r: &[Metric])
        ensures
            r@ == self@.metrics,
    {
        self.metrics.as_slice()
    }

    /// How many characters were typed past the end of the word (for display only).
    pub fn overflow(&self) -> (r: usize)
        ensures
            r == if self@.typed.len() > self@.value.len() {
                self@.typed.len() - self@.value.len()
            } else {
                0
            },
    {
        self.typed_len().saturating_sub(self.len())
    }

    /// Types `typed`, `duration` after the previous keystroke.
    ///
    /// Within the word it records a match when `typed` is the character due
    /// at the typed position, else a typo naming both; past the end of the
    /// word it records nothing. The character is appended either way.
    pub fn add_char(&mut self, typed: char, duration: Duration)
        ensures
            final(self)@ == old(self)@.add_char(typed, duration),
            final(self)@.value == old(self)@.value,
            final(self)@.typed == old(self)@.typed.push(typed),
            final(self)@.metrics == old(self)@.metrics + metric_for(
                old(self)@.value,
                old(self)@.typed.len() as int,
                typed,
                duration,
            ),
    {
        let ghost before = self@;
        let pos = self.typed.len();
        if pos < self.value.unicode_len() {
            let expected = self.value.get_char(pos);
            let metric = if typed != expected {
                Metric::Typo { value: typed, expected, duration }
            } else {
                Metric::Match { value: typed, duration }
            };
            assert(metric_for(before.value, pos as int, typed, duration) == seq![metric]);
            self.metrics.push(metric);
        }
        self.typed.push(typed);
        assert(self.metrics@ =~= before.metrics + metric_for(
            before.value,
            pos as int,
            typed,
            duration,
        ));
    }

    /// A backspace: drops the last typed character, if any, and keeps the log.
    pub fn remove_char(&mut self)
        ensures
            final(self)@ == old(self)@.remove_char(),
            final(self)@.value == old(self)@.value,
            final(self)@.metrics == old(self)@.metrics,
            old(self)@.typed.len() == 0 ==> final(self)@.typed == old(self)@.typed,
            old(self)@.typed.len() > 0 ==> final(self)@.typed == old(self)@.typed.drop_last(),
    {
        self.typed.pop();
    }

    /// Whether exactly the target text has been typed.
    pub fn is_complete(&self) -> (r: bool)
        ensures
            r == self@.is_complete(),
            r == (self@.value == self@.typed),
    {
        let n = self.value.unicode_len();
        if n != self.typed.len() {
            return false;
        }
        let mut i: usize = 0;
        while i < n
            invariant
                n == self@.value.len(),
                n == self@.typed.len(),
                0 <= i <= n,
                forall|j: int| 0 <= j < i ==> self@.value[j] == self@.typed[j],
            decreases n - i,
        {
            if self.value.get_char(i) != self.typed[i] {
                return false;
            }
            i = i + 1;
        }
        proof {
            assert(self@.value =~= self@.typed);
        }
        true
    }

    /// The word as drawn: each typed character, classified against the
    /// character due there, then the characters not typed yet.
    pub fn styled_text(&self) -> (r: Vec<StyledChar>)
        ensures
            self@.typed.len() <= self@.value.len() ==> r@.len() == self@.value.len(),
            self@.typed.len() > self@.value.len() ==> r@.len() == self@.typed.len(),
            forall|i: int| 0 <= i < self@.typed.len() ==> r@[i] == typed_cell(self@, i),
            forall|i: int|
                self@.typed.len() <= i < self@.value.len() ==> r@[i] == (StyledChar {
                    ch: self@.value[i],
                    style: CharStyle::Untyped,
                }),
    {
        let mut styled: Vec<StyledChar> = Vec::new();
        let n = self.typed.len();
        let len = self.len();
        let mut i: usize = 0;
        while i < n
            invariant
                n == self@.typed.len(),
                len == self@.value.len(),
                i <= n,
                styled@.len() == i,
                forall|j: int| 0 <= j < i ==> styled@[j] == typed_cell(self@, j),
            decreases n - i,
        {
            let tc = self.typed_at(i);
            let style = match self.char_at(i) {
                Some(wc) => if wc == tc {
                    CharStyle::Correct
                } else {
                    CharStyle::Wrong
                },
                None => CharStyle::Wrong,
            };
            let ch = if tc == ' ' {
                '\u{2423}'
            } else {
                tc
            };
            styled.push(StyledChar { ch, style });
            i = i + 1;
        }
        let mut idx: usize = n;
        while idx < len
            invariant
                n == self@.typed.len(),
                len == self@.value.len(),
                n <= idx,
                n <= len ==> idx <= len,
                n > len ==> idx == n,
                styled@.len() == idx,
                forall|j: int| 0 <= j < n ==> styled@[j] == typed_cell(self@, j),
                forall|j: int|
                    n <= j < idx ==> styled@[j] == (StyledChar {
                        ch: self@.value[j],
                        style: CharStyle::Untyped,
                    }),
            decreases len - idx,
        {
            styled.push(StyledChar { ch: self.value.get_char(idx), style: CharStyle::Untyped });
            idx = idx + 1;
        }
        styled
    }

    /// Confirms the completed word with delimiter `typed`, `duration` after the
    /// previous keystroke: exactly one delimiter metric is appended.
    pub fn finalise(self, typed: char, duration: Duration) -> (r: FinishedWord<'a>)
        requires
            self@.is_complete(),
        ensures
            r@ == self@.finalise(typed, duration),
            r@.value == self@.value,
            r@.metrics == self@.metrics.push(Metric::Delimiter { value: typed, duration }),
            r@.metrics.len() == self@.metrics.len() + 1,
    {
        let mut metrics = self.metrics;
        metrics.push(Metric::Delimiter { value: typed, duration });
        FinishedWord { value: self.value, metrics }
    }
}

} // verus!

use vstd::prelude::*;

use crate::duration::Duration;
use crate::metrics::{Metric, metrics_nanos, metrics_typos};
use crate::word::{FinishedWord, FinishedWordView};

verus! {

/// Characters in a word of the normalised length used for words per minute.
pub const CHARS_PER_WORD: u128 = 5;

/// Nanoseconds in one minute.
pub const NANOS_PER_MINUTE: u128 = 60_000_000_000;

/// Characters typed for the finished words, each counting its delimiter.
pub open spec fn char_total(ws: Seq<FinishedWordView>) -> nat
    decreases ws.len(),
{
    if ws.len() == 0 {
        0
    } else {
        char_total(ws.drop_last()) + ws.last().value.len() + 1
    }
}

/// Typos recorded over all the finished words.
pub open spec fn typo_total(ws: Seq<FinishedWordView>) -> nat
    decreases ws.len(),
{
    if ws.len() == 0 {
        0
    } else {
        typo_total(ws.drop_last()) + metrics_typos(ws.last().metrics)
    }
}

/// Time recorded over all keystrokes of the finished words, in nanoseconds.
pub open spec fn nanos_total(ws: Seq<FinishedWordView>) -> nat
    decreases ws.len(),
{
    if ws.len() == 0 {
        0
    } else {
        nanos_total(ws.drop_last()) + metrics_nanos(ws.last().metrics)
    }
}

/// Whether every statistic of the words fits the integer type it is reported in.
pub open spec fn totals_fit(ws: Seq<FinishedWordView>) -> bool {
    &&& char_total(ws) <= usize::MAX
    &&& typo_total(ws) <= usize::MAX
    &&& nanos_total(ws) <= u64::MAX
}

proof fn lemma_metrics_prefix(ms: Seq<Metric>, k: int)
    requires
        0 <= k <= ms.len(),
    ensures
        metrics_nanos(ms.take(k)) <= metrics_nanos(ms),
        metrics_typos(ms.take(k)) <= metrics_typos(ms),
        metrics_typos(ms) <= ms.len(),
    decreases ms.len(),
{
    if ms.len() > 0 {
        if k == ms.len() {
            assert(ms.take(k) =~= ms);
            lemma_metrics_prefix(ms.drop_last(), 0);
        } else {
            lemma_metrics_prefix(ms.drop_last(), k);
            assert(ms.drop_last().take(k) =~= ms.take(k));
        }
    }
}

proof fn lemma_totals_prefix(ws: Seq<FinishedWordView>, k: int)
    requires
        0 <= k <= ws.len(),
    ensures
        char_total(ws.take(k)) <= char_total(ws),
        typo_total(ws.take(k)) <= typo_total(ws),
        nanos_total(ws.take(k)) <= nanos_total(ws),
    decreases ws.len(),
{
    if k < ws.len() {
        lemma_totals_prefix(ws.drop_last(), k);
        assert(ws.drop_last().take(k) =~= ws.take(k));
    } else {
        assert(ws.take(k) =~= ws);
    }
}

/// One step of a running total: the first `k + 1` words are the first `k` and word `k`.
proof fn lemma_totals_step(ws: Seq<FinishedWordView>, k: int)
    requires
        0 <= k < ws.len(),
    ensures
        char_total(ws.take(k + 1)) == char_total(ws.take(k)) + ws[k].value.len() + 1,
        typo_total(ws.take(k + 1)) == typo_total(ws.take(k)) + metrics_typos(ws[k].metrics),
        nanos_total(ws.take(k + 1)) == nanos_total(ws.take(k)) + metrics_nanos(ws[k].metrics),
{
    assert(ws.take(k + 1).drop_last() =~= ws.take(k));
}

proof fn lemma_metrics_step(ms: Seq<Metric>, k: int)
    requires
        0 <= k < ms.len(),
    ensures
        metrics_nanos(ms.take(k + 1)) == metrics_nanos(ms.take(k)) + ms[k].nanos(),
        metrics_typos(ms.take(k + 1)) == metrics_typos(ms.take(k)) + if ms[k] is Typo {
            1nat
        } else {
            0nat
        },
{
    assert(ms.take(k + 1).drop_last() =~= ms.take(k));
}

/// `start` plus the time recorded in `ms`, or `None` where that exceeds `u64`.
fn checked_nanos(start: u64, ms: &[Metric]) -> (r: Option<u64>)
    ensures
        r == if start + metrics_nanos(ms@) <= u64::MAX {
            Some((start + metrics_nanos(ms@)) as u64)
        } else {
            None::<u64>
        },
{
    let mut acc: u64 = start;
    let mut i: usize = 0;
    while i < ms.len()
        invariant
            i <= ms@.len(),
            acc == start + metrics_nanos(ms@.take(i as int)),
        decreases ms@.len() - i,
    {
        proof {
            lemma_metrics_step(ms@, i as int);
        }
        match acc.checked_add(ms[i].duration().as_nanos()) {
            Some(next) => {
                acc = next;
            },
            None => {
                proof {
                    lemma_metrics_prefix(ms@, i + 1);
                }
                return None;
            },
        }
        i = i + 1;
    }
    proof {
        assert(ms@.take(i as int) =~= ms@);
    }
    Some(acc)
}

/// Number of typos in `ms`.
fn typos_in(ms: &[Metric]) -> (r: usize)
    ensures
        r == metrics_typos(ms@),
{
    let mut acc: usize = 0;
    let mut i: usize = 0;
    while i < ms.len()
        invariant
            i <= ms@.len(),
            acc == metrics_typos(ms@.take(i as int)),
        decreases ms@.len() - i,
    {
        proof {
            lemma_metrics_step(ms@, i as int);
            lemma_metrics_prefix(ms@.take(i + 1), i + 1);
        }
        if ms[i].is_typo() {
            acc = acc + 1;
        }
        i = i + 1;
    }
    proof {
        assert(ms@.take(i as int) =~= ms@);
    }
    acc
}

/// The finished words of one lesson, with the statistics derived from them.
pub struct TestResults<'a> {
    words: Vec<FinishedWord<'a>>,
}

impl<'a> View for TestResults<'a> {
    type V = Seq<FinishedWordView>;

    closed spec fn view(&self) -> Seq<FinishedWordView> {
        self.words@.map_values(|w: FinishedWord<'a>| w@)
    }
}

impl<'a> TestResults<'a> {
    #[verifier::type_invariant]
    closed spec fn fits(self) -> bool {
        totals_fit(self@)
    }

    /// Results with no finished word.
    pub fn new() -> (r: TestResults<'a>)
        ensures
            r@ == Seq::<FinishedWordView>::empty(),
    {
        let r = TestResults { words: Vec::new() };
        assert(r@ =~= Seq::<FinishedWordView>::empty());
        r
    }

    /// Appends a finished word, unless a statistic would then overflow its
    /// integer type; says whether the word was added.
    pub fn push(&mut self, word: FinishedWord<'a>) -> (added: bool)
        ensures
            added == totals_fit(old(self)@.push(word@)),
            added ==> final(self)@ == old(self)@.push(word@),
            !added ==> final(self)@ == old(self)@,
    {
        proof {
            use_type_invariant(&*self);
        }
        let ghost ws = self@.push(word@);
        proof {
            assert(ws.drop_last() =~= self@);
            assert(char_total(ws) == char_total(self@) + word@.value.len() + 1);
            assert(typo_total(ws) == typo_total(self@) + metrics_typos(word@.metrics));
            assert(nanos_total(ws) == nanos_total(self@) + metrics_nanos(word@.metrics));
        }
        let chars = self.char_cnt();
        let typos = self.typo_cnt();
        let nanos = self.duration().as_nanos();
        let len = word.len();
        if len == usize::MAX || chars > usize::MAX - (len + 1) {
            return false;
        }
        let word_typos = typos_in(word.metrics());
        if typos > usize::MAX - word_typos {
            return false;
        }
        match checked_nanos(nanos, word.metrics()) {
            Some(_) => {},
            None => {
                return false;
            },
        }
        let mut words: Vec<FinishedWord<'a>> = Vec::new();
        std::mem::swap(&mut self.words, &mut words);
        words.push(word);
        proof {
            assert(words@.map_values(|w: FinishedWord<'a>| w@) =~= ws);
            assert(totals_fit(ws));
        }
        let grown = TestResults { words };
        *self = grown;
        true
    }

    /// Number of finished words.
    pub fn word_cnt(&self) -> (r: usize)
        ensures
            r == self@.len(),
    {
        self.words.len()
    }

    /// Characters typed, each word counting its delimiter.
    pub fn char_cnt(&self) -> (r: usize)
        ensures
            r == char_total(self@),
    {
        proof {
            use_type_invariant(self);
        }
        let mut acc: usize = 0;
        let mut i: usize = 0;
        while i < self.words.len()
            invariant
                i <= self@.len(),
                self@.len() == self.words@.len(),
                acc == char_total(self@.take(i as int)),
                char_total(self@) <= usize::MAX,
            decreases self@.len() - i,
        {
            proof {
                lemma_totals_step(self@, i as int);
                lemma_totals_prefix(self@, i + 1);
            }
            acc = acc + self.words[i].len_inc_delim();
            i = i + 1;
        }
        proof {
            assert(self@.take(i as int) =~= self@);
        }
        acc
    }

    /// Typos recorded over all the finished words.
    pub fn typo_cnt(&self) -> (r: usize)
        ensures
            r == typo_total(self@),
    {
        proof {
            use_type_invariant(self);
        }
        let mut acc: usize = 0;
        let mut i: usize = 0;
        while i < self.words.len()
            invariant
                i <= self@.len(),
                self@.len() == self.words@.len(),
                acc == typo_total(self@.take(i as int)),
                typo_total(self@) <= usize::MAX,
            decreases self@.len() - i,
        {
            proof {
                lemma_totals_step(self@, i as int);
                lemma_totals_prefix(self@, i + 1);
            }
            acc = acc + typos_in(self.words[i].metrics());
            i = i + 1;
        }
        proof {
            assert(self@.take(i as int) =~= self@);
        }
        acc
    }

    /// Time recorded over every keystroke of every finished word, delimiters
    /// included.
    pub fn duration(&self) -> (r: Duration)
        ensures
            r.nanos == nanos_total(self@),
    {
        proof {
            use_type_invariant(self);
        }
        let mut acc: u64 = 0;
        let mut i: usize = 0;
        while i < self.words.len()
            invariant
                i <= self@.len(),
                self@.len() == self.words@.len(),
                acc == nanos_total(self@.take(i as int)),
                nanos_total(self@) <= u64::MAX,
            decreases self@.len() - i,
        {
            proof {
                lemma_totals_step(self@, i as int);
                lemma_totals_prefix(self@, i + 1);
            }
            match checked_nanos(acc, self.words[i].metrics()) {
                Some(next) => {
                    acc = next;
                },
                None => {
                    return Duration::zero();
                },
            }
            i = i + 1;
        }
        proof {
            assert(self@.take(i as int) =~= self@);
        }
        Duration::from_nanos(acc)
    }

    /// Time recorded for each finished word, in nanoseconds, in typing order.
    pub fn word_durations(&self) -> (r: Vec<u64>)
        ensures
            r@.len() == self@.len(),
            forall|i: int| 0 <= i < self@.len() ==> r@[i] == metrics_nanos(#[trigger] self@[i].metrics),
    {
        proof {
            use_type_invariant(self);
        }
        let mut out: Vec<u64> = Vec::new();
        let mut i: usize = 0;
        while i < self.words.len()
            invariant
                i <= self@.len(),
                self@.len() == self.words@.len(),
                out@.len() == i,
                forall|j: int| 0 <= j < i ==> out@[j] == metrics_nanos(#[trigger] self@[j].metrics),
                nanos_total(self@) <= u64::MAX,
            decreases self@.len() - i,
        {
            proof {
                lemma_totals_step(self@, i as int);
                lemma_totals_prefix(self@, i + 1);
            }
            match checked_nanos(0, self.words[i].metrics()) {
                Some(n) => {
                    out.push(n);
                },
                None => {
                    return out;
                },
            }
            i = i + 1;
        }
        out
    }

    /// Words per minute as an exact fraction `(numerator, denominator)`:
    /// characters over five, per minute of recorded time. With no finished
    /// word it is `(0, 1)`, that is zero.
    pub fn wpm_ratio(&self) -> (r: (u128, u128))
        ensures
            self@.len() == 0 ==> r == (0u128, 1u128),
            self@.len() > 0 ==> r.0 == char_total(self@) * NANOS_PER_MINUTE,
            self@.len() > 0 ==> r.1 == nanos_total(self@) * CHARS_PER_WORD,
    {
        if self.words.len() == 0 {
            return (0, 1);
        }
        let chars = self.char_cnt() as u128;
        let nanos = self.duration().as_nanos() as u128;
        assert(chars * NANOS_PER_MINUTE <= u128::MAX) by (nonlinear_arith)
            requires
                chars <= u64::MAX,
        ;
        (chars * NANOS_PER_MINUTE, nanos * CHARS_PER_WORD)
    }
}

} // verus!

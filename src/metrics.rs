use vstd::prelude::*;

use crate::duration::Duration;

verus! {

/// One classified keystroke of a word, with the time elapsed since the
/// keystroke before it.
#[derive(Clone, Copy, Debug, PartialEq, Eq, Structural)]
#[non_exhaustive]
pub enum Metric {
    /// The keystroke that confirmed a completed word.
    Delimiter { value: char, duration: Duration },
    /// A keystroke that produced the expected character.
    Match { value: char, duration: Duration },
    /// A keystroke that produced `value` where `expected` was due.
    Typo { value: char, expected: char, duration: Duration },
}

impl Metric {
    /// The time recorded with this keystroke, in nanoseconds.
    pub open spec fn nanos(self) -> nat {
        match self {
            Metric::Delimiter { duration, .. } => duration.nanos as nat,
            Metric::Match { duration, .. } => duration.nanos as nat,
            Metric::Typo { duration, .. } => duration.nanos as nat,
        }
    }

    pub fn duration(&self) -> (r: Duration)
        ensures
            r.nanos == self.nanos(),
    {
        match self {
            Metric::Delimiter { duration, .. } => *duration,
            Metric::Match { duration, .. } => *duration,
            Metric::Typo { duration, .. } => *duration,
        }
    }

    pub fn is_typo(&self) -> (r: bool)
        ensures
            r == self is Typo,
    {
        match self {
            Metric::Typo { .. } => true,
            _ => false,
        }
    }
}

/// Total time recorded in a sequence of keystrokes, in nanoseconds.
pub open spec fn metrics_nanos(ms: Seq<Metric>) -> nat
    decreases ms.len(),
{
    if ms.len() == 0 {
        0
    } else {
        metrics_nanos(ms.drop_last()) + ms.last().nanos()
    }
}

/// Number of typos in a sequence of keystrokes.
pub open spec fn metrics_typos(ms: Seq<Metric>) -> nat
    decreases ms.len(),
{
    if ms.len() == 0 {
        0
    } else {
        metrics_typos(ms.drop_last()) + if ms.last() is Typo { 1nat } else { 0nat }
    }
}

} // verus!

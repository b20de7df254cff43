use vstd::prelude::*;

use rand::seq::SliceRandom;
use std::collections::VecDeque;

verus! {

/// Whether every character of `word` is in `allowed`.
pub open spec fn uses_only(word: Seq<char>, allowed: Seq<char>) -> bool {
    forall|i: int| 0 <= i < word.len() ==> allowed.contains(#[trigger] word[i])
}

/// No word of the corpus uses only the allowed characters, so none can be drawn.
#[derive(Clone, Copy, Debug, PartialEq, Eq, Structural)]
pub struct SamplingExhausted;

/// Relies on rand's `SliceRandom::choose` with the thread-local generator:
/// `None` exactly for an empty slice, otherwise one of its elements.
#[verifier::external_body]
fn choose_word<'a>(words: &[&'a str]) -> (r: Option<&'a str>)
    ensures
        r is None <==> words@.len() == 0,
        r matches Some(w) ==> words@.contains(w),
{
    words.choose(&mut rand::thread_rng()).copied()
}

/// Whether `c` occurs in `s`.
fn contains_char(s: &str, c: char) -> (r: bool)
    ensures
        r == s@.contains(c),
{
    let n = s.unicode_len();
    let mut i: usize = 0;
    while i < n
        invariant
            n == s@.len(),
            i <= n,
            forall|j: int| 0 <= j < i ==> s@[j] != c,
        decreases n - i,
    {
        if s.get_char(i) == c {
            return true;
        }
        i = i + 1;
    }
    false
}

/// Whether every character of `word` is one of the characters of `allowed`.
pub fn uses_only_allowed(word: &str, allowed: &str) -> (r: bool)
    ensures
        r == uses_only(word@, allowed@),
{
    let n = word.unicode_len();
    let mut i: usize = 0;
    while i < n
        invariant
            n == word@.len(),
            i <= n,
            forall|j: int| 0 <= j < i ==> allowed@.contains(#[trigger] word@[j]),
        decreases n - i,
    {
        if !contains_char(allowed, word.get_char(i)) {
            return false;
        }
        i = i + 1;
    }
    true
}

/// The words of `word_list` made only of characters of `allowed`, in order.
fn eligible_words<'a>(word_list: &[&'a str], allowed: &str) -> (r: Vec<&'a str>)
    ensures
        forall|j: int|
            0 <= j < r@.len() ==> word_list@.contains(#[trigger] r@[j]) && uses_only(
                r@[j]@,
                allowed@,
            ),
        r@.len() == 0 <==> forall|i: int|
            0 <= i < word_list@.len() ==> !uses_only(#[trigger] word_list@[i]@, allowed@),
{
    let mut out: Vec<&'a str> = Vec::new();
    let mut i: usize = 0;
    while i < word_list.len()
        invariant
            i <= word_list@.len(),
            forall|j: int|
                0 <= j < out@.len() ==> word_list@.contains(#[trigger] out@[j]) && uses_only(
                    out@[j]@,
                    allowed@,
                ),
            out@.len() == 0 <==> forall|k: int|
                0 <= k < i ==> !uses_only(#[trigger] word_list@[k]@, allowed@),
        decreases word_list@.len() - i,
    {
        let word = word_list[i];
        if uses_only_allowed(word, allowed) {
            out.push(word);
            proof {
                assert(word_list@[i as int] == word);
            }
        }
        i = i + 1;
    }
    out
}

/// Draws `amount` practice words, with replacement and uniformly, among the
/// words of `word_list` that use only characters of `allowed`.
///
/// The corpus is filtered once, so the draw ends even where no word
/// qualifies: it then fails, unless no word was asked for.
pub fn get_test_words<'a>(word_list: &[&'a str], allowed: &str, amount: usize) -> (r: Result<
    VecDeque<&'a str>,
    SamplingExhausted,
>)
    ensures
        r is Err <==> amount > 0 && forall|i: int|
            0 <= i < word_list@.len() ==> !uses_only(#[trigger] word_list@[i]@, allowed@),
        r matches Ok(words) ==> {
            &&& words@.len() == amount
            &&& forall|j: int|
                0 <= j < words@.len() ==> word_list@.contains(#[trigger] words@[j]) && uses_only(
                    words@[j]@,
                    allowed@,
                )
        },
{
    let eligible = eligible_words(word_list, allowed);
    if amount > 0 && eligible.len() == 0 {
        return Err(SamplingExhausted);
    }
    let mut words: VecDeque<&'a str> = VecDeque::new();
    let mut n: usize = 0;
    while n < amount
        invariant
            n <= amount,
            amount > 0 ==> eligible@.len() > 0,
            words@.len() == n,
            forall|j: int|
                0 <= j < eligible@.len() ==> word_list@.contains(#[trigger] eligible@[j])
                    && uses_only(eligible@[j]@, allowed@),
            forall|j: int|
                0 <= j < words@.len() ==> word_list@.contains(#[trigger] words@[j]) && uses_only(
                    words@[j]@,
                    allowed@,
                ),
        decreases amount - n,
    {
        match choose_word(eligible.as_slice()) {
            Some(word) => {
                proof {
                    let e = choose|e: int| 0 <= e < eligible@.len() && eligible@[e] == word;
                    assert(word_list@.contains(eligible@[e]));
                }
                words.push_back(word);
            },
            None => {
                return Err(SamplingExhausted);
            },
        }
        n = n + 1;
    }
    Ok(words)
}

} // verus!

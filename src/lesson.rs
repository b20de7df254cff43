use vstd::prelude::*;

use crate::keymap::KeyCode;

verus! {

/// What to do once a lesson's results are on screen.
#[derive(Clone, Copy, Debug, PartialEq, Eq, Structural)]
pub enum Choice {
    /// Go on to the next lesson.
    NextLesson,
    /// End the whole run.
    Quit,
    /// Keep showing the results.
    Wait,
}

/// The allowed alphabets of the lessons, in the order they are taken: the
/// eight home-row starting keys, the full home row, then the home row with
/// two groups of further letters, and finally the whole alphabet.
pub fn lessons() -> (r: Vec<&'static str>)
    ensures
        r@ == seq![
            "aoeuhtns",
            "aoeuidhtns",
            "aoeuidhtnscfklmprv",
            "aoeuidhtnsbgjqwxyz",
            "abcdefghijklmnopqrstuvwxyz",
        ],
{
    let r = vec![
        "aoeuhtns",
        "aoeuidhtns",
        "aoeuidhtnscfklmprv",
        "aoeuidhtnsbgjqwxyz",
        "abcdefghijklmnopqrstuvwxyz",
    ];
    proof {
        assert(r@ =~= seq![
            "aoeuhtns",
            "aoeuidhtns",
            "aoeuidhtnscfklmprv",
            "aoeuidhtnsbgjqwxyz",
            "abcdefghijklmnopqrstuvwxyz",
        ]);
    }
    r
}

/// The decision for a key pressed while a lesson's results are shown:
/// escape ends the run, enter moves on, any other key is ignored.
pub fn after_results(code: KeyCode) -> (r: Choice)
    ensures
        r == match code {
            KeyCode::Esc => Choice::Quit,
            KeyCode::Enter => Choice::NextLesson,
            _ => Choice::Wait,
        },
{
    match code {
        KeyCode::Esc => Choice::Quit,
        KeyCode::Enter => Choice::NextLesson,
        _ => Choice::Wait,
    }
}

} // verus!

//! The authoritative score pair and the message that replaces it.

use vstd::prelude::*;

verus! {

/// Points for each side; the single source of truth for win detection.
#[derive(Clone, Copy, Debug, PartialEq, Eq, Structural)]
pub struct Score {
    pub right_score: u32,
    pub left_score: u32,
}

impl Score {
    /// A fresh score of 0 : 0.
    pub fn new() -> (s: Score)
        ensures
            s.left_score == 0,
            s.right_score == 0,
    {
        Score { right_score: 0, left_score: 0 }
    }
}

/// A score change carries a complete replacement value, not a delta.
#[derive(Clone, Copy, Debug, PartialEq, Eq, Structural)]
pub struct ScoreChanged(pub Score);

/// Apply a tick's drained score messages: the last one observed wins, and no
/// intermediate value is ever retained.
pub fn update_score(score: &mut Score, events: &Vec<ScoreChanged>)
    ensures
        events@.len() == 0 ==> *final(score) == *old(score),
        events@.len() > 0 ==> *final(score) == events@.last().0,
{
    let mut i: usize = 0;
    while i < events.len()
        invariant
            i <= events@.len(),
            i == 0 ==> *score == *old(score),
            i > 0 ==> *score == events@[i - 1].0,
        decreases events@.len() - i,
    {
        *score = events[i].0;
        i = i + 1;
    }
}

} // verus!

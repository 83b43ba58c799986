//! The match clock shown in the score bar: whole minutes and seconds.

use vstd::prelude::*;

verus! {

/// A minutes-and-seconds clock, advanced once per elapsed second.
#[derive(Clone, Copy, Debug, PartialEq, Eq, Structural)]
pub struct TimerText {
    pub minutes: u32,
    pub seconds: u32,
}

impl TimerText {
    /// A clock at 0:00.
    pub fn new() -> (t: TimerText)
        ensures
            t.minutes == 0,
            t.seconds == 0,
    {
        TimerText { minutes: 0, seconds: 0 }
    }

    /// One elapsed second; seconds roll over into minutes at 60.
    pub fn advance(&mut self)
        requires
            old(self).seconds < 60,
            old(self).minutes < u32::MAX,
        ensures
            final(self).minutes * 60 + final(self).seconds == old(self).minutes * 60 + old(
                self,
            ).seconds + 1,
            final(self).seconds < 60,
    {
        self.seconds = self.seconds + 1;
        if self.seconds == 60 {
            self.seconds = 0;
            self.minutes = self.minutes + 1;
        }
    }
}

} // verus!

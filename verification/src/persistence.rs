//! Platform-neutral application persistence: the best score reached so far.
//!
//! Touch calibration is device configuration owned by the platform. The high
//! score below is independent application data; saving it to storage is left
//! to the caller, which `record_if_higher` tells when a save is due.

use vstd::prelude::*;

verus! {

/// The best score reached so far.
#[derive(Clone, Copy, Debug, PartialEq, Eq, Structural)]
pub struct HighScore(u32);

impl View for HighScore {
    type V = u32;

    closed spec fn view(&self) -> u32 {
        self.0
    }
}

impl Default for HighScore {
    fn default() -> (high_score: Self)
        ensures
            high_score@ == 0,
    {
        HighScore(0)
    }
}

impl HighScore {
    /// The best score.
    pub fn value(self) -> (value: u32)
        ensures
            value == self@,
    {
        self.0
    }

    /// Takes `score` as the new best when it beats the current one. Returns
    /// whether it did, which is when the high score needs saving. Afterwards
    /// the high score is the larger of the old best and `score`: it never goes
    /// down, and offering the same score again records nothing.
    pub fn record_if_higher(&mut self, score: u32) -> (recorded: bool)
        ensures
            recorded == (score > old(self)@),
            final(self)@ == if recorded {
                score
            } else {
                old(self)@
            },
            final(self)@ >= old(self)@,
            final(self)@ >= score,
            final(self)@ == old(self)@ || final(self)@ == score,
    {
        if score <= self.0 {
            return false;
        }
        self.0 = score;
        true
    }
}

} // verus!

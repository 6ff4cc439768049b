//! A score: timed notes collected for later rendering.  The duration
//! feature is a stub of the wider system; the score only accumulates
//! notes.

use vstd::prelude::*;
use crate::note::Harmonym;
use crate::SAMPLE_RATE;

verus! {

/// When a note starts (in frames) and how long it lasts (in
/// milliseconds).
#[derive(Debug, Clone, Copy)]
pub struct NoteDuration {
    pub start: u32,
    pub dur: u64,
}

/// A sequence of timed notes at a fixed sample rate.
#[derive(Debug)]
pub struct Score {
    pub sample_rate: u32,
    pub total_frames: u32,
    pub notes: Vec<(NoteDuration, Harmonym)>,
}

impl Score {
    /// An empty score at the engine's sample rate.
    pub fn new() -> (r: Score)
        ensures
            r.sample_rate == SAMPLE_RATE,
            r.total_frames == 0,
            r.notes@.len() == 0,
    {
        Score { sample_rate: SAMPLE_RATE, total_frames: 0, notes: Vec::new() }
    }

    /// Appends one timed note.
    pub fn push(&mut self, note: (NoteDuration, Harmonym))
        ensures
            final(self).notes@ == old(self).notes@.push(note),
            final(self).sample_rate == old(self).sample_rate,
            final(self).total_frames == old(self).total_frames,
    {
        self.notes.push(note);
    }
}

} // verus!

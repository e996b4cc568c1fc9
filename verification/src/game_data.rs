//! Session-wide data shared by every scene: the score, the screen size,
//! and the timing of the current level.
//!
//! Timestamps are microseconds on a monotonic clock supplied by the caller,
//! so that the timing logic itself stays free of any clock reads.

use vstd::prelude::*;

verus! {

/// Mutable record threaded through every scene lifecycle call.
pub struct GameData {
    pub points: u32,
    pub screen_width: i32,
    pub screen_height: i32,
    /// When the current level was entered, in microseconds.
    pub level_start_micros: Option<u64>,
    /// When the current level was completed, in microseconds.
    pub level_completion_micros: Option<u64>,
}

impl GameData {
    /// The screen dimensions are sizes, never negative, and a completion
    /// time is recorded only at or after the level start, so the
    /// elapsed-time query can never go negative.
    pub open spec fn wf(self) -> bool {
        &&& self.screen_width >= 0
        &&& self.screen_height >= 0
        &&& match (self.level_start_micros, self.level_completion_micros) {
            (Some(s), Some(c)) => s <= c,
            _ => true,
        }
    }

    /// The elapsed level time: defined only once the level was both
    /// started and completed.
    pub open spec fn elapsed_spec(self) -> Option<int> {
        match (self.level_start_micros, self.level_completion_micros) {
            (Some(s), Some(c)) => Some(c - s),
            _ => None,
        }
    }

    pub fn new(width: i32, height: i32) -> (d: GameData)
        requires
            width >= 0,
            height >= 0,
        ensures
            d == (GameData {
                points: 0u32,
                screen_width: width,
                screen_height: height,
                level_start_micros: None,
                level_completion_micros: None,
            }),
            d.wf(),
    {
        GameData {
            points: 0,
            screen_width: width,
            screen_height: height,
            level_start_micros: None,
            level_completion_micros: None,
        }
    }

    /// Add one to the player's total points.
    pub fn score(&mut self)
        requires
            old(self).points < u32::MAX,
        ensures
            *final(self) == (GameData { points: (old(self).points + 1) as u32, ..*old(self) }),
    {
        self.points = self.points + 1;
    }

    /// Start timing a level: any completion time from an earlier run is cleared.
    pub fn start_level_timer(&mut self, now_micros: u64)
        ensures
            *final(self) == (GameData {
                level_start_micros: Some(now_micros),
                level_completion_micros: None,
                ..*old(self)
            }),
            old(self).wf() ==> final(self).wf(),
    {
        self.level_start_micros = Some(now_micros);
        self.level_completion_micros = None;
    }

    /// Record the level completion time.
    pub fn complete_level(&mut self, now_micros: u64)
        requires
            old(self).level_start_micros matches Some(s) ==> s <= now_micros,
        ensures
            *final(self) == (GameData {
                level_completion_micros: Some(now_micros),
                ..*old(self)
            }),
            old(self).wf() ==> final(self).wf(),
    {
        self.level_completion_micros = Some(now_micros);
    }

    /// The elapsed level time in microseconds, or `None` if the level has
    /// not been both started and completed.
    pub fn get_elapsed_time(&self) -> (r: Option<u64>)
        requires
            self.wf(),
        ensures
            match r {
                Some(e) => self.elapsed_spec() == Some(e as int),
                None => self.elapsed_spec() is None,
            },
    {
        match (self.level_start_micros, self.level_completion_micros) {
            (Some(start), Some(completion)) => Some(completion - start),
            _ => None,
        }
    }
}

/// A level timer that was started and then completed yields exactly
/// `completion - start`, and the well-formedness invariant keeps that
/// difference non-negative in every reachable state.
pub proof fn lemma_elapsed_round_trip(d: GameData, s: u64, c: u64)
    requires
        d.wf(),
        d.level_start_micros == Some(s),
        d.level_completion_micros == Some(c),
    ensures
        d.elapsed_spec() == Some(c - s as int),
        d.elapsed_spec() matches Some(e) && e >= 0,
{
}

} // verus!

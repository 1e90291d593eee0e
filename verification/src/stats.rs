//! Accuracy and speed scoring, derived from the session counters.

use vstd::prelude::*;

use crate::state::Counters;

verus! {

/// The score of a session, kept exact: accuracy is the ratio of correct
/// to attempted words, and speed extrapolates the correct count over the
/// fixed session duration.  The struct carries the raw quantities so that
/// consumers can form the ratios at whatever precision they display.
#[derive(Clone, Copy, Debug, PartialEq, Eq, Structural)]
pub struct Stats {
    pub attempted_word_count: usize,
    pub correctly_typed_word_count: usize,
    pub time_limit_sec: u64,
}

impl Stats {
    /// The score once at least one word was attempted; nothing before
    /// that, so no ratio is ever formed over zero.
    pub fn from_counters(counters: &Counters, time_limit_sec: u64) -> (r: Option<Stats>)
        ensures
            r is Some <==> counters.attempted_word_count > 0,
            r matches Some(s) ==> s.attempted_word_count == counters.attempted_word_count
                && s.correctly_typed_word_count == counters.correctly_typed_word_count
                && s.time_limit_sec == time_limit_sec,
    {
        if counters.attempted_word_count > 0 {
            Some(
                Stats {
                    attempted_word_count: counters.attempted_word_count,
                    correctly_typed_word_count: counters.correctly_typed_word_count,
                    time_limit_sec: time_limit_sec,
                },
            )
        } else {
            None
        }
    }

    /// Accuracy in basis points (hundredths of a percent), rounded down:
    /// ten thousand times the correct count, divided by the attempted
    /// count.
    pub fn accuracy_basis_points(&self) -> (r: u64)
        requires
            self.attempted_word_count > 0,
            self.correctly_typed_word_count <= 0xFFFF_FFFF,
        ensures
            r == self.correctly_typed_word_count * 10000 / self.attempted_word_count as int,
    {
        (self.correctly_typed_word_count as u64) * 10000 / (self.attempted_word_count as u64)
    }

    /// Words per minute in hundredths, rounded down: the correct count
    /// extrapolated over the fixed session duration of
    /// `time_limit_sec` seconds.
    pub fn wpm_hundredths(&self) -> (r: u64)
        requires
            self.time_limit_sec > 0,
            self.correctly_typed_word_count <= 0xFFFF_FFFF,
        ensures
            r == self.correctly_typed_word_count * 6000 / self.time_limit_sec as int,
    {
        (self.correctly_typed_word_count as u64) * 6000 / self.time_limit_sec
    }
}

} // verus!

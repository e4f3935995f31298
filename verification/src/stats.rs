//! The statistics of the service.

use crate::cache::LevelCache;
use vstd::prelude::*;

verus! {

/// How many levels each cache holds.
#[derive(Clone, Copy, Debug, PartialEq, Eq, Structural)]
pub struct Stats {
    /// The levels stored as sent (as the database counts them).
    pub sent: i64,
    /// The levels in the temporary cache of levels not sent.
    pub not_sent: usize,
}

impl LevelCache {
    /// The statistics, given how many levels the database stores as sent.
    pub fn get_stats(&self, total_sent: i64) -> (stats: Stats)
        ensures
            stats.sent == total_sent,
            stats.not_sent == self@.not_sent.len(),
    {
        Stats { sent: total_sent, not_sent: self.not_sent_count() }
    }
}

} // verus!

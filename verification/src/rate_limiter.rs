//! A per-user rate limiter: a circular buffer of recent transaction
//! timestamps, refusing a transaction once too many fall inside the window.

use vstd::prelude::*;

verus! {

/// A transaction record counts against the limit when it is set (positive)
/// and falls inside the rate window ending at `now`.
pub open spec fn spec_recent(timestamp: i64, now: i64) -> bool {
    timestamp > 0 && now - timestamp < RateLimiter::RATE_WINDOW_SECONDS
}

/// How many of the first `upto` recorded timestamps count against the limit
/// at `now`.
pub open spec fn count_recent_prefix(timestamps: Seq<i64>, now: i64, upto: int) -> int
    decreases upto,
{
    if upto <= 0 {
        0
    } else {
        count_recent_prefix(timestamps, now, upto - 1) + if spec_recent(
            timestamps[upto - 1],
            now,
        ) {
            1int
        } else {
            0int
        }
    }
}

/// How many recorded timestamps count against the limit at `now`.
pub open spec fn count_recent(timestamps: Seq<i64>, now: i64) -> int {
    count_recent_prefix(timestamps, now, timestamps.len() as int)
}

/// Per-user rate limiter state: the last 100 transaction timestamps in a
/// circular buffer.
#[derive(Clone, Copy, Debug)]
pub struct RateLimiter {
    /// Identity of the user being limited.
    pub user: u64,
    /// Circular buffer of recent transaction timestamps; zero means unused.
    pub recent_timestamps: [i64; 100],
    /// Current write position in the circular buffer; always below 100.
    pub write_index: u8,
    /// Number of transactions inside the window as of the last record.
    pub tx_count: u8,
}

impl RateLimiter {
    /// Most transactions allowed per window per user.
    pub const MAX_TPS_PER_USER: u8 = 100;

    /// Length of the rate window, in seconds.
    pub const RATE_WINDOW_SECONDS: i64 = 1;

    /// Well-formedness: the write position stays inside the buffer.
    pub open spec fn wf(self) -> bool {
        self.write_index < 100
    }

    /// Whether the user may transact at `current_time`: fewer than the
    /// maximum number of recorded timestamps fall inside the window.
    pub fn can_transact(&self, current_time: i64) -> (allowed: bool)
        ensures
            allowed == (count_recent(self.recent_timestamps@, current_time)
                < RateLimiter::MAX_TPS_PER_USER),
    {
        let mut count: u8 = 0;
        let mut scanned: usize = 0;
        while scanned < 100
            invariant
                scanned <= 100,
                count <= scanned,
                self.recent_timestamps@.len() == 100,
                count == count_recent_prefix(
                    self.recent_timestamps@,
                    current_time,
                    scanned as int,
                ),
            decreases 100 - scanned,
        {
            let timestamp = self.recent_timestamps[scanned];
            if timestamp > 0 && (current_time as i128) - (timestamp as i128) < (
            RateLimiter::RATE_WINDOW_SECONDS as i128) {
                count = count + 1;
            }
            scanned = scanned + 1;
        }
        count < RateLimiter::MAX_TPS_PER_USER
    }

    /// Record a transaction at `current_time`: write it at the current
    /// buffer position, advance the position circularly, and recount the
    /// transactions inside the window.
    pub fn record_transaction(&mut self, current_time: i64)
        requires
            old(self).wf(),
        ensures
            final(self).wf(),
            final(self).recent_timestamps@ == old(self).recent_timestamps@.update(
                old(self).write_index as int,
                current_time,
            ),
            final(self).write_index == (old(self).write_index + 1) % 100,
            final(self).tx_count == count_recent(final(self).recent_timestamps@, current_time),
            final(self).user == old(self).user,
    {
        let slot = self.write_index as usize;
        self.recent_timestamps[slot] = current_time;
        self.write_index = (self.write_index + 1) % 100;
        let mut count: u8 = 0;
        let mut scanned: usize = 0;
        while scanned < 100
            invariant
                scanned <= 100,
                count <= scanned,
                self.recent_timestamps@.len() == 100,
                count == count_recent_prefix(
                    self.recent_timestamps@,
                    current_time,
                    scanned as int,
                ),
            decreases 100 - scanned,
        {
            let timestamp = self.recent_timestamps[scanned];
            if timestamp > 0 && (current_time as i128) - (timestamp as i128) < (
            RateLimiter::RATE_WINDOW_SECONDS as i128) {
                count = count + 1;
            }
            scanned = scanned + 1;
        }
        self.tx_count = count;
    }
}

} // verus!

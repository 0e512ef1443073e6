//! The update-rate limiter that paces how often the host may pump the OS
//! event queue.

use vstd::prelude::*;

verus! {

/// The wait between two event-queue polls a freshly created window asks for,
/// in microseconds.
pub const DEFAULT_UPDATE_INTERVAL: u64 = 4000;

/// Decides how long the host must wait before polling the OS event queue
/// again.
///
/// The limiter never performs the wait itself: [`tick`](Self::tick) returns
/// the number of microseconds still owed, and the caller sleeps that long
/// before pumping events.  A disabled limiter (target interval `None`) owes
/// nothing.  A tick that arrives later than the target interval owes nothing
/// either and restarts the clock at its own arrival time, so a slow frame is
/// never compensated by back-to-back fast ones.
#[derive(Clone, Copy, Debug)]
pub struct RateLimiter {
    target: Option<u64>,
    last_tick: u64,
}

impl RateLimiter {
    /// The configured target interval in microseconds, `None` when waiting is
    /// disabled.
    pub closed spec fn spec_target(self) -> Option<u64> {
        self.target
    }

    /// When the previous tick took effect, in microseconds.
    pub closed spec fn spec_last_tick(self) -> u64 {
        self.last_tick
    }

    /// A limiter created at time `now` with the default target interval.
    pub fn new(now: u64) -> (r: RateLimiter)
        ensures
            r.spec_target() == Some(DEFAULT_UPDATE_INTERVAL),
            r.spec_last_tick() == now,
    {
        RateLimiter { target: Some(DEFAULT_UPDATE_INTERVAL), last_tick: now }
    }

    /// Reconfigures the target interval, taking effect on the next tick.
    /// `None` disables waiting altogether.
    pub fn set_rate(&mut self, target: Option<u64>)
        ensures
            final(self).spec_target() == target,
            final(self).spec_last_tick() == old(self).spec_last_tick(),
    {
        self.target = target;
    }

    /// Registers one `update` call at time `now` (microseconds) and returns
    /// how many microseconds the caller still has to wait before pumping the
    /// event queue.
    ///
    /// With a target interval `d`, the wait is whatever is missing until `d`
    /// microseconds have passed since the previous tick took effect; if `d`
    /// has already passed, the wait is zero and no debt is carried over.  The
    /// next tick is measured from `now + wait`, the moment the caller's wait
    /// ends, held at the end of the `u64` range where that sum would pass it.
    /// With no target interval the call changes nothing and owes nothing.
    pub fn tick(&mut self, now: u64) -> (wait: u64)
        ensures
            final(self).spec_target() == old(self).spec_target(),
            old(self).spec_target() matches Some(d) ==> {
                let elapsed = if now >= old(self).spec_last_tick() {
                    now - old(self).spec_last_tick()
                } else {
                    0
                };
                &&& wait == (if elapsed >= d {
                    0
                } else {
                    d - elapsed
                })
                &&& final(self).spec_last_tick() as int == (if now + wait <= u64::MAX {
                    now + wait
                } else {
                    u64::MAX as int
                })
            },
            old(self).spec_target() is None ==> wait == 0 && *final(self) == *old(self),
    {
        match self.target {
            None => 0,
            Some(d) => {
                let elapsed: u64 = if now >= self.last_tick {
                    now - self.last_tick
                } else {
                    0
                };
                let wait: u64 = if elapsed >= d {
                    0
                } else {
                    d - elapsed
                };
                self.last_tick = if wait <= u64::MAX - now {
                    now + wait
                } else {
                    u64::MAX
                };
                wait
            },
        }
    }
}

} // verus!

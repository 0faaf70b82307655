use vstd::prelude::*;

verus! {

/// Interval between toggles of the heartbeat indicator.
pub const HEARTBEAT_INTERVAL_MS: u64 = 500;

/// Interval between liveness reports.
pub const APP_STATUS_INTERVAL_MS: u64 = 10_000;

/// What the orchestrator's loop is to do on this pass.
#[derive(Clone, Copy, Debug, PartialEq, Eq, Structural)]
pub struct HousekeepingActions {
    pub toggle_heartbeat: bool,
    /// The uptime to report, in whole seconds, when a report is due.
    pub uptime_seconds: Option<u64>,
}

/// When the heartbeat last toggled and the liveness report last went out, in
/// milliseconds since the application started.
#[derive(Clone, Copy, Debug, PartialEq, Eq, Structural)]
pub struct Housekeeping {
    pub last_heartbeat_ms: u64,
    pub last_status_ms: u64,
}

/// Whether `interval` has passed from `last` to `now` (never, when `now`
/// lies before `last`).
pub open spec fn is_due(last: u64, now: u64, interval: u64) -> bool {
    now >= last && now - last >= interval
}

impl Housekeeping {
    /// Timers that start counting at `now_ms`.
    pub fn new(now_ms: u64) -> (r: Housekeeping)
        ensures
            r.last_heartbeat_ms == now_ms,
            r.last_status_ms == now_ms,
    {
        Housekeeping { last_heartbeat_ms: now_ms, last_status_ms: now_ms }
    }

    /// One pass at `now_ms` milliseconds since start: each timer that is due
    /// fires and restarts from `now_ms`; the others are kept.
    pub fn poll(&mut self, now_ms: u64) -> (r: HousekeepingActions)
        ensures
            r.toggle_heartbeat == is_due(old(self).last_heartbeat_ms, now_ms, HEARTBEAT_INTERVAL_MS),
            final(self).last_heartbeat_ms == (if r.toggle_heartbeat { now_ms } else { old(self).last_heartbeat_ms }),
            is_due(old(self).last_status_ms, now_ms, APP_STATUS_INTERVAL_MS) ==> r.uptime_seconds == Some(now_ms / 1000)
                && final(self).last_status_ms == now_ms,
            !is_due(old(self).last_status_ms, now_ms, APP_STATUS_INTERVAL_MS) ==> r.uptime_seconds is None
                && final(self).last_status_ms == old(self).last_status_ms,
    {
        let uptime_seconds = if now_ms >= self.last_status_ms && now_ms - self.last_status_ms >= APP_STATUS_INTERVAL_MS {
            self.last_status_ms = now_ms;
            Some(now_ms / 1000)
        } else {
            None
        };
        let toggle_heartbeat = now_ms >= self.last_heartbeat_ms && now_ms - self.last_heartbeat_ms >= HEARTBEAT_INTERVAL_MS;
        if toggle_heartbeat {
            self.last_heartbeat_ms = now_ms;
        }
        HousekeepingActions { toggle_heartbeat, uptime_seconds }
    }
}

} // verus!

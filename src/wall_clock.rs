use vstd::prelude::*;

verus! {

/// Seconds after the hour at which the drift is measured from the half hour.
pub const HALF_HOUR_REGION_START: u32 = 900;

/// Seconds after the hour at which the drift is measured from the next hour.
pub const NEXT_HOUR_REGION_START: u32 = 2100;

/// A wall-clock reading, reduced to the fields that the drift computation reads.
#[derive(Clone, Copy, Debug, PartialEq, Eq, Structural)]
pub struct WallClockTime {
    pub hour: u32,
    pub minute: u32,
    pub second: u32,
}

impl WallClockTime {
    /// A valid reading: hour 0..23, minute 0..59, second 0..59.
    pub open spec fn wf(&self) -> bool {
        self.hour < 24 && self.minute < 60 && self.second < 60
    }

    /// Seconds elapsed since the start of the hour (0..3599 for a valid reading).
    pub open spec fn seconds_into_hour(&self) -> int {
        self.minute * 60 + self.second
    }

    /// Builds a reading, or `None` when a field is out of its range.
    pub fn new(hour: u32, minute: u32, second: u32) -> (r: Option<WallClockTime>)
        ensures
            r is Some <==> (hour < 24 && minute < 60 && second < 60),
            r matches Some(t) ==> t.wf() && t.hour == hour && t.minute == minute
                && t.second == second,
    {
        if hour < 24 && minute < 60 && second < 60 {
            Some(WallClockTime { hour, minute, second })
        } else {
            None
        }
    }
}

/// Signed distance, in seconds, from `total` seconds after the hour to the
/// nearest `:00` or `:30` boundary: negative when early, positive when late.
pub open spec fn half_hour_offset(total: int) -> int {
    if total < HALF_HOUR_REGION_START {
        total
    } else if total < NEXT_HOUR_REGION_START {
        total - 1800
    } else {
        total - 3600
    }
}

/// How far `t` lies from the nearest half-hour boundary, in whole seconds.
pub fn offset_from_half_hour(t: WallClockTime) -> (r: i32)
    requires
        t.wf(),
    ensures
        r == half_hour_offset(t.seconds_into_hour()),
        -1800 <= r < 1800,
{
    let total: u32 = t.minute * 60 + t.second;
    if total < HALF_HOUR_REGION_START {
        total as i32
    } else if total < NEXT_HOUR_REGION_START {
        total as i32 - 1800
    } else {
        total as i32 - 3600
    }
}

/// Relies on chrono's `Local::now`, `DateTime::naive_local` and `Timelike`'s
/// `hour`, `minute` and `second`, documented to return 0..23, 0..59 and 0..59.
#[verifier::external_body]
pub(crate) fn local_wall_clock() -> (r: WallClockTime)
    ensures
        r.wf(),
{
    let now = chrono::Local::now().naive_local();
    WallClockTime {
        hour: chrono::Timelike::hour(&now),
        minute: chrono::Timelike::minute(&now),
        second: chrono::Timelike::second(&now),
    }
}

} // verus!

use vstd::prelude::*;

verus! {

/// What the clock winder reports.
#[derive(Clone, Copy, Debug, PartialEq, Eq, Structural)]
pub enum ClockWinderStatus {
    Unknown,
    Idle,
    WindingTimekeeping,
    WindingStriking,
}

/// The status that the two active-low winding requests call for: striking
/// goes first when both ask.
pub open spec fn requested_status(striking_low: bool, timekeeping_low: bool) -> ClockWinderStatus {
    if striking_low {
        ClockWinderStatus::WindingStriking
    } else if timekeeping_low {
        ClockWinderStatus::WindingTimekeeping
    } else {
        ClockWinderStatus::Idle
    }
}

/// The event a poll reports from last status `last`: the requested status,
/// exactly when it differs.
pub open spec fn winder_event(last: ClockWinderStatus, striking_low: bool, timekeeping_low: bool) -> Option<ClockWinderStatus> {
    let s = requested_status(striking_low, timekeeping_low);
    if s != last {
        Some(s)
    } else {
        None
    }
}

/// The name under which a status is reported.
pub open spec fn winder_status_name(s: ClockWinderStatus) -> Seq<char> {
    match s {
        ClockWinderStatus::Unknown => "Unknown"@,
        ClockWinderStatus::Idle => "Idle"@,
        ClockWinderStatus::WindingTimekeeping => "WindingTimekeeping"@,
        ClockWinderStatus::WindingStriking => "WindingStriking"@,
    }
}

impl ClockWinderStatus {
    /// The status's name.
    pub fn as_str(&self) -> (r: &'static str)
        ensures
            r@ == winder_status_name(*self),
    {
        match self {
            ClockWinderStatus::Unknown => "Unknown",
            ClockWinderStatus::Idle => "Idle",
            ClockWinderStatus::WindingTimekeeping => "WindingTimekeeping",
            ClockWinderStatus::WindingStriking => "WindingStriking",
        }
    }
}

/// The winder's memory between polls: the last reported status. The motor
/// outputs follow from it.
#[derive(Clone, Copy, Debug, PartialEq, Eq, Structural)]
pub struct ClockWinder {
    pub status: ClockWinderStatus,
}

impl ClockWinder {
    /// A winder that has reported nothing yet, with the motor off.
    pub fn new() -> (r: ClockWinder)
        ensures
            r.status == ClockWinderStatus::Unknown,
    {
        ClockWinder { status: ClockWinderStatus::Unknown }
    }

    /// One poll of the two requests (`true` = low, asking). The new status is
    /// the requested one; it is returned exactly when it differs from the last.
    pub fn poll(&mut self, striking_low: bool, timekeeping_low: bool) -> (event: Option<ClockWinderStatus>)
        ensures
            final(self).status == requested_status(striking_low, timekeeping_low),
            event == winder_event(old(self).status, striking_low, timekeeping_low),
    {
        let current = if striking_low {
            ClockWinderStatus::WindingStriking
        } else if timekeeping_low {
            ClockWinderStatus::WindingTimekeeping
        } else {
            ClockWinderStatus::Idle
        };
        if current != self.status {
            self.status = current;
            Some(current)
        } else {
            None
        }
    }

    /// The motor enable output (active-low): high unless winding.
    pub fn motor_enable_high(&self) -> (r: bool)
        ensures
            r == !(self.status == ClockWinderStatus::WindingStriking
                || self.status == ClockWinderStatus::WindingTimekeeping),
    {
        match self.status {
            ClockWinderStatus::WindingStriking | ClockWinderStatus::WindingTimekeeping => false,
            _ => true,
        }
    }

    /// The striking direction output: high while winding the striking train.
    pub fn motor_striking_high(&self) -> (r: bool)
        ensures
            r == (self.status == ClockWinderStatus::WindingStriking),
    {
        self.status == ClockWinderStatus::WindingStriking
    }

    /// The timekeeping direction output: high while winding the going train.
    pub fn motor_timekeeping_high(&self) -> (r: bool)
        ensures
            r == (self.status == ClockWinderStatus::WindingTimekeeping),
    {
        self.status == ClockWinderStatus::WindingTimekeeping
    }
}

/// When striking asks to be wound, the winder winds striking, whatever
/// timekeeping asks; it never winds timekeeping while both ask.
pub proof fn lemma_striking_has_priority(timekeeping_low: bool)
    ensures
        requested_status(true, timekeeping_low) == ClockWinderStatus::WindingStriking,
        requested_status(true, true) != ClockWinderStatus::WindingTimekeeping,
{
}

/// With the requests held steady, the second poll and every later one report
/// nothing: a poll reports only when the status changes, and then the new one.
pub proof fn lemma_steady_requests_report_once(last: ClockWinderStatus, striking_low: bool, timekeeping_low: bool)
    ensures
        winder_event(last, striking_low, timekeeping_low) is Some
            <==> requested_status(striking_low, timekeeping_low) != last,
        winder_event(last, striking_low, timekeeping_low) matches Some(s)
            ==> s == requested_status(striking_low, timekeeping_low),
        winder_event(requested_status(striking_low, timekeeping_low), striking_low, timekeeping_low) is None,
{
}

} // verus!

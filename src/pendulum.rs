use crate::text::same_text;
use vstd::prelude::*;

verus! {

/// Time a catch or free may take before the mechanism is declared stalled.
pub const CATCHER_TIMEOUT_MS: u64 = 2000;

/// Topic on which the catcher's commands arrive.
pub const PENDULUM_CATCHER_COMMAND_TOPIC: &'static str = "rust/PendulumCatcher/set";

/// A request to move the pendulum catcher.
#[derive(Clone, Copy, Debug, PartialEq, Eq, Structural)]
pub enum PendulumCatcherCommand {
    Catch,
    Free,
}

/// What the pendulum catcher reports.
#[derive(Clone, Copy, Debug, PartialEq, Eq, Structural)]
pub enum PendulumCatcherStatus {
    Unknown,
    Error,
    Catching,
    Caught,
    Freeing,
    Freed,
}

/// The catcher's memory between polls, and the levels it drives: both motor
/// outputs are active-low, a high direction means "free".
#[derive(Clone, Copy, Debug, PartialEq, Eq, Structural)]
pub struct PendulumCatcher {
    /// The last reported status.
    pub status: PendulumCatcherStatus,
    /// Monotonic time, in milliseconds, at which the last command was taken.
    pub command_started_ms: u64,
    pub motor_enable_high: bool,
    pub motor_direction_high: bool,
}

/// Milliseconds from `start` to `now`, zero when `now` lies before `start`.
pub open spec fn elapsed_ms(start: u64, now: u64) -> int {
    if now >= start {
        now - start
    } else {
        0
    }
}

/// The status read off the two end-stop inputs alone (both active-low).
pub open spec fn status_from_sensors(sense_in_low: bool, sense_out_low: bool) -> PendulumCatcherStatus {
    if sense_in_low && !sense_out_low {
        PendulumCatcherStatus::Freed
    } else if !sense_in_low && sense_out_low {
        PendulumCatcherStatus::Caught
    } else {
        PendulumCatcherStatus::Unknown
    }
}

/// Whether a movement started at `start` has run out of time at `now`.
pub open spec fn timed_out(start: u64, now: u64) -> bool {
    elapsed_ms(start, now) >= CATCHER_TIMEOUT_MS
}

/// The status that the previous state and the inputs give, before a command.
pub open spec fn settled_status(c: PendulumCatcher, sense_in_low: bool, sense_out_low: bool, now: u64) -> PendulumCatcherStatus {
    match c.status {
        PendulumCatcherStatus::Error => PendulumCatcherStatus::Error,
        PendulumCatcherStatus::Catching => if sense_out_low {
            PendulumCatcherStatus::Caught
        } else if timed_out(c.command_started_ms, now) {
            PendulumCatcherStatus::Error
        } else {
            PendulumCatcherStatus::Catching
        },
        PendulumCatcherStatus::Freeing => if sense_in_low {
            PendulumCatcherStatus::Freed
        } else if timed_out(c.command_started_ms, now) {
            PendulumCatcherStatus::Error
        } else {
            PendulumCatcherStatus::Freeing
        },
        _ => status_from_sensors(sense_in_low, sense_out_low),
    }
}

/// The status after a poll: a command overrides what the inputs give.
pub open spec fn next_status(
    c: PendulumCatcher,
    sense_in_low: bool,
    sense_out_low: bool,
    command: Option<PendulumCatcherCommand>,
    now: u64,
) -> PendulumCatcherStatus {
    match command {
        Some(PendulumCatcherCommand::Catch) => PendulumCatcherStatus::Catching,
        Some(PendulumCatcherCommand::Free) => PendulumCatcherStatus::Freeing,
        None => settled_status(c, sense_in_low, sense_out_low, now),
    }
}

/// Whether the poll switches the motor off: in `Error`, and when a movement
/// reaches its end-stop or runs out of time.
pub open spec fn stops_motor(c: PendulumCatcher, sense_in_low: bool, sense_out_low: bool, now: u64) -> bool {
    match c.status {
        PendulumCatcherStatus::Error => true,
        PendulumCatcherStatus::Catching => sense_out_low || timed_out(c.command_started_ms, now),
        PendulumCatcherStatus::Freeing => sense_in_low || timed_out(c.command_started_ms, now),
        _ => false,
    }
}

/// The state after one poll: its status, the levels driven, and the time
/// of the last command.
pub open spec fn catcher_next(
    c: PendulumCatcher,
    sense_in_low: bool,
    sense_out_low: bool,
    command: Option<PendulumCatcherCommand>,
    now: u64,
) -> PendulumCatcher {
    PendulumCatcher {
        status: next_status(c, sense_in_low, sense_out_low, command, now),
        command_started_ms: if command is Some { now } else { c.command_started_ms },
        motor_enable_high: stops_motor(c, sense_in_low, sense_out_low, now) || c.motor_enable_high,
        motor_direction_high: match command {
            Some(PendulumCatcherCommand::Catch) => false,
            Some(PendulumCatcherCommand::Free) => true,
            None => c.status == PendulumCatcherStatus::Error || c.motor_direction_high,
        },
    }
}

/// The event one poll reports: the new status, exactly when it differs from
/// the last reported one.
pub open spec fn catcher_event(
    c: PendulumCatcher,
    sense_in_low: bool,
    sense_out_low: bool,
    command: Option<PendulumCatcherCommand>,
    now: u64,
) -> Option<PendulumCatcherStatus> {
    let s = next_status(c, sense_in_low, sense_out_low, command, now);
    if s != c.status {
        Some(s)
    } else {
        None
    }
}

/// The name under which a command travels.
pub open spec fn command_name(c: PendulumCatcherCommand) -> Seq<char> {
    match c {
        PendulumCatcherCommand::Catch => "Catch"@,
        PendulumCatcherCommand::Free => "Free"@,
    }
}

/// The command that a payload names, if any.
pub open spec fn command_named(payload: Seq<char>) -> Option<PendulumCatcherCommand> {
    if payload == "Catch"@ {
        Some(PendulumCatcherCommand::Catch)
    } else if payload == "Free"@ {
        Some(PendulumCatcherCommand::Free)
    } else {
        None
    }
}

/// The name under which a status is reported.
pub open spec fn status_name(s: PendulumCatcherStatus) -> Seq<char> {
    match s {
        PendulumCatcherStatus::Unknown => "Unknown"@,
        PendulumCatcherStatus::Error => "Error"@,
        PendulumCatcherStatus::Catching => "Catching"@,
        PendulumCatcherStatus::Caught => "Caught"@,
        PendulumCatcherStatus::Freeing => "Freeing"@,
        PendulumCatcherStatus::Freed => "Freed"@,
    }
}

impl PendulumCatcherCommand {
    /// The command's name.
    pub fn as_str(&self) -> (r: &'static str)
        ensures
            r@ == command_name(*self),
    {
        match self {
            PendulumCatcherCommand::Catch => "Catch",
            PendulumCatcherCommand::Free => "Free",
        }
    }

    /// The command a payload names; any other payload names none.
    pub fn from_payload(payload: &str) -> (r: Option<PendulumCatcherCommand>)
        ensures
            r == command_named(payload@),
    {
        if same_text(payload, "Catch") {
            Some(PendulumCatcherCommand::Catch)
        } else if same_text(payload, "Free") {
            Some(PendulumCatcherCommand::Free)
        } else {
            None
        }
    }

    /// The command carried by a message: one on the command topic whose
    /// payload names a command. Every other message is ignored.
    pub fn from_message(topic: &str, payload: &str) -> (r: Option<PendulumCatcherCommand>)
        ensures
            r == (if topic@ == PENDULUM_CATCHER_COMMAND_TOPIC@ {
                command_named(payload@)
            } else {
                None
            }),
    {
        if same_text(topic, PENDULUM_CATCHER_COMMAND_TOPIC) {
            PendulumCatcherCommand::from_payload(payload)
        } else {
            None
        }
    }
}

impl PendulumCatcherStatus {
    /// The status's name.
    pub fn as_str(&self) -> (r: &'static str)
        ensures
            r@ == status_name(*self),
    {
        match self {
            PendulumCatcherStatus::Unknown => "Unknown",
            PendulumCatcherStatus::Error => "Error",
            PendulumCatcherStatus::Catching => "Catching",
            PendulumCatcherStatus::Caught => "Caught",
            PendulumCatcherStatus::Freeing => "Freeing",
            PendulumCatcherStatus::Freed => "Freed",
        }
    }
}

impl PendulumCatcher {
    /// A catcher that knows nothing yet, with both motor outputs inactive.
    pub fn new(now_ms: u64) -> (r: PendulumCatcher)
        ensures
            r.status == PendulumCatcherStatus::Unknown,
            r.command_started_ms == now_ms,
            r.motor_enable_high,
            r.motor_direction_high,
    {
        PendulumCatcher {
            status: PendulumCatcherStatus::Unknown,
            command_started_ms: now_ms,
            motor_enable_high: true,
            motor_direction_high: true,
        }
    }

    fn has_timed_out(&self, now_ms: u64) -> (r: bool)
        ensures
            r == timed_out(self.command_started_ms, now_ms),
    {
        now_ms >= self.command_started_ms && now_ms - self.command_started_ms >= CATCHER_TIMEOUT_MS
    }

    /// One poll: samples the end-stops (`true` = low), applies the command
    /// taken this cycle, if any, and returns the status to report.
    pub fn poll(
        &mut self,
        sense_in_low: bool,
        sense_out_low: bool,
        command: Option<PendulumCatcherCommand>,
        now_ms: u64,
    ) -> (event: Option<PendulumCatcherStatus>)
        ensures
            *final(self) == catcher_next(*old(self), sense_in_low, sense_out_low, command, now_ms),
            event == catcher_event(*old(self), sense_in_low, sense_out_low, command, now_ms),
    {
        let previous = self.status;
        let mut current = match previous {
            PendulumCatcherStatus::Error => {
                self.motor_enable_high = true;
                self.motor_direction_high = true;
                PendulumCatcherStatus::Error
            },
            PendulumCatcherStatus::Catching => {
                if sense_out_low {
                    self.motor_enable_high = true;
                    PendulumCatcherStatus::Caught
                } else if self.has_timed_out(now_ms) {
                    self.motor_enable_high = true;
                    PendulumCatcherStatus::Error
                } else {
                    PendulumCatcherStatus::Catching
                }
            },
            PendulumCatcherStatus::Freeing => {
                if sense_in_low {
                    self.motor_enable_high = true;
                    PendulumCatcherStatus::Freed
                } else if self.has_timed_out(now_ms) {
                    self.motor_enable_high = true;
                    PendulumCatcherStatus::Error
                } else {
                    PendulumCatcherStatus::Freeing
                }
            },
            _ => {
                if sense_in_low && !sense_out_low {
                    PendulumCatcherStatus::Freed
                } else if !sense_in_low && sense_out_low {
                    PendulumCatcherStatus::Caught
                } else {
                    PendulumCatcherStatus::Unknown
                }
            },
        };
        match command {
            Some(PendulumCatcherCommand::Catch) => {
                self.motor_direction_high = false;
                self.command_started_ms = now_ms;
                current = PendulumCatcherStatus::Catching;
            },
            Some(PendulumCatcherCommand::Free) => {
                self.motor_direction_high = true;
                self.command_started_ms = now_ms;
                current = PendulumCatcherStatus::Freeing;
            },
            None => {},
        }
        if current != previous {
            self.status = current;
            Some(current)
        } else {
            None
        }
    }
}

/// One sample of the end-stop inputs (`true` = low) at a monotonic time.
#[derive(Clone, Copy, Debug, PartialEq, Eq, Structural)]
pub struct CatcherSample {
    pub sense_in_low: bool,
    pub sense_out_low: bool,
    pub now_ms: u64,
}

/// The state after a run of polls in which no command arrives.
pub open spec fn state_after_run(c: PendulumCatcher, samples: Seq<CatcherSample>) -> PendulumCatcher
    decreases samples.len(),
{
    if samples.len() == 0 {
        c
    } else {
        let x = samples[0];
        state_after_run(catcher_next(c, x.sense_in_low, x.sense_out_low, None, x.now_ms), samples.drop_first())
    }
}

/// The events reported, in order, over a run of polls in which no command
/// arrives.
pub open spec fn events_of_run(c: PendulumCatcher, samples: Seq<CatcherSample>) -> Seq<PendulumCatcherStatus>
    decreases samples.len(),
{
    if samples.len() == 0 {
        Seq::empty()
    } else {
        let x = samples[0];
        let head = match catcher_event(c, x.sense_in_low, x.sense_out_low, None, x.now_ms) {
            Some(s) => seq![s],
            None => Seq::empty(),
        };
        head + events_of_run(catcher_next(c, x.sense_in_low, x.sense_out_low, None, x.now_ms), samples.drop_first())
    }
}

/// A poll reports an event exactly when the status changes, and the event is
/// the new status; with the inputs, the time and the absence of a command held
/// steady, the third poll and every later one report nothing and change nothing.
pub proof fn lemma_steady_inputs_settle(c: PendulumCatcher, sense_in_low: bool, sense_out_low: bool, now: u64)
    ensures
        ({
            let d1 = catcher_next(c, sense_in_low, sense_out_low, None, now);
            let d2 = catcher_next(d1, sense_in_low, sense_out_low, None, now);
            &&& catcher_event(c, sense_in_low, sense_out_low, None, now) is Some <==> d1.status != c.status
            &&& catcher_event(c, sense_in_low, sense_out_low, None, now) matches Some(s) ==> s == d1.status
            &&& catcher_event(d2, sense_in_low, sense_out_low, None, now) is None
            &&& catcher_next(d2, sense_in_low, sense_out_low, None, now) == d2
        }),
{
}

/// Without commands, `Error` stays: every run from it reports nothing and ends
/// in `Error`.
pub proof fn lemma_error_is_terminal(c: PendulumCatcher, samples: Seq<CatcherSample>)
    requires
        c.status == PendulumCatcherStatus::Error,
    ensures
        events_of_run(c, samples) == Seq::<PendulumCatcherStatus>::empty(),
        state_after_run(c, samples).status == PendulumCatcherStatus::Error,
    decreases samples.len(),
{
    if samples.len() > 0 {
        let x = samples[0];
        lemma_error_is_terminal(catcher_next(c, x.sense_in_low, x.sense_out_low, None, x.now_ms), samples.drop_first());
    }
}

/// While catching, with the caught end-stop never reached and no command: the
/// run reports exactly one event, `Error`, if some poll comes when the
/// timeout has elapsed since the command, and nothing otherwise; it ends in
/// `Error` in the first case and still `Catching` in the second.
pub proof fn lemma_catch_timeout(c: PendulumCatcher, samples: Seq<CatcherSample>)
    requires
        c.status == PendulumCatcherStatus::Catching,
        forall|k: int| 0 <= k < samples.len() ==> !(#[trigger] samples[k]).sense_out_low,
    ensures
        (exists|k: int| 0 <= k < samples.len() && timed_out(c.command_started_ms, (#[trigger] samples[k]).now_ms)) ==> {
            &&& events_of_run(c, samples) == seq![PendulumCatcherStatus::Error]
            &&& state_after_run(c, samples).status == PendulumCatcherStatus::Error
        },
        !(exists|k: int| 0 <= k < samples.len() && timed_out(c.command_started_ms, (#[trigger] samples[k]).now_ms)) ==> {
            &&& events_of_run(c, samples) == Seq::<PendulumCatcherStatus>::empty()
            &&& state_after_run(c, samples).status == PendulumCatcherStatus::Catching
        },
    decreases samples.len(),
{
    if samples.len() > 0 {
        let x = samples[0];
        let d = catcher_next(c, x.sense_in_low, x.sense_out_low, None, x.now_ms);
        let rest = samples.drop_first();
        assert(!x.sense_out_low);
        if timed_out(c.command_started_ms, x.now_ms) {
            lemma_error_is_terminal(d, rest);
            assert(events_of_run(c, samples) =~= seq![PendulumCatcherStatus::Error]);
        } else {
            assert(forall|k: int| 0 <= k < rest.len() ==> rest[k] == samples[k + 1]);
            lemma_catch_timeout(d, rest);
            if exists|k: int| 0 <= k < samples.len() && timed_out(c.command_started_ms, (#[trigger] samples[k]).now_ms) {
                let k = choose|k: int| 0 <= k < samples.len() && timed_out(c.command_started_ms, (#[trigger] samples[k]).now_ms);
                assert(rest[k - 1] == samples[k]);
            } else {
                assert forall|k: int| 0 <= k < rest.len() implies !timed_out(c.command_started_ms, (#[trigger] rest[k]).now_ms) by {
                    assert(rest[k] == samples[k + 1]);
                }
            }
            assert(events_of_run(c, samples) =~= events_of_run(d, rest));
        }
    }
}

} // verus!

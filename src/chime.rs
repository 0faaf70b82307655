use crate::wall_clock::{half_hour_offset, local_wall_clock, offset_from_half_hour, WallClockTime};
use vstd::prelude::*;

verus! {

/// Age at which a chime session is closed and reported.
pub const SESSION_WINDOW_MS: u64 = 120_000;

/// What a closed chime session reports.
#[derive(Clone, Copy, Debug, PartialEq, Eq, Structural)]
pub struct ClockTimeReport {
    pub number_of_chimes: u32,
    /// Drift of the first strike from the nearest half hour, in seconds.
    pub offset_seconds: i32,
}

/// An open chime session: when its first strike came, by the monotonic clock
/// and by the wall clock.
#[derive(Clone, Copy, Debug, PartialEq, Eq, Structural)]
pub struct ChimeSession {
    pub started_ms: u64,
    pub wall_clock: WallClockTime,
}

/// The chime-lever monitor's memory between polls.
#[derive(Clone, Copy, Debug, PartialEq, Eq, Structural)]
pub struct ChimeMonitor {
    pub prev_level_high: bool,
    pub transition_count: u32,
    pub session: Option<ChimeSession>,
}

/// Milliseconds from `start` to `now`, zero when `now` lies before `start`.
pub open spec fn session_age(start: u64, now: u64) -> int {
    if now >= start {
        now - start
    } else {
        0
    }
}

/// Whether the poll sees a low-to-high transition of the lever.
pub open spec fn rising_edge(m: ChimeMonitor, level_high: bool) -> bool {
    !m.prev_level_high && level_high
}

/// The count once this poll's transition, if any, is added (it stops at the
/// largest `u32`).
pub open spec fn count_after_edge(m: ChimeMonitor, level_high: bool) -> u32 {
    if rising_edge(m, level_high) && m.transition_count < u32::MAX {
        (m.transition_count + 1) as u32
    } else {
        m.transition_count
    }
}

/// The session once this poll's transition, if any, is seen: a first
/// transition opens one at `now` and `wall`.
pub open spec fn session_after_edge(m: ChimeMonitor, level_high: bool, now: u64, wall: WallClockTime) -> Option<ChimeSession> {
    if rising_edge(m, level_high) && m.session is None {
        Some(ChimeSession { started_ms: now, wall_clock: wall })
    } else {
        m.session
    }
}

/// Whether `session` has reached the window at `now`.
pub open spec fn session_closes(session: Option<ChimeSession>, now: u64) -> bool {
    session matches Some(s) && session_age(s.started_ms, now) >= SESSION_WINDOW_MS
}

/// The state after one poll: the level is remembered; a session that, with
/// this poll's transition seen, has reached the window is closed and the count
/// restarts from zero; otherwise the count and session are kept.
pub open spec fn chime_next(m: ChimeMonitor, level_high: bool, now: u64, wall: WallClockTime) -> ChimeMonitor {
    let session = session_after_edge(m, level_high, now, wall);
    if session_closes(session, now) {
        ChimeMonitor { prev_level_high: level_high, transition_count: 0, session: None }
    } else {
        ChimeMonitor { prev_level_high: level_high, transition_count: count_after_edge(m, level_high), session }
    }
}

/// The report of one poll: made exactly when the session closes, with the
/// count and the drift of the session's first transition.
pub open spec fn chime_report(m: ChimeMonitor, level_high: bool, now: u64, wall: WallClockTime) -> Option<ClockTimeReport> {
    let session = session_after_edge(m, level_high, now, wall);
    if session_closes(session, now) {
        Some(ClockTimeReport {
            number_of_chimes: count_after_edge(m, level_high),
            offset_seconds: half_hour_offset(session->0.wall_clock.seconds_into_hour()) as i32,
        })
    } else {
        None
    }
}

impl ChimeMonitor {
    /// A session is open exactly when a transition has been counted since the
    /// last report, and its wall-clock reading is valid.
    pub open spec fn wf(&self) -> bool {
        &&& (self.session is Some <==> self.transition_count > 0)
        &&& (self.session matches Some(s) ==> s.wall_clock.wf())
    }

    /// A monitor with no session, given the lever's level at start.
    pub fn new(level_high: bool) -> (r: ChimeMonitor)
        ensures
            r.wf(),
            r.prev_level_high == level_high,
            r.transition_count == 0,
            r.session is None,
    {
        ChimeMonitor { prev_level_high: level_high, transition_count: 0, session: None }
    }

    /// One poll with the lever's level, the monotonic time, and the wall-clock
    /// reading to record should a session open now.
    pub fn poll_at(&mut self, level_high: bool, now_ms: u64, wall: WallClockTime) -> (report: Option<ClockTimeReport>)
        requires
            old(self).wf(),
            wall.wf(),
        ensures
            final(self).wf(),
            *final(self) == chime_next(*old(self), level_high, now_ms, wall),
            report == chime_report(*old(self), level_high, now_ms, wall),
    {
        if !self.prev_level_high && level_high {
            if self.transition_count < u32::MAX {
                self.transition_count = self.transition_count + 1;
            }
            if self.session.is_none() {
                self.session = Some(ChimeSession { started_ms: now_ms, wall_clock: wall });
            }
        }
        self.prev_level_high = level_high;
        match self.session {
            Some(s) => {
                if now_ms >= s.started_ms && now_ms - s.started_ms >= SESSION_WINDOW_MS {
                    let report = ClockTimeReport {
                        number_of_chimes: self.transition_count,
                        offset_seconds: offset_from_half_hour(s.wall_clock),
                    };
                    self.transition_count = 0;
                    self.session = None;
                    Some(report)
                } else {
                    None
                }
            },
            None => None,
        }
    }

    /// One poll that reads the local wall clock itself. Whatever the clock
    /// reads, the poll is the one `poll_at` makes with a valid reading.
    pub fn poll(&mut self, level_high: bool, now_ms: u64) -> (report: Option<ClockTimeReport>)
        requires
            old(self).wf(),
        ensures
            final(self).wf(),
            exists|wall: WallClockTime|
                {
                    &&& wall.wf()
                    &&& *final(self) == chime_next(*old(self), level_high, now_ms, wall)
                    &&& report == chime_report(*old(self), level_high, now_ms, wall)
                },
    {
        let wall = local_wall_clock();
        self.poll_at(level_high, now_ms, wall)
    }
}

/// One poll's inputs: the lever's level, the monotonic time and the wall clock.
#[derive(Clone, Copy, Debug, PartialEq, Eq, Structural)]
pub struct ChimeSample {
    pub level_high: bool,
    pub now_ms: u64,
    pub wall: WallClockTime,
}

/// The state after a run of polls.
pub open spec fn monitor_after_run(m: ChimeMonitor, samples: Seq<ChimeSample>) -> ChimeMonitor
    decreases samples.len(),
{
    if samples.len() == 0 {
        m
    } else {
        let x = samples[0];
        monitor_after_run(chime_next(m, x.level_high, x.now_ms, x.wall), samples.drop_first())
    }
}

/// The reports made, in order, over a run of polls.
pub open spec fn reports_of_run(m: ChimeMonitor, samples: Seq<ChimeSample>) -> Seq<ClockTimeReport>
    decreases samples.len(),
{
    if samples.len() == 0 {
        Seq::empty()
    } else {
        let x = samples[0];
        let head = match chime_report(m, x.level_high, x.now_ms, x.wall) {
            Some(r) => seq![r],
            None => Seq::empty(),
        };
        head + reports_of_run(chime_next(m, x.level_high, x.now_ms, x.wall), samples.drop_first())
    }
}

/// Whether poll `i` of a run that starts at lever level `prev` sees a
/// low-to-high transition.
pub open spec fn is_edge(prev: bool, samples: Seq<ChimeSample>, i: int) -> bool {
    let before = if i == 0 { prev } else { samples[i - 1].level_high };
    !before && samples[i].level_high
}

/// The number of low-to-high transitions in a run that starts at level `prev`.
pub open spec fn edge_count(prev: bool, samples: Seq<ChimeSample>) -> nat
    decreases samples.len(),
{
    if samples.len() == 0 {
        0
    } else {
        (if !prev && samples[0].level_high { 1nat } else { 0nat }) + edge_count(samples[0].level_high, samples.drop_first())
    }
}

proof fn lemma_edges_of_rest(prev: bool, samples: Seq<ChimeSample>)
    requires
        samples.len() > 0,
    ensures
        forall|i: int| 0 <= i < samples.len() - 1 ==>
            (is_edge(samples[0].level_high, samples.drop_first(), i) <==> #[trigger] is_edge(prev, samples, i + 1)),
{
    assert forall|i: int| 0 <= i < samples.len() - 1 implies
        (is_edge(samples[0].level_high, samples.drop_first(), i) <==> #[trigger] is_edge(prev, samples, i + 1)) by {
        assert(samples.drop_first()[i] == samples[i + 1]);
        if i > 0 {
            assert(samples.drop_first()[i - 1] == samples[i]);
        }
    }
}

/// With no session open and no transition in the run, nothing is reported and
/// no session opens.
proof fn lemma_quiet_run(m: ChimeMonitor, samples: Seq<ChimeSample>)
    requires
        m.session is None,
        m.transition_count == 0,
        forall|i: int| 0 <= i < samples.len() ==> !#[trigger] is_edge(m.prev_level_high, samples, i),
    ensures
        reports_of_run(m, samples) == Seq::<ClockTimeReport>::empty(),
        monitor_after_run(m, samples).session is None,
        monitor_after_run(m, samples).transition_count == 0,
        edge_count(m.prev_level_high, samples) == 0,
    decreases samples.len(),
{
    if samples.len() > 0 {
        let x = samples[0];
        assert(!is_edge(m.prev_level_high, samples, 0));
        lemma_edges_of_rest(m.prev_level_high, samples);
        let n = chime_next(m, x.level_high, x.now_ms, x.wall);
        assert forall|i: int| 0 <= i < samples.drop_first().len() implies
            !#[trigger] is_edge(n.prev_level_high, samples.drop_first(), i) by {
            assert(!is_edge(m.prev_level_high, samples, i + 1));
        }
        lemma_quiet_run(n, samples.drop_first());
        assert(reports_of_run(m, samples) =~= reports_of_run(n, samples.drop_first()));
    }
}

/// From an open session: when every transition of the run comes before the
/// session's window ends, times do not go back and the run reaches the
/// window's end, exactly one report comes, with every transition counted.
proof fn lemma_open_session_run(m: ChimeMonitor, samples: Seq<ChimeSample>)
    requires
        m.wf(),
        m.session is Some,
        samples.len() > 0,
        forall|i: int, j: int| 0 <= i <= j < samples.len() ==> samples[i].now_ms <= samples[j].now_ms,
        forall|i: int| 0 <= i < samples.len() && #[trigger] is_edge(m.prev_level_high, samples, i)
            ==> samples[i].now_ms < m.session->0.started_ms + SESSION_WINDOW_MS,
        forall|i: int| 0 <= i < samples.len() ==> m.session->0.started_ms <= #[trigger] samples[i].now_ms,
        samples.last().now_ms >= m.session->0.started_ms + SESSION_WINDOW_MS,
        m.transition_count + edge_count(m.prev_level_high, samples) <= u32::MAX,
    ensures
        reports_of_run(m, samples) == seq![ClockTimeReport {
            number_of_chimes: (m.transition_count + edge_count(m.prev_level_high, samples)) as u32,
            offset_seconds: half_hour_offset(m.session->0.wall_clock.seconds_into_hour()) as i32,
        }],
        monitor_after_run(m, samples).session is None,
        monitor_after_run(m, samples).transition_count == 0,
    decreases samples.len(),
{
    let x = samples[0];
    let rest = samples.drop_first();
    let s = m.session->0;
    let n = chime_next(m, x.level_high, x.now_ms, x.wall);
    lemma_edges_of_rest(m.prev_level_high, samples);
    assert(forall|i: int| 0 <= i < rest.len() ==> rest[i] == samples[i + 1]);
    if x.now_ms >= s.started_ms + SESSION_WINDOW_MS {
        assert(!is_edge(m.prev_level_high, samples, 0));
        assert forall|i: int| 0 <= i < rest.len() implies !#[trigger] is_edge(n.prev_level_high, rest, i) by {
            assert(is_edge(m.prev_level_high, samples, i + 1) == is_edge(n.prev_level_high, rest, i));
        }
        lemma_quiet_run(n, rest);
        assert(reports_of_run(m, samples) =~= seq![chime_report(m, x.level_high, x.now_ms, x.wall)->0]);
    } else {
        assert(samples.len() > 1);
        assert(rest.last() == samples.last());
        assert forall|i: int| 0 <= i < rest.len() && #[trigger] is_edge(n.prev_level_high, rest, i)
            implies rest[i].now_ms < s.started_ms + SESSION_WINDOW_MS by {
            assert(is_edge(m.prev_level_high, samples, i + 1));
        }
        lemma_open_session_run(n, rest);
        assert(reports_of_run(m, samples) =~= reports_of_run(n, rest));
    }
}

/// A chime session reports once. Starting with no session, let the run's
/// first low-to-high transition come at poll `first`. When times do not go
/// back, every transition comes within the window of the first, and the run
/// goes on to the window's end, the run makes exactly one report: it counts
/// every transition (three strikes give three chimes), its drift is that of
/// the wall clock at the first transition, and the count is zero afterwards
/// with no session open.
pub proof fn lemma_session_reports_once(m: ChimeMonitor, samples: Seq<ChimeSample>, first: int)
    requires
        m.wf(),
        m.session is None,
        forall|i: int, j: int| 0 <= i <= j < samples.len() ==> samples[i].now_ms <= samples[j].now_ms,
        forall|i: int| 0 <= i < samples.len() ==> (#[trigger] samples[i]).wall.wf(),
        0 <= first < samples.len(),
        is_edge(m.prev_level_high, samples, first),
        forall|i: int| 0 <= i < first ==> !#[trigger] is_edge(m.prev_level_high, samples, i),
        forall|i: int| 0 <= i < samples.len() && #[trigger] is_edge(m.prev_level_high, samples, i)
            ==> samples[i].now_ms < samples[first].now_ms + SESSION_WINDOW_MS,
        samples.last().now_ms >= samples[first].now_ms + SESSION_WINDOW_MS,
        edge_count(m.prev_level_high, samples) <= u32::MAX,
    ensures
        reports_of_run(m, samples) == seq![ClockTimeReport {
            number_of_chimes: edge_count(m.prev_level_high, samples) as u32,
            offset_seconds: half_hour_offset(samples[first].wall.seconds_into_hour()) as i32,
        }],
        monitor_after_run(m, samples).session is None,
        monitor_after_run(m, samples).transition_count == 0,
    decreases samples.len(),
{
    let x = samples[0];
    let rest = samples.drop_first();
    let n = chime_next(m, x.level_high, x.now_ms, x.wall);
    lemma_edges_of_rest(m.prev_level_high, samples);
    assert(forall|i: int| 0 <= i < rest.len() ==> rest[i] == samples[i + 1]);
    assert(rest.len() > 0) by {
        if rest.len() == 0 {
            assert(samples.last() == samples[first]);
        }
    };
    assert(rest.last() == samples.last());
    if first == 0 {
        assert(n.session == Some(ChimeSession { started_ms: x.now_ms, wall_clock: x.wall }));
        assert forall|i: int| 0 <= i < rest.len() && #[trigger] is_edge(n.prev_level_high, rest, i)
            implies rest[i].now_ms < n.session->0.started_ms + SESSION_WINDOW_MS by {
            assert(is_edge(m.prev_level_high, samples, i + 1));
        }
        assert forall|i: int| 0 <= i < rest.len() implies n.session->0.started_ms <= #[trigger] rest[i].now_ms by {
            assert(rest[i] == samples[i + 1]);
        }
        lemma_open_session_run(n, rest);
        assert(reports_of_run(m, samples) =~= reports_of_run(n, rest));
    } else {
        assert(!is_edge(m.prev_level_high, samples, 0));
        assert(is_edge(n.prev_level_high, rest, first - 1));
        assert forall|i: int| 0 <= i < first - 1 implies !#[trigger] is_edge(n.prev_level_high, rest, i) by {
            assert(!is_edge(m.prev_level_high, samples, i + 1));
        }
        assert forall|i: int| 0 <= i < rest.len() && #[trigger] is_edge(n.prev_level_high, rest, i)
            implies rest[i].now_ms < rest[first - 1].now_ms + SESSION_WINDOW_MS by {
            assert(is_edge(m.prev_level_high, samples, i + 1));
        }
        lemma_session_reports_once(n, rest, first - 1);
        assert(reports_of_run(m, samples) =~= reports_of_run(n, rest));
    }
}

} // verus!

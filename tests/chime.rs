use church_clock::{offset_from_half_hour, ChimeMonitor, ClockTimeReport, WallClockTime, SESSION_WINDOW_MS};

#[test]
fn three_strikes_give_one_report() {
    let first = WallClockTime::new(14, 59, 48).unwrap();
    let later = WallClockTime::new(15, 0, 30).unwrap();
    let mut m = ChimeMonitor::new(false);
    let mut reports = Vec::new();
    let mut now: u64 = 0;
    // strikes at 1 s, 4 s and 7 s: the lever is high for 0.5 s each time
    let strikes = [1000u64, 4000, 7000];
    while now <= 7000 + SESSION_WINDOW_MS + 1000 {
        let high = strikes.iter().any(|&s| now >= s && now < s + 500);
        let wall = if now <= 1000 { first } else { later };
        if let Some(r) = m.poll_at(high, now, wall) {
            reports.push((now, r));
        }
        now += 100;
    }
    assert_eq!(reports.len(), 1);
    assert_eq!(reports[0].0, 1000 + SESSION_WINDOW_MS);
    assert_eq!(reports[0].1, ClockTimeReport { number_of_chimes: 3, offset_seconds: -12 });
    assert_eq!(m.transition_count, 0);
    assert!(m.session.is_none());
}

#[test]
fn session_opens_on_first_rising_edge() {
    let w = WallClockTime::new(9, 30, 5).unwrap();
    let mut m = ChimeMonitor::new(true);
    assert_eq!(m.poll_at(true, 0, w), None);
    assert!(m.session.is_none());
    assert_eq!(m.poll_at(false, 100, w), None);
    assert_eq!(m.poll_at(true, 200, w), None);
    assert_eq!(m.transition_count, 1);
    let s = m.session.unwrap();
    assert_eq!(s.started_ms, 200);
    assert_eq!(s.wall_clock, w);
}

#[test]
fn counting_starts_over_after_a_report() {
    let w = WallClockTime::new(10, 0, 2).unwrap();
    let mut m = ChimeMonitor::new(false);
    m.poll_at(true, 0, w);
    assert_eq!(
        m.poll_at(false, SESSION_WINDOW_MS, w),
        Some(ClockTimeReport { number_of_chimes: 1, offset_seconds: 2 })
    );
    assert_eq!(m.poll_at(false, SESSION_WINDOW_MS * 3, w), None);
    m.poll_at(true, SESSION_WINDOW_MS * 3 + 100, w);
    assert_eq!(m.transition_count, 1);
}

#[test]
fn report_offset_comes_from_the_local_clock() {
    let mut m = ChimeMonitor::new(false);
    assert_eq!(m.poll(true, 0), None);
    let s = m.session.unwrap();
    assert!(s.wall_clock.hour < 24 && s.wall_clock.minute < 60 && s.wall_clock.second < 60);
    let r = m.poll(true, SESSION_WINDOW_MS).unwrap();
    assert_eq!(r.number_of_chimes, 1);
    assert_eq!(r.offset_seconds, offset_from_half_hour(s.wall_clock));
}

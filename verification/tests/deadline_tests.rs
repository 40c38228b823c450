use burst_counter::loudness::Loudness;
use burst_counter::state::{AppState, CalibrationStatus, TickEvent};

/// A calibrated state whose countdown started at 2 s, with a time limit of
/// 0.1 minutes (6 s).
fn six_second_run() -> AppState {
    let mut st = AppState::new(0, 6_000, false);
    st.calibration = CalibrationStatus::Complete;
    st.timer_started_ms = 2_000;
    st.baseline = Loudness::Fin(0);
    st.last_calibrate_max = Loudness::Fin(20_000);
    st
}

#[test]
fn run_ends_once_six_seconds_have_elapsed() {
    let mut st = six_second_run();
    // One millisecond before the deadline a burst still counts.
    st.current_db = Loudness::Fin(19_000);
    let report = st.tick(7_999);
    assert_eq!(report.event, TickEvent::Burst { hard: true });
    assert_eq!(st.hard_bursts, 1);
    // At the deadline the run is over, reporting exactly the counts so far.
    let report = st.tick(8_000);
    assert_eq!(report.event, TickEvent::TimedOut);
    assert_eq!((st.hard_bursts, st.soft_bursts), (1, 0));
}

#[test]
fn nothing_counts_after_the_deadline() {
    let mut st = six_second_run();
    st.current_db = Loudness::Fin(19_000);
    // First tick is already past the deadline: the burst-sized loudness is
    // never examined, and no counter moves, then or on any later tick.
    let report = st.tick(8_500);
    assert_eq!(report.event, TickEvent::TimedOut);
    let report = st.tick(9_000);
    assert_eq!(report.event, TickEvent::TimedOut);
    assert_eq!((st.hard_bursts, st.soft_bursts), (0, 0));
}

#[test]
fn remaining_time_is_reported_as_minutes_and_seconds() {
    let mut st = AppState::new(0, 600_000, false);
    st.calibration = CalibrationStatus::Complete;
    st.timer_started_ms = 0;
    st.baseline = Loudness::Fin(0);
    st.last_calibrate_max = Loudness::Fin(20_000);
    st.current_db = Loudness::Fin(0);
    // 600000 - 516544 = 83456 ms left: 1 minute, 23 seconds.
    let report = st.tick(516_544);
    assert_eq!(report.event, TickEvent::Quiet);
    assert_eq!(report.remaining_ms, 83_456);
    assert_eq!(report.remaining_min, 1);
    assert_eq!(report.remaining_sec, 23);
}

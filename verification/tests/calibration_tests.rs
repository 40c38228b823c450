use burst_counter::loudness::Loudness;
use burst_counter::state::{AppState, CalibrationStatus, TickEvent};

#[test]
fn ticks_before_settle_delay_do_nothing() {
    let mut st = AppState::new(0, 60_000, false);
    let report = st.tick(500);
    assert_eq!(report.event, TickEvent::Inactive);
    assert_eq!(st.calibration, CalibrationStatus::Waiting);
    assert_eq!(st.hard_bursts, 0);
    assert_eq!(st.soft_bursts, 0);
}

#[test]
fn first_active_tick_begins_calibration() {
    let mut st = AppState::new(0, 60_000, false);
    let report = st.tick(1000);
    assert_eq!(report.event, TickEvent::CalibrationBegun);
    assert!(!report.calibration_completed);
    assert_eq!(st.calibration, CalibrationStatus::Started { last_max_ms: 1000 });
}

#[test]
fn calibration_never_completes_within_quiet_period() {
    let mut st = AppState::new(0, 60_000, false);
    st.tick(1000);
    // The initial loudness (finite zero) beats the silent starting maximum on
    // the first started tick, renewing the last-maximum time.
    let report = st.tick(1500);
    assert_eq!(report.event, TickEvent::Calibrating);
    assert_eq!(st.calibration, CalibrationStatus::Started { last_max_ms: 1500 });
    assert_eq!(st.last_calibrate_max, Loudness::Fin(0));
    // Quiet ticks up to exactly the quiet period after 1500: still started.
    let report = st.tick(2500);
    assert_eq!(report.event, TickEvent::Calibrating);
    let report = st.tick(3500);
    assert_eq!(report.event, TickEvent::Calibrating);
    assert_eq!(st.calibration, CalibrationStatus::Started { last_max_ms: 1500 });
    // One millisecond past the quiet period: complete, timer starts now.
    let report = st.tick(3501);
    assert!(report.calibration_completed);
    assert_eq!(st.calibration, CalibrationStatus::Complete);
    assert_eq!(st.timer_started_ms, 3501);
}

#[test]
fn later_ties_keep_the_original_maximum() {
    let mut st = AppState::new(0, 60_000, false);
    st.tick(1000);
    st.ingest(Loudness::Fin(20_000));
    st.tick(1100);
    assert_eq!(st.last_calibrate_max, Loudness::Fin(20_000));
    assert_eq!(st.calibration, CalibrationStatus::Started { last_max_ms: 1100 });
    // A tie is no new maximum: the last-maximum time stays put.
    st.ingest(Loudness::Fin(20_000));
    st.tick(1200);
    assert_eq!(st.calibration, CalibrationStatus::Started { last_max_ms: 1100 });
    // A full quiet period after 1100 the sequence completes, with the
    // originally observed maximum.
    st.ingest(Loudness::Fin(5_000));
    let report = st.tick(3200);
    assert!(report.calibration_completed);
    assert_eq!(st.calibration, CalibrationStatus::Complete);
    assert_eq!(st.last_calibrate_max, Loudness::Fin(20_000));
}

#[test]
fn new_maximum_renews_the_quiet_period() {
    let mut st = AppState::new(0, 60_000, false);
    st.tick(1000);
    st.ingest(Loudness::Fin(10_000));
    st.tick(1100);
    // A louder value 1.9 s later renews the wait.
    st.ingest(Loudness::Fin(12_000));
    st.tick(3000);
    assert_eq!(st.calibration, CalibrationStatus::Started { last_max_ms: 3000 });
    // 2 s after the first maximum would have completed, but not any more.
    st.ingest(Loudness::Fin(11_000));
    let report = st.tick(3200);
    assert_eq!(report.event, TickEvent::Calibrating);
    assert_eq!(st.calibration, CalibrationStatus::Started { last_max_ms: 3000 });
    assert_eq!(st.last_calibrate_max, Loudness::Fin(12_000));
}

use burst_counter::loudness::Loudness;
use burst_counter::state::{AppState, CalibrationStatus, PeakStatus, TickEvent};

/// A calibrated state with a quiet baseline of exactly zero and a calibrated
/// maximum of 20 dB, ready for burst detection from the first tick.
fn calibrated_state() -> AppState {
    let mut st = AppState::new(0, 600_000, true);
    st.calibration = CalibrationStatus::Complete;
    st.timer_started_ms = 0;
    st.baseline = Loudness::Fin(0);
    st.last_calibrate_max = Loudness::Fin(20_000);
    st
}

#[test]
fn burst_at_19_db_is_hard() {
    let mut st = calibrated_state();
    // Hard boundary: 20000 - (20000 - 0) / 10 = 18000.
    st.current_db = Loudness::Fin(19_000);
    let report = st.tick(5_000);
    assert_eq!(report.event, TickEvent::Burst { hard: true });
    assert_eq!(st.hard_bursts, 1);
    assert_eq!(st.soft_bursts, 0);
    assert_eq!(st.peak, PeakStatus::Active { ticks: 0 });
}

#[test]
fn no_reregistration_while_active() {
    let mut st = calibrated_state();
    st.current_db = Loudness::Fin(19_000);
    let report = st.tick(5_000);
    assert_eq!(report.event, TickEvent::Burst { hard: true });
    // However long the loudness stays above the threshold, nothing more
    // registers until the detector has re-armed.
    for k in 1..20u64 {
        let report = st.tick(5_000 + 20 * k);
        assert_eq!(report.event, TickEvent::Quiet);
    }
    assert_eq!(st.hard_bursts, 1);
    assert_eq!(st.soft_bursts, 0);
    assert!(matches!(st.peak, PeakStatus::Active { .. }));
}

#[test]
fn rearm_needs_both_ticks_and_quiet() {
    let mut st = calibrated_state();
    st.current_db = Loudness::Fin(19_000);
    st.tick(5_000);
    // Loudness drops below the reset threshold (0 + 15000 - 4000 = 11000)
    // at once, but eight debounce ticks are not yet enough to re-arm.
    st.current_db = Loudness::Fin(10_000);
    for k in 1..=8u64 {
        st.tick(5_000 + 20 * k);
    }
    assert_eq!(st.peak, PeakStatus::Active { ticks: 8 });
    // The ninth debounce tick re-arms.
    st.tick(5_200);
    assert_eq!(st.peak, PeakStatus::Idle);
}

#[test]
fn no_rearm_while_loudness_stays_high() {
    let mut st = calibrated_state();
    st.current_db = Loudness::Fin(19_000);
    st.tick(5_000);
    // At or above the reset threshold the detector never re-arms, however
    // many ticks pass.
    st.current_db = Loudness::Fin(11_000);
    for k in 1..30u64 {
        st.tick(5_000 + 20 * k);
    }
    // The debounce count is an exact distance: it has advanced by one on
    // each of the 29 ticks since registration.
    assert_eq!(st.peak, PeakStatus::Active { ticks: 29 });
    assert_eq!(st.hard_bursts, 1);
}

#[test]
fn scenario_hard_then_soft_counts() {
    let mut st = calibrated_state();
    // A burst at 19 dB against the 18 dB boundary: hard.
    st.current_db = Loudness::Fin(19_000);
    st.tick(5_000);
    assert_eq!((st.hard_bursts, st.soft_bursts), (1, 0));
    // Fall quiet until the detector re-arms.
    st.current_db = Loudness::Fin(0);
    let mut k: u64 = 1;
    while st.peak != PeakStatus::Idle {
        st.tick(5_000 + 20 * k);
        k += 1;
    }
    // A 10 dB value is classified soft against the 18 dB boundary, but it
    // cannot register a burst of its own: it never clears the peak threshold
    // of baseline + 15 dB.
    st.current_db = Loudness::Fin(10_000);
    assert!(!st.classify_hard());
    let report = st.tick(6_000);
    assert_eq!(report.event, TickEvent::Quiet);
    // A 16 dB burst clears the peak threshold and is still below the hard
    // boundary: soft.
    st.current_db = Loudness::Fin(16_000);
    let report = st.tick(6_100);
    assert_eq!(report.event, TickEvent::Burst { hard: false });
    assert_eq!((st.hard_bursts, st.soft_bursts), (1, 1));
}

#[test]
fn classification_boundary_is_at_or_above() {
    let mut st = calibrated_state();
    st.current_db = Loudness::Fin(18_000);
    assert!(st.classify_hard());
    st.current_db = Loudness::Fin(17_999);
    assert!(!st.classify_hard());
    // With a 10 dB baseline the range shrinks: boundary at 19 dB.
    st.baseline = Loudness::Fin(10_000);
    st.current_db = Loudness::Fin(19_000);
    assert!(st.classify_hard());
    st.current_db = Loudness::Fin(18_999);
    assert!(!st.classify_hard());
}

#[test]
fn silence_never_registers_a_burst() {
    let mut st = calibrated_state();
    st.baseline = Loudness::Silence;
    st.current_db = Loudness::Silence;
    let report = st.tick(5_000);
    assert_eq!(report.event, TickEvent::Quiet);
    assert_eq!(st.peak, PeakStatus::Idle);
}

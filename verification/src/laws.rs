//! The laws the library keeps, stated over the open transition functions of
//! `state` and the baseline fold of `loudness`, and proved once and for all:
//! how the baseline behaves at and past its warm-up window, when calibration
//! may complete and what it keeps of the observed maximum, and what it takes
//! for the burst detector to register and to re-arm.

use vstd::prelude::*;

use crate::loudness::{
    div_trunc, fold_baseline, loud_sum, spec_ewma, spec_mean, Loudness, BASELINE_WINDOW,
    MAX_ABS_MILLI_DB,
};
use crate::state::{
    AppState, CalibrationStatus, PeakStatus, TickEvent, CALIBRATION_QUIET_MS, HARD_MARGIN_DIVISOR,
    RESET_DISTANCE_TICKS,
};

verus! {

/// While the warm-up window is filling — and exactly at its end — the
/// baseline is the arithmetic mean of every loudness value ingested so far.
pub proof fn lemma_baseline_is_mean_in_window(vals: Seq<Loudness>)
    requires
        0 < vals.len() <= BASELINE_WINDOW,
    ensures
        fold_baseline(vals) == spec_mean(loud_sum(vals), vals.len() as int),
{
}

/// Past the warm-up window the baseline is no recomputed mean: it is the
/// previous baseline weighted by the window less one, plus the newest value,
/// over the window.
pub proof fn lemma_baseline_is_moving_average_past_window(vals: Seq<Loudness>)
    requires
        vals.len() > BASELINE_WINDOW,
    ensures
        fold_baseline(vals) == spec_ewma(fold_baseline(vals.drop_last()), vals.last()),
{
}

/// Calibration reaches `Complete` only out of `Started`, and only on a tick
/// that comes more than a full quiet period after the last new maximum.
pub proof fn lemma_complete_needs_quiet(s: AppState, now_ms: u64)
    requires
        !(s.calibration is Complete),
        AppState::spec_calibrate(s, now_ms).0.calibration is Complete,
    ensures
        (s.calibration matches CalibrationStatus::Started { last_max_ms } && now_ms
            > last_max_ms + CALIBRATION_QUIET_MS),
{
}

/// Run the calibration step over a sequence of observations, each the time of
/// a control tick together with the loudness current at that tick.
pub open spec fn fold_calibrate(s: AppState, obs: Seq<(u64, Loudness)>) -> AppState
    decreases obs.len(),
{
    if obs.len() == 0 {
        s
    } else {
        let stepped = AppState::spec_calibrate(
            AppState { current_db: obs.first().1, ..s },
            obs.first().0,
        ).0;
        fold_calibrate(stepped, obs.drop_first())
    }
}

/// Once complete, calibration stays complete and the calibrated maximum
/// never moves again, whatever is heard later.
pub proof fn lemma_calibration_complete_stable(s: AppState, obs: Seq<(u64, Loudness)>)
    requires
        s.calibration is Complete,
    ensures
        fold_calibrate(s, obs).calibration is Complete,
        fold_calibrate(s, obs).last_calibrate_max == s.last_calibrate_max,
        fold_calibrate(s, obs).timer_started_ms == s.timer_started_ms,
    decreases obs.len(),
{
    if obs.len() > 0 {
        let stepped = AppState::spec_calibrate(
            AppState { current_db: obs.first().1, ..s },
            obs.first().0,
        ).0;
        lemma_calibration_complete_stable(stepped, obs.drop_first());
    }
}

/// Calibration never completes early: over any run of ticks that all happen
/// within the quiet period of the moment the maximum was last renewed (or
/// calibration entered `Started`), the state stays `Started` and the
/// last-maximum time never falls behind that moment.
pub proof fn lemma_no_early_complete(s: AppState, obs: Seq<(u64, Loudness)>, t0: u64)
    requires
        (s.calibration matches CalibrationStatus::Started { last_max_ms } && last_max_ms >= t0),
        forall|i: int|
            0 <= i < obs.len() ==> t0 <= (#[trigger] obs[i]).0 <= t0 + CALIBRATION_QUIET_MS,
    ensures
        (fold_calibrate(s, obs).calibration matches CalibrationStatus::Started { last_max_ms }
            && last_max_ms >= t0),
    decreases obs.len(),
{
    if obs.len() > 0 {
        let stepped = AppState::spec_calibrate(
            AppState { current_db: obs.first().1, ..s },
            obs.first().0,
        ).0;
        assert(obs[0] == obs.first());
        assert(forall|i: int|
            0 <= i < obs.drop_first().len() ==> #[trigger] obs.drop_first()[i] == obs[i + 1]);
        lemma_no_early_complete(stepped, obs.drop_first(), t0);
    }
}

/// Re-running calibration over ticks whose loudness never exceeds the
/// maximum already observed leaves that maximum exactly as it is — a later
/// tie renews nothing — and completes calibration as soon as one of the
/// ticks falls a full quiet period after the maximum was last renewed.
pub proof fn lemma_calibration_ties_keep_max(
    s: AppState,
    obs: Seq<(u64, Loudness)>,
    t0: u64,
    m: Loudness,
)
    requires
        s.calibration == (CalibrationStatus::Started { last_max_ms: t0 }),
        s.last_calibrate_max == m,
        forall|i: int| 0 <= i < obs.len() ==> (#[trigger] obs[i]).1.spec_le(m),
        (exists|i: int| 0 <= i < obs.len() && (#[trigger] obs[i]).0 > t0 + CALIBRATION_QUIET_MS),
    ensures
        fold_calibrate(s, obs).last_calibrate_max == m,
        fold_calibrate(s, obs).calibration is Complete,
    decreases obs.len(),
{
    let first = obs.first();
    assert(obs[0] == first);
    let with_db = AppState { current_db: first.1, ..s };
    let stepped = AppState::spec_calibrate(with_db, first.0).0;
    assert(forall|i: int|
        0 <= i < obs.drop_first().len() ==> #[trigger] obs.drop_first()[i] == obs[i + 1]);
    if first.0 > t0 + CALIBRATION_QUIET_MS {
        assert(stepped.calibration is Complete);
        assert(stepped.last_calibrate_max == m);
        lemma_calibration_complete_stable(stepped, obs.drop_first());
    } else {
        // A value at or below the maximum is no new maximum, so nothing moves.
        assert(!m.spec_lt(first.1));
        assert(stepped == with_db);
        let j = choose|i: int|
            0 <= i < obs.len() && (#[trigger] obs[i]).0 > t0 + CALIBRATION_QUIET_MS;
        assert(j >= 1);
        assert(obs.drop_first()[j - 1] == obs[j]);
        lemma_calibration_ties_keep_max(stepped, obs.drop_first(), t0, m);
    }
}

/// A burst registers only out of an idle detector, and only when the
/// loudness is strictly above the peak threshold; an active detector never
/// registers, however loud the signal.
pub proof fn lemma_register_needs_idle(p: PeakStatus, db: Loudness, baseline: Loudness)
    ensures
        AppState::spec_peak_step(p, db, baseline).1 ==> p is Idle && AppState::spec_peak_threshold(
            baseline,
        ).spec_lt(db),
        p is Active ==> !AppState::spec_peak_step(p, db, baseline).1,
{
}

/// Run the burst detector over a sequence of observations, each the loudness
/// and the baseline current at one control tick; counts how many bursts
/// register along the way.
pub open spec fn fold_peak(p: PeakStatus, obs: Seq<(Loudness, Loudness)>) -> (PeakStatus, int)
    decreases obs.len(),
{
    if obs.len() == 0 {
        (p, 0)
    } else {
        let step = AppState::spec_peak_step(p, obs.first().0, obs.first().1);
        let rest = fold_peak(step.0, obs.drop_first());
        (rest.0, rest.1 + if step.1 { 1int } else { 0int })
    }
}

/// Once a burst has registered, no further burst registers while the
/// loudness stays above the peak threshold, over any number of ticks: the
/// detector stays active the whole while and counts nothing.
pub proof fn lemma_no_reregister_while_loud(p: PeakStatus, obs: Seq<(Loudness, Loudness)>)
    requires
        p is Active,
        forall|i: int|
            0 <= i < obs.len() ==> (#[trigger] obs[i]).1.within(MAX_ABS_MILLI_DB as int),
        forall|i: int|
            0 <= i < obs.len() ==> AppState::spec_peak_threshold((#[trigger] obs[i]).1).spec_lt(
                obs[i].0,
            ),
    ensures
        fold_peak(p, obs).0 is Active,
        fold_peak(p, obs).1 == 0,
    decreases obs.len(),
{
    if obs.len() > 0 {
        let first = obs.first();
        assert(obs[0] == first);
        let step = AppState::spec_peak_step(p, first.0, first.1);
        // Above the peak threshold is above the reset threshold, so the
        // detector cannot re-arm on this tick.
        assert(!first.0.spec_lt(AppState::spec_reset_threshold(first.1)));
        assert(step.0 is Active && !step.1);
        assert(forall|i: int|
            0 <= i < obs.drop_first().len() ==> #[trigger] obs.drop_first()[i] == obs[i + 1]);
        lemma_no_reregister_while_loud(step.0, obs.drop_first());
    }
}

/// The detector re-arms only once its debounce count has passed the reset
/// distance and the loudness has fallen below the reset threshold.
pub proof fn lemma_rearm_needs_quiet(ticks: u64, db: Loudness, baseline: Loudness)
    requires
        AppState::spec_peak_step(PeakStatus::Active { ticks }, db, baseline).0 is Idle,
    ensures
        ticks >= RESET_DISTANCE_TICKS,
        db.spec_lt(AppState::spec_reset_threshold(baseline)),
{
}

/// From a fresh registration — or any active detector — the detector cannot
/// re-arm until the ticks elapsed, together with the debounce count already
/// standing, exceed the reset distance. A burst registered on some tick
/// (count zero) therefore stays active for more than the reset distance of
/// further ticks.
pub proof fn lemma_rearm_needs_ticks(ticks: u64, obs: Seq<(Loudness, Loudness)>)
    ensures
        fold_peak(PeakStatus::Active { ticks }, obs).0 is Idle ==> ticks + obs.len()
            > RESET_DISTANCE_TICKS,
    decreases obs.len(),
{
    if obs.len() > 0 {
        let first = obs.first();
        assert(obs[0] == first);
        let step = AppState::spec_peak_step(PeakStatus::Active { ticks }, first.0, first.1);
        if step.0 is Idle {
            lemma_rearm_needs_quiet(ticks, first.0, first.1);
        } else {
            let advanced = (ticks + 1) as u64;
            assert(step.0 == PeakStatus::Active { ticks: advanced });
            lemma_rearm_needs_ticks(advanced, obs.drop_first());
        }
    }
}

/// The debounce count is an exact distance: every debounce tick either
/// re-arms the detector or leaves it active with the count exactly one
/// higher — and while the loudness has not dropped below the reset
/// threshold, the step never re-arms, however large the count already is.
pub proof fn lemma_debounce_advances_by_one(ticks: u64, db: Loudness, baseline: Loudness)
    requires
        ticks < u64::MAX,
    ensures
        AppState::spec_peak_reset(PeakStatus::Active { ticks }, db, baseline) is Idle
            || AppState::spec_peak_reset(PeakStatus::Active { ticks }, db, baseline) == (
        PeakStatus::Active { ticks: (ticks + 1) as u64 }),
        !db.spec_lt(AppState::spec_reset_threshold(baseline)) ==> AppState::spec_peak_reset(
            PeakStatus::Active { ticks },
            db,
            baseline,
        ) == (PeakStatus::Active { ticks: (ticks + 1) as u64 }),
{
}

/// The hard/soft boundary, with everything finite: a burst is hard exactly
/// when its loudness is at or above the calibrated maximum less one tenth of
/// the calibrated range, and soft exactly when it is strictly below.
pub proof fn lemma_hard_soft_boundary(x: i64, m: i64, b: i64)
    requires
        -MAX_ABS_MILLI_DB <= x <= MAX_ABS_MILLI_DB,
        -MAX_ABS_MILLI_DB <= m <= MAX_ABS_MILLI_DB,
        -MAX_ABS_MILLI_DB <= b <= MAX_ABS_MILLI_DB,
    ensures
        AppState::spec_is_hard(Loudness::Fin(x), Loudness::Fin(m), Loudness::Fin(b)) <==> x >= m
            - div_trunc(m - b, HARD_MARGIN_DIVISOR as int),
{
    crate::loudness::lemma_div_trunc_abs(m - b, HARD_MARGIN_DIVISOR as int);
}

/// Once the deadline is met, a tick changes nothing: the state — counters
/// included — stays exactly as it was, and the tick only reports the
/// timeout. No burst can be counted on or after the deadline tick.
pub proof fn lemma_deadline_freezes(s: AppState, now_ms: u64)
    requires
        s.time_ok(now_ms),
        s.spec_is_active(now_ms),
        s.calibration is Complete,
        now_ms - s.timer_started_ms >= s.time_limit_ms,
    ensures
        AppState::spec_tick(s, now_ms).0 == s,
        AppState::spec_tick(s, now_ms).1.event == TickEvent::TimedOut,
{
}

/// The calibration sequence is one-way: `Complete` is terminal, a started
/// sequence never returns to `Waiting`, and each step reports "calibrated"
/// exactly when the sequence it leaves behind is complete.
pub proof fn lemma_calibration_never_regresses(s: AppState, now_ms: u64)
    ensures
        s.calibration is Complete ==> AppState::spec_calibrate(s, now_ms).0.calibration
            is Complete,
        s.calibration is Started ==> !(AppState::spec_calibrate(s, now_ms).0.calibration
            is Waiting),
        AppState::spec_calibrate(s, now_ms).1 == (AppState::spec_calibrate(s,
        now_ms).0.calibration is Complete),
{
}

/// A control tick moves the counters only by registering a burst: the hard
/// count grows by one exactly on a hard-burst tick, the soft count by one
/// exactly on a soft-burst tick, and neither ever shrinks.
pub proof fn lemma_counters_move_only_on_burst(s: AppState, now_ms: u64)
    requires
        s.hard_bursts < u64::MAX,
        s.soft_bursts < u64::MAX,
    ensures
        AppState::spec_tick(s, now_ms).0.hard_bursts as int == s.hard_bursts as int + (
        if AppState::spec_tick(s, now_ms).1.event == (TickEvent::Burst { hard: true }) {
            1int
        } else {
            0int
        }),
        AppState::spec_tick(s, now_ms).0.soft_bursts as int == s.soft_bursts as int + (
        if AppState::spec_tick(s, now_ms).1.event == (TickEvent::Burst { hard: false }) {
            1int
        } else {
            0int
        }),
{
}

} // verus!

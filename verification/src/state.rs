//! The shared run state and its two transition functions: `ingest`, called
//! once per delivered audio block, and `tick`, called by the fixed-rate
//! control loop. Each is specified by an open transition function of the
//! whole state, so a caller knows the exact state after every call.

use vstd::prelude::*;

use crate::loudness::{
    block_is_silent, div_trunc, fold_baseline, lemma_div_trunc_abs, lemma_loud_sum_within,
    loud_add, loud_ewma, loud_mean, loud_sum, loudness_of_block, Loudness, BASELINE_WINDOW,
    MAX_ABS_MILLI_DB,
};

verus! {

/// How long after process start the classifier stays quiet, letting the
/// capture pipeline and the baseline settle, in milliseconds.
pub const ACTIVE_DELAY_MS: u64 = 1000;

/// How long the loudness must go without a new maximum before calibration
/// completes, in milliseconds.
pub const CALIBRATION_QUIET_MS: u64 = 2000;

/// How far above the baseline the loudness must rise to register a burst,
/// in thousandths of a decibel.
pub const PEAK_THRESHOLD_MILLI_DB: i64 = 15_000;

/// How far back below the burst-entry level the loudness must fall before
/// the detector re-arms, in thousandths of a decibel.
pub const RESET_THRESHOLD_MILLI_DB: i64 = 4_000;

/// The least number of control ticks a registered burst stays active before
/// the detector may re-arm.
pub const RESET_DISTANCE_TICKS: u64 = 8;

/// The hard/soft boundary sits this fraction of the calibrated range below
/// the calibration maximum: one tenth, i.e. a tolerance of nine tenths.
pub const HARD_MARGIN_DIVISOR: i64 = 10;

/// Target rate of the control loop, in ticks per second. The loop's cadence
/// is best-effort; nothing here depends on it, since every entry point takes
/// the current time as an argument.
pub const CONTROL_HZ: u64 = 50;

/// The calibration sequence: one-way, `Waiting` to `Started` to `Complete`.
/// `Started` carries the time at which the loudness last reached a new
/// maximum (or the time calibration began, while no maximum has been seen).
#[derive(Clone, Copy, PartialEq, Eq, Structural, Debug)]
pub enum CalibrationStatus {
    Waiting,
    Started { last_max_ms: u64 },
    Complete,
}

/// The burst detector: idle and ready to register, or active and debouncing.
/// `ticks` counts control ticks since the burst registered, advancing by one
/// on every debounce tick.
#[derive(Clone, Copy, PartialEq, Eq, Structural, Debug)]
pub enum PeakStatus {
    Idle,
    Active { ticks: u64 },
}

/// What a control tick did, for the caller to report.
#[derive(Clone, Copy, PartialEq, Eq, Structural, Debug)]
pub enum TickEvent {
    /// The settle delay since process start has not yet passed.
    Inactive,
    /// Calibration moved from `Waiting` to `Started` on this tick.
    CalibrationBegun,
    /// Calibration is still waiting for a quiet period.
    Calibrating,
    /// The configured time limit has run out; counters are final.
    TimedOut,
    /// Calibrated and running, but no burst registered on this tick.
    Quiet,
    /// A burst registered on this tick and was classified.
    Burst { hard: bool },
}

/// The report a control tick hands back. The remaining time is meaningful on
/// `Quiet` and `Burst` ticks and zero otherwise; minutes and seconds are the
/// remaining time broken down for display.
#[derive(Clone, Copy, PartialEq, Eq, Structural, Debug)]
pub struct TickReport {
    pub event: TickEvent,
    /// True exactly on the tick that moved calibration to `Complete`.
    pub calibration_completed: bool,
    pub remaining_ms: u64,
    pub remaining_min: u64,
    pub remaining_sec: u64,
}

/// All state shared between the capture callback and the control loop. The
/// caller keeps it under one lock and hands in the current time, in
/// milliseconds of any fixed monotonic clock.
pub struct AppState {
    /// Loudness of the most recent audio block.
    pub current_db: Loudness,
    /// Rolling estimate of the ambient noise floor.
    pub baseline: Loudness,
    /// How many blocks the baseline has folded, saturating at the window.
    pub baseline_samples: u64,
    /// Running sum of the first window of loudness values.
    pub baseline_sum: Loudness,
    /// The burst detector.
    pub peak: PeakStatus,
    /// When the run started.
    pub started_ms: u64,
    /// The loudest value seen while calibrating.
    pub last_calibrate_max: Loudness,
    /// The calibration sequence.
    pub calibration: CalibrationStatus,
    /// When calibration completed; the countdown runs from here.
    pub timer_started_ms: u64,
    /// The operator's time limit for the run.
    pub time_limit_ms: u64,
    /// Whether to show running counts with each burst.
    pub show_counts: bool,
    /// Bursts classified hard so far.
    pub hard_bursts: u64,
    /// Bursts classified soft so far.
    pub soft_bursts: u64,
    /// Every loudness value ingested so far, oldest first.
    pub history: Ghost<Seq<Loudness>>,
}

impl AppState {
    /// The state is well formed: every loudness value is in range, and the
    /// baseline fields are exactly what folding the ingested history gives.
    pub open spec fn wf(self) -> bool {
        &&& self.current_db.within(MAX_ABS_MILLI_DB as int)
        &&& self.baseline.within(MAX_ABS_MILLI_DB as int)
        &&& self.last_calibrate_max.within(MAX_ABS_MILLI_DB as int)
        &&& forall|i: int|
            0 <= i < self.history@.len() ==> #[trigger] self.history@[i].within(
                MAX_ABS_MILLI_DB as int,
            )
        &&& self.baseline_samples as int == if self.history@.len() <= BASELINE_WINDOW {
            self.history@.len() as int
        } else {
            BASELINE_WINDOW as int
        }
        &&& self.baseline_sum == loud_sum(self.history@.take(self.baseline_samples as int))
        &&& self.baseline_sum.within(self.baseline_samples as int * MAX_ABS_MILLI_DB as int)
        &&& self.baseline == fold_baseline(self.history@)
    }

    /// The debounce count has room to advance. At one tick every 20 ms the
    /// count could not reach the ceiling in the lifetime of any run; the
    /// caller checks it rather than assumes it.
    pub open spec fn peak_ticks_ok(self) -> bool {
        match self.peak {
            PeakStatus::Active { ticks } => ticks < u64::MAX,
            PeakStatus::Idle => true,
        }
    }

    /// The given time is no earlier than any time already recorded in the
    /// state. The caller reads all times from one monotonic clock, so this
    /// holds of every call.
    pub open spec fn time_ok(self, now_ms: u64) -> bool {
        &&& self.started_ms <= now_ms
        &&& self.timer_started_ms <= now_ms
        &&& match self.calibration {
            CalibrationStatus::Started { last_max_ms } => last_max_ms <= now_ms,
            _ => true,
        }
    }

    /// A fresh run state: nothing heard, nothing calibrated, counters at
    /// zero, both clocks at the given time.
    pub fn new(now_ms: u64, time_limit_ms: u64, show_counts: bool) -> (s: AppState)
        ensures
            s.wf(),
            s.current_db == Loudness::Fin(0),
            s.baseline == Loudness::Fin(0),
            s.baseline_samples == 0,
            s.baseline_sum == Loudness::Fin(0),
            s.peak == PeakStatus::Idle,
            s.started_ms == now_ms,
            s.last_calibrate_max == Loudness::Silence,
            s.calibration == CalibrationStatus::Waiting,
            s.timer_started_ms == now_ms,
            s.time_limit_ms == time_limit_ms,
            s.show_counts == show_counts,
            s.hard_bursts == 0,
            s.soft_bursts == 0,
            s.history@ == Seq::<Loudness>::empty(),
    {
        let s = AppState {
            current_db: Loudness::Fin(0),
            baseline: Loudness::Fin(0),
            baseline_samples: 0,
            baseline_sum: Loudness::Fin(0),
            peak: PeakStatus::Idle,
            started_ms: now_ms,
            last_calibrate_max: Loudness::Silence,
            calibration: CalibrationStatus::Waiting,
            timer_started_ms: now_ms,
            time_limit_ms,
            show_counts,
            hard_bursts: 0,
            soft_bursts: 0,
            history: Ghost(Seq::empty()),
        };
        proof {
            assert(s.history@.take(0) =~= Seq::<Loudness>::empty());
        }
        s
    }

    /// Fold one block's loudness into the state: record it as the current
    /// loudness and update the rolling baseline — an exact arithmetic mean
    /// while the first window is filling, a moving average afterwards.
    pub fn ingest(&mut self, db: Loudness)
        requires
            old(self).wf(),
            db.within(MAX_ABS_MILLI_DB as int),
        ensures
            final(self).wf(),
            final(self).history@ == old(self).history@.push(db),
            final(self).current_db == db,
            final(self).baseline == fold_baseline(final(self).history@),
            final(self).peak == old(self).peak,
            final(self).started_ms == old(self).started_ms,
            final(self).last_calibrate_max == old(self).last_calibrate_max,
            final(self).calibration == old(self).calibration,
            final(self).timer_started_ms == old(self).timer_started_ms,
            final(self).time_limit_ms == old(self).time_limit_ms,
            final(self).show_counts == old(self).show_counts,
            final(self).hard_bursts == old(self).hard_bursts,
            final(self).soft_bursts == old(self).soft_bursts,
    {
        let ghost oldh = self.history@;
        let ghost newh = oldh.push(db);
        self.current_db = db;
        self.history = Ghost(newh);
        proof {
            assert(newh.drop_last() =~= oldh);
            assert(forall|i: int|
                0 <= i < newh.len() ==> #[trigger] newh[i].within(MAX_ABS_MILLI_DB as int));
        }
        if self.baseline_samples < BASELINE_WINDOW {
            proof {
                assert(oldh.take(self.baseline_samples as int) =~= oldh);
                assert(newh.take(self.baseline_samples as int + 1) =~= newh);
                lemma_loud_sum_within(newh);
            }
            self.baseline_samples = self.baseline_samples + 1;
            self.baseline_sum = loud_add(self.baseline_sum, db);
            self.baseline = loud_mean(self.baseline_sum, self.baseline_samples);
        } else {
            proof {
                assert(newh.take(BASELINE_WINDOW as int) =~= oldh.take(BASELINE_WINDOW as int));
            }
            self.baseline = loud_ewma(self.baseline, db);
        }
    }

    /// Fold one raw sample block into the state: the block's loudness is
    /// silence exactly when every sample is zero, and otherwise the finite
    /// decibel value the caller measured for the block.
    pub fn ingest_block(&mut self, samples: &Vec<i64>, db_if_audible: i64)
        requires
            old(self).wf(),
            -MAX_ABS_MILLI_DB <= db_if_audible <= MAX_ABS_MILLI_DB,
        ensures
            final(self).wf(),
            final(self).current_db == (if block_is_silent(samples@) {
                Loudness::Silence
            } else {
                Loudness::Fin(db_if_audible)
            }),
            final(self).history@ == old(self).history@.push(final(self).current_db),
            final(self).baseline == fold_baseline(final(self).history@),
            final(self).peak == old(self).peak,
            final(self).last_calibrate_max == old(self).last_calibrate_max,
            final(self).calibration == old(self).calibration,
            final(self).hard_bursts == old(self).hard_bursts,
            final(self).soft_bursts == old(self).soft_bursts,
            final(self).started_ms == old(self).started_ms,
            final(self).timer_started_ms == old(self).timer_started_ms,
            final(self).time_limit_ms == old(self).time_limit_ms,
            final(self).show_counts == old(self).show_counts,
    {
        let db = loudness_of_block(samples, db_if_audible);
        self.ingest(db);
    }

    /// Whether the settle delay since process start has passed.
    pub open spec fn spec_is_active(self, now_ms: u64) -> bool {
        now_ms - self.started_ms >= ACTIVE_DELAY_MS
    }

    /// The classifier does nothing until the settle delay has passed.
    pub fn is_active(&self, now_ms: u64) -> (r: bool)
        requires
            self.started_ms <= now_ms,
        ensures
            r == self.spec_is_active(now_ms),
    {
        now_ms - self.started_ms >= ACTIVE_DELAY_MS
    }

    /// One step of the calibration sequence, and whether it reports
    /// "calibrated". `Waiting` starts the sequence; `Started` completes it
    /// once a full quiet period has passed with no new maximum, and otherwise
    /// records any new maximum together with its time; `Complete` is final.
    /// Completion wins over a simultaneous new maximum, and a value merely
    /// equal to the maximum never counts as a new one.
    pub open spec fn spec_calibrate(s: AppState, now_ms: u64) -> (AppState, bool) {
        match s.calibration {
            CalibrationStatus::Waiting => (
                AppState { calibration: CalibrationStatus::Started { last_max_ms: now_ms }, ..s },
                false,
            ),
            CalibrationStatus::Started { last_max_ms } => {
                if now_ms - last_max_ms > CALIBRATION_QUIET_MS {
                    (
                        AppState {
                            calibration: CalibrationStatus::Complete,
                            timer_started_ms: now_ms,
                            ..s
                        },
                        true,
                    )
                } else if s.last_calibrate_max.spec_lt(s.current_db) {
                    (
                        AppState {
                            last_calibrate_max: s.current_db,
                            calibration: CalibrationStatus::Started { last_max_ms: now_ms },
                            ..s
                        },
                        false,
                    )
                } else {
                    (s, false)
                }
            },
            CalibrationStatus::Complete => (s, true),
        }
    }

    /// Run the calibration sequence for this tick; the result says whether
    /// the state is calibrated, i.e. whether detection may proceed.
    pub fn calibrate(&mut self, now_ms: u64) -> (calibrated: bool)
        requires
            old(self).wf(),
            old(self).time_ok(now_ms),
        ensures
            final(self).wf(),
            final(self).time_ok(now_ms),
            (*final(self), calibrated) == AppState::spec_calibrate(*old(self), now_ms),
    {
        match self.calibration {
            CalibrationStatus::Waiting => {
                self.calibration = CalibrationStatus::Started { last_max_ms: now_ms };
                false
            },
            CalibrationStatus::Started { last_max_ms } => {
                if now_ms - last_max_ms > CALIBRATION_QUIET_MS {
                    self.calibration = CalibrationStatus::Complete;
                    self.timer_started_ms = now_ms;
                    true
                } else {
                    if self.current_db.gt(self.last_calibrate_max) {
                        self.last_calibrate_max = self.current_db;
                        self.calibration = CalibrationStatus::Started { last_max_ms: now_ms };
                    }
                    false
                }
            },
            CalibrationStatus::Complete => true,
        }
    }

    /// The level a burst must exceed: a fixed margin above the baseline.
    pub open spec fn spec_peak_threshold(baseline: Loudness) -> Loudness {
        baseline.spec_plus(PEAK_THRESHOLD_MILLI_DB as int)
    }

    pub fn peak_threshold(&self) -> (r: Loudness)
        requires
            self.wf(),
        ensures
            r == AppState::spec_peak_threshold(self.baseline),
    {
        self.baseline.plus(PEAK_THRESHOLD_MILLI_DB)
    }

    /// The level the loudness must fall below before the detector re-arms:
    /// the reset margin under the burst-entry level.
    pub open spec fn spec_reset_threshold(baseline: Loudness) -> Loudness {
        baseline.spec_plus(PEAK_THRESHOLD_MILLI_DB - RESET_THRESHOLD_MILLI_DB as int)
    }

    pub fn reset_threshold(&self) -> (r: Loudness)
        requires
            self.wf(),
        ensures
            r == AppState::spec_reset_threshold(self.baseline),
    {
        self.baseline.plus(PEAK_THRESHOLD_MILLI_DB - RESET_THRESHOLD_MILLI_DB)
    }

    /// One debounce step of an active detector: the tick count advances by
    /// one, and the detector re-arms only once the count has passed the reset
    /// distance and the loudness has fallen below the reset threshold. An
    /// idle detector is unchanged.
    pub open spec fn spec_peak_reset(p: PeakStatus, db: Loudness, baseline: Loudness) -> PeakStatus {
        match p {
            PeakStatus::Idle => p,
            PeakStatus::Active { ticks } => {
                let advanced: u64 = (ticks + 1) as u64;
                if advanced > RESET_DISTANCE_TICKS && db.spec_lt(
                    AppState::spec_reset_threshold(baseline),
                ) {
                    PeakStatus::Idle
                } else {
                    PeakStatus::Active { ticks: advanced }
                }
            },
        }
    }

    /// One step of the burst detector, and whether a burst registered this
    /// tick. An active detector only debounces — it can never register,
    /// however loud the signal — and an idle one registers exactly when the
    /// loudness exceeds the peak threshold.
    pub open spec fn spec_peak_step(p: PeakStatus, db: Loudness, baseline: Loudness) -> (
        PeakStatus,
        bool,
    ) {
        match p {
            PeakStatus::Active { .. } => (AppState::spec_peak_reset(p, db, baseline), false),
            PeakStatus::Idle => {
                if AppState::spec_peak_threshold(baseline).spec_lt(db) {
                    (PeakStatus::Active { ticks: 0 }, true)
                } else {
                    (PeakStatus::Idle, false)
                }
            },
        }
    }

    /// Advance the debounce of an active detector; idle is left alone.
    pub fn reset_peak(&mut self)
        requires
            old(self).wf(),
            old(self).peak_ticks_ok(),
        ensures
            final(self).wf(),
            final(self).peak == AppState::spec_peak_reset(
                old(self).peak,
                old(self).current_db,
                old(self).baseline,
            ),
            *final(self) == (AppState { peak: final(self).peak, ..*old(self) }),
    {
        match self.peak {
            PeakStatus::Idle => {},
            PeakStatus::Active { ticks } => {
                let advanced: u64 = ticks + 1;
                if advanced > RESET_DISTANCE_TICKS && self.current_db.lt(self.reset_threshold()) {
                    self.peak = PeakStatus::Idle;
                } else {
                    self.peak = PeakStatus::Active { ticks: advanced };
                }
            },
        }
    }

    /// One step of the burst detector. The already-active check comes before
    /// any idle check, so a still-active burst is never re-evaluated against
    /// the entry threshold on the same tick.
    pub fn detect_peak(&mut self) -> (burst: bool)
        requires
            old(self).wf(),
            old(self).peak_ticks_ok(),
        ensures
            final(self).wf(),
            (final(self).peak, burst) == AppState::spec_peak_step(
                old(self).peak,
                old(self).current_db,
                old(self).baseline,
            ),
            *final(self) == (AppState { peak: final(self).peak, ..*old(self) }),
    {
        match self.peak {
            PeakStatus::Active { .. } => {
                self.reset_peak();
                false
            },
            PeakStatus::Idle => {
                if self.current_db.gt(self.peak_threshold()) {
                    self.peak = PeakStatus::Active { ticks: 0 };
                    true
                } else {
                    false
                }
            },
        }
    }

    /// Whether a burst of the given loudness is hard, against the calibrated
    /// maximum and the current baseline. With both finite, the boundary is
    /// the maximum less one tenth of the calibrated range (maximum minus
    /// baseline): at or above is hard, strictly below is soft. A silent
    /// baseline leaves the boundary unboundedly low, so every burst is hard;
    /// a silent calibration maximum gives no finite reference, so none is.
    pub open spec fn spec_is_hard(db: Loudness, cal_max: Loudness, baseline: Loudness) -> bool {
        match (cal_max, baseline) {
            (Loudness::Fin(mv), Loudness::Fin(bv)) => Loudness::Fin(
                (mv - div_trunc(mv - bv, HARD_MARGIN_DIVISOR as int)) as i64,
            ).spec_le(db),
            (Loudness::Fin(_), Loudness::Silence) => true,
            (Loudness::Silence, _) => false,
        }
    }

    /// Classify the current loudness as a hard or soft burst.
    pub fn classify_hard(&self) -> (r: bool)
        requires
            self.wf(),
        ensures
            r == AppState::spec_is_hard(self.current_db, self.last_calibrate_max, self.baseline),
    {
        match (self.last_calibrate_max, self.baseline) {
            (Loudness::Fin(mv), Loudness::Fin(bv)) => {
                proof {
                    lemma_div_trunc_abs(mv - bv, HARD_MARGIN_DIVISOR as int);
                }
                let margin = crate::loudness::div_trunc_i64(mv - bv, HARD_MARGIN_DIVISOR as u64);
                let boundary = Loudness::Fin(mv - margin);
                !self.current_db.lt(boundary)
            },
            (Loudness::Fin(_), Loudness::Silence) => true,
            (Loudness::Silence, _) => false,
        }
    }

    /// Minutes and seconds of a millisecond count, for display as mm:ss.
    pub fn clock_parts(ms: u64) -> (r: (u64, u64))
        ensures
            r.0 == ms as int / 60000,
            r.1 == (ms as int / 1000) % 60,
    {
        let total_secs = ms / 1000;
        (total_secs / 60, total_secs % 60)
    }

    /// One control tick: the settle gate, then the calibration gate, then the
    /// deadline check, then peak detection, and classification of a freshly
    /// registered burst. Exactly one counter increments on a `Burst` tick and
    /// none on any other; once the deadline is met nothing changes any more.
    pub open spec fn spec_tick(s: AppState, now_ms: u64) -> (AppState, TickReport)
        recommends
            s.time_ok(now_ms),
    {
        if !s.spec_is_active(now_ms) {
            (s, TickReport {
                event: TickEvent::Inactive,
                calibration_completed: false,
                remaining_ms: 0,
                remaining_min: 0,
                remaining_sec: 0,
            })
        } else {
            let began = s.calibration is Waiting;
            let cal = AppState::spec_calibrate(s, now_ms);
            let s1 = cal.0;
            let calibrated = cal.1;
            let completed = calibrated && !(s.calibration is Complete);
            if !calibrated {
                (s1, TickReport {
                    event: if began {
                        TickEvent::CalibrationBegun
                    } else {
                        TickEvent::Calibrating
                    },
                    calibration_completed: false,
                    remaining_ms: 0,
                    remaining_min: 0,
                    remaining_sec: 0,
                })
            } else if now_ms - s1.timer_started_ms >= s1.time_limit_ms {
                (s1, TickReport {
                    event: TickEvent::TimedOut,
                    calibration_completed: completed,
                    remaining_ms: 0,
                    remaining_min: 0,
                    remaining_sec: 0,
                })
            } else {
                let remaining = (s1.time_limit_ms - (now_ms - s1.timer_started_ms)) as u64;
                let step = AppState::spec_peak_step(s1.peak, s1.current_db, s1.baseline);
                let s2 = AppState { peak: step.0, ..s1 };
                let report = TickReport {
                    event: TickEvent::Quiet,
                    calibration_completed: completed,
                    remaining_ms: remaining,
                    remaining_min: (remaining as int / 60000) as u64,
                    remaining_sec: ((remaining as int / 1000) % 60) as u64,
                };
                if step.1 {
                    if AppState::spec_is_hard(s2.current_db, s2.last_calibrate_max, s2.baseline) {
                        (
                            AppState { hard_bursts: (s2.hard_bursts + 1) as u64, ..s2 },
                            TickReport { event: TickEvent::Burst { hard: true }, ..report },
                        )
                    } else {
                        (
                            AppState { soft_bursts: (s2.soft_bursts + 1) as u64, ..s2 },
                            TickReport { event: TickEvent::Burst { hard: false }, ..report },
                        )
                    }
                } else {
                    (s2, report)
                }
            }
        }
    }

    /// Run one control tick against the current time.
    pub fn tick(&mut self, now_ms: u64) -> (report: TickReport)
        requires
            old(self).wf(),
            old(self).time_ok(now_ms),
            old(self).peak_ticks_ok(),
            old(self).hard_bursts < u64::MAX,
            old(self).soft_bursts < u64::MAX,
        ensures
            final(self).wf(),
            (*final(self), report) == AppState::spec_tick(*old(self), now_ms),
    {
        if !self.is_active(now_ms) {
            return TickReport {
                event: TickEvent::Inactive,
                calibration_completed: false,
                remaining_ms: 0,
                remaining_min: 0,
                remaining_sec: 0,
            };
        }
        let began = matches!(self.calibration, CalibrationStatus::Waiting);
        let was_complete = matches!(self.calibration, CalibrationStatus::Complete);
        let calibrated = self.calibrate(now_ms);
        let completed = calibrated && !was_complete;
        if !calibrated {
            return TickReport {
                event: if began {
                    TickEvent::CalibrationBegun
                } else {
                    TickEvent::Calibrating
                },
                calibration_completed: false,
                remaining_ms: 0,
                remaining_min: 0,
                remaining_sec: 0,
            };
        }
        let elapsed = now_ms - self.timer_started_ms;
        if elapsed >= self.time_limit_ms {
            return TickReport {
                event: TickEvent::TimedOut,
                calibration_completed: completed,
                remaining_ms: 0,
                remaining_min: 0,
                remaining_sec: 0,
            };
        }
        let remaining_ms = self.time_limit_ms - elapsed;
        let (remaining_min, remaining_sec) = AppState::clock_parts(remaining_ms);
        let burst = self.detect_peak();
        let event = if burst {
            if self.classify_hard() {
                self.hard_bursts = self.hard_bursts + 1;
                TickEvent::Burst { hard: true }
            } else {
                self.soft_bursts = self.soft_bursts + 1;
                TickEvent::Burst { hard: false }
            }
        } else {
            TickEvent::Quiet
        };
        TickReport {
            event,
            calibration_completed: completed,
            remaining_ms,
            remaining_min,
            remaining_sec,
        }
    }
}

} // verus!

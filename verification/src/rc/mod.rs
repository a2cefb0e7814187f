//! The RC stick filter: configuration, state and the choice of each report's step.

use vstd::prelude::*;

use crate::ints::{clamp_i32, clamp_int};
use crate::scalar::Scalar;

pub mod coeffs;
pub mod curve;
pub mod firebird;

pub use coeffs::{
    PeriodCoeffs, MAX_PARAM, MAX_PERIOD_US, MAX_SPEED, MIN_PARAM, MIN_PERIOD_US, MIN_SPEED,
};
pub use curve::{
    can_evaluate, clamp_param, legacy_speed, param_at, param_from_speed, speed_legacy, to_raw12,
    RcCurve,
};
pub use firebird::FbAxisState;

verus! {

/// Which recurrence the filter runs.
#[derive(Clone, Copy, Debug, PartialEq, Eq, Structural)]
pub enum RcMode {
    /// Integer arithmetic, bound to the report rate.
    FireBirdInteger,
    /// Doubles, bound to the report rate.
    UltimateLegacy,
    /// Doubles, independent of the report rate.
    UltimateDt,
}

impl Default for RcMode {
    fn default() -> (r: RcMode)
        ensures
            r == RcMode::UltimateDt,
    {
        RcMode::UltimateDt
    }
}

/// The filter settings of one stick.
#[derive(Clone, Copy, Debug, PartialEq, Eq, Structural)]
pub struct RcConfig {
    /// Whether the filter runs; otherwise readings pass through.
    pub enabled: bool,
    /// Which recurrence runs.
    pub mode: RcMode,
    /// Whether the strength follows the stick speed along `curve`.
    pub use_dynamic_curve: bool,
    /// Filter period in microseconds.
    pub period_us: i32,
    /// Strength where it does not follow the speed.
    pub fixed_param: i32,
    /// Strength over speed.
    pub curve: RcCurve,
}

impl RcConfig {
    /// The settings in force where nothing else is configured.
    pub open spec fn default_spec() -> RcConfig {
        RcConfig {
            enabled: false,
            mode: RcMode::UltimateDt,
            use_dynamic_curve: false,
            period_us: 4000,
            fixed_param: 100,
            curve: RcCurve::default_spec(),
        }
    }

    /// The settings with period and strength in their ranges and the breakpoints in order.
    pub open spec fn clamped_spec(self) -> RcConfig {
        RcConfig {
            period_us: clamp_int(
                self.period_us as int,
                MIN_PERIOD_US as int,
                MAX_PERIOD_US as int,
            ) as i32,
            fixed_param: clamp_int(
                self.fixed_param as int,
                MIN_PARAM as int,
                MAX_PARAM as int,
            ) as i32,
            curve: RcCurve {
                x2: if self.curve.x2 < self.curve.x1 {
                    self.curve.x1
                } else {
                    self.curve.x2
                },
                ..self.curve
            },
            ..self
        }
    }

    /// A copy with period and strength in their ranges and the breakpoints in order.
    pub fn clamped(&self) -> (r: RcConfig)
        ensures
            r == self.clamped_spec(),
    {
        let mut out: RcConfig = *self;
        out.period_us = clamp_i32(out.period_us, MIN_PERIOD_US, MAX_PERIOD_US);
        out.fixed_param = clamp_param(out.fixed_param);
        if out.curve.x2 < out.curve.x1 {
            out.curve.x2 = out.curve.x1;
        }
        out
    }
}

impl Default for RcConfig {
    fn default() -> (r: RcConfig)
        ensures
            r == RcConfig::default_spec(),
    {
        RcConfig {
            enabled: false,
            mode: RcMode::UltimateDt,
            use_dynamic_curve: false,
            period_us: 4000,
            fixed_param: 100,
            curve: RcCurve::default(),
        }
    }
}

/// Clamping twice is clamping once, and clamped settings lie in their ranges.
pub proof fn rc_clamp_settles(c: RcConfig)
    ensures
        c.clamped_spec().clamped_spec() == c.clamped_spec(),
        MIN_PERIOD_US <= c.clamped_spec().period_us <= MAX_PERIOD_US,
        MIN_PARAM <= c.clamped_spec().fixed_param <= MAX_PARAM,
        c.clamped_spec().curve.x1 <= c.clamped_spec().curve.x2,
{
}

/// The state of one axis of the recurrences on doubles: the same two histories as in
/// [`FbAxisState`], in the scale of the mode.
#[derive(Clone, Copy, Debug, PartialEq, Eq, Structural)]
pub struct UltAxisState {
    pub pos_primed: bool,
    pub pos: Scalar,
    pub neg_primed: bool,
    pub neg: Scalar,
    pub neg_prev: Scalar,
}

impl UltAxisState {
    /// No history.
    pub open spec fn fresh() -> UltAxisState {
        let z = Scalar { bits: 0 };
        UltAxisState { pos_primed: false, pos: z, neg_primed: false, neg: z, neg_prev: z }
    }

    /// Both histories at one reading.
    pub open spec fn seeded(v: Scalar) -> UltAxisState {
        UltAxisState { pos_primed: true, pos: v, neg_primed: true, neg: v, neg_prev: v }
    }

    /// The state and the branch that a strength asks for.
    pub open spec fn begun(self, param: i32, reading: Scalar) -> (UltAxisState, UltBranch) {
        if param == 0 {
            (self, UltBranch::Bypass)
        } else if param > 0 {
            if self.pos_primed {
                (self, UltBranch::Smooth)
            } else {
                (UltAxisState { pos_primed: true, pos: reading, ..self }, UltBranch::Seeded)
            }
        } else if self.neg_primed {
            (self, UltBranch::Lead)
        } else {
            (
                UltAxisState { neg_primed: true, neg: reading, neg_prev: reading, ..self },
                UltBranch::Seeded,
            )
        }
    }

    /// What a strength asks of this axis. The first use of a branch seeds it at the reading
    /// (given in the scale of the state), and the caller emits the reading; a later use leaves
    /// the numeric step to the caller.
    pub fn begin(&mut self, param: i32, reading: Scalar) -> (r: UltBranch)
        ensures
            (*final(self), r) == old(self).begun(param, reading),
            r == (if param == 0 {
                UltBranch::Bypass
            } else if param > 0 {
                if old(self).pos_primed {
                    UltBranch::Smooth
                } else {
                    UltBranch::Seeded
                }
            } else if old(self).neg_primed {
                UltBranch::Lead
            } else {
                UltBranch::Seeded
            }),
            *final(self) == (if r != UltBranch::Seeded {
                *old(self)
            } else if param > 0 {
                UltAxisState { pos_primed: true, pos: reading, ..*old(self) }
            } else {
                UltAxisState {
                    neg_primed: true,
                    neg: reading,
                    neg_prev: reading,
                    ..*old(self)
                }
            }),
    {
        if param == 0 {
            return UltBranch::Bypass;
        }
        if param > 0 {
            if self.pos_primed {
                return UltBranch::Smooth;
            }
            self.pos_primed = true;
            self.pos = reading;
            return UltBranch::Seeded;
        }
        if self.neg_primed {
            return UltBranch::Lead;
        }
        self.neg_primed = true;
        self.neg = reading;
        self.neg_prev = reading;
        UltBranch::Seeded
    }
}

impl Default for UltAxisState {
    fn default() -> (r: UltAxisState)
        ensures
            r == UltAxisState::fresh(),
    {
        let z: Scalar = Scalar { bits: 0 };
        UltAxisState { pos_primed: false, pos: z, neg_primed: false, neg: z, neg_prev: z }
    }
}

/// What a report does to one axis of a recurrence on doubles.
#[derive(Clone, Copy, Debug, PartialEq, Eq, Structural)]
pub enum UltBranch {
    /// The reading passes; no history is touched.
    Bypass,
    /// The reading passes; the branch is now seeded at it.
    Seeded,
    /// The smoothing branch advances.
    Smooth,
    /// The leading branch advances.
    Lead,
}

/// The whole filter state of one stick.
#[derive(Clone, Copy, Debug, PartialEq, Eq)]
pub struct RcStickState {
    /// Integer state, X then Y.
    pub fb: [FbAxisState; 2],
    /// State on doubles, X then Y.
    pub ult: [UltAxisState; 2],
    /// The last readings in sixteenths, X then Y.
    pub prev_raw12: [i32; 2],
    /// The coefficients of the period last seen.
    pub coeffs: Option<PeriodCoeffs>,
}

/// Whether `v` is a reading in sixteenths of an 8-bit stick unit.
pub open spec fn is_raw12(v: int) -> bool {
    0 <= v <= firebird::RAW12_MAX
}

impl RcStickState {
    /// Whether the state can come from readings in their range.
    pub open spec fn valid(self) -> bool {
        &&& self.fb@[0].in_range() && self.fb@[1].in_range()
        &&& is_raw12(self.prev_raw12@[0] as int) && is_raw12(self.prev_raw12@[1] as int)
        &&& self.coeffs matches Some(c) ==> c == PeriodCoeffs::of(c.period_us as int)
    }

    /// Whether the filter has seen nothing.
    pub open spec fn fresh(self) -> bool {
        &&& self.fb@ == seq![FbAxisState::fresh(), FbAxisState::fresh()]
        &&& self.ult@ == seq![UltAxisState::fresh(), UltAxisState::fresh()]
        &&& self.prev_raw12@ == seq![0i32, 0i32]
        &&& self.coeffs is None
    }

    /// The coefficients of a period, computed only where they are not at hand.
    pub fn ensure_coeffs(&mut self, period_us: i32) -> (r: PeriodCoeffs)
        requires
            old(self).valid(),
        ensures
            r == PeriodCoeffs::of(period_us as int),
            final(self).valid(),
            final(self).coeffs == Some(r),
            final(self).fb == old(self).fb,
            final(self).ult == old(self).ult,
            final(self).prev_raw12 == old(self).prev_raw12,
    {
        let period: i32 = clamp_i32(period_us, MIN_PERIOD_US, MAX_PERIOD_US);
        if let Some(c) = self.coeffs {
            if c.period_us == period {
                return c;
            }
        }
        let c: PeriodCoeffs = PeriodCoeffs::new(period);
        self.coeffs = Some(c);
        c
    }
}

impl Default for RcStickState {
    fn default() -> (r: RcStickState)
        ensures
            r.fresh(),
            r.valid(),
    {
        let fb: FbAxisState = FbAxisState::default();
        let ult: UltAxisState = UltAxisState::default();
        RcStickState { fb: [fb, fb], ult: [ult, ult], prev_raw12: [0, 0], coeffs: None }
    }
}

/// Seeds both histories of an axis at a reading.
pub fn self_seed_fb(st: &mut FbAxisState, input_q4: i32)
    ensures
        *final(st) == FbAxisState::seeded(input_q4),
{
    st.pos_primed = true;
    st.pos_q4 = input_q4;
    st.neg_primed = true;
    st.neg_q4 = input_q4;
    st.neg_prev_q4 = input_q4;
}

/// What one report does to a stick.
#[derive(Clone, Copy, Debug, PartialEq, Eq, Structural)]
pub enum RcStep {
    /// The filter is off: the reading passes.
    Off,
    /// The integer recurrence has run; outputs in 256ths of an 8-bit stick unit.
    Done { x: i32, y: i32 },
    /// A recurrence on doubles is to be run with this strength and these coefficients.
    Pending { param: i32, coeffs: PeriodCoeffs },
}

/// The larger of the two axes' changes since the last report.
pub open spec fn largest_change(st: RcStickState, rx: int, ry: int) -> int {
    let dx = rx - st.prev_raw12@[0];
    let dy = ry - st.prev_raw12@[1];
    let ax = if dx >= 0 { dx } else { -dx };
    let ay = if dy >= 0 { dy } else { -dy };
    if ax >= ay {
        ax
    } else {
        ay
    }
}

/// The stick speed that the strength follows: measured against the report time in the mode that
/// does not depend on the report rate (where the caller supplies it), else against the period.
pub open spec fn speed_of(cfg: RcConfig, st: RcStickState, rx: int, ry: int, dt_speed: int) -> int {
    if cfg.mode == RcMode::UltimateDt {
        dt_speed
    } else {
        legacy_speed(
            largest_change(st, rx, ry),
            PeriodCoeffs::of(cfg.period_us as int).period_us as int,
        )
    }
}

/// The strength of one report.
pub open spec fn strength(cfg: RcConfig, st: RcStickState, rx: int, ry: int, dt_speed: int) -> int {
    if cfg.use_dynamic_curve {
        param_at(cfg.curve, speed_of(cfg, st, rx, ry, dt_speed))
    } else {
        clamp_int(cfg.fixed_param as int, MIN_PARAM as int, MAX_PARAM as int)
    }
}

/// What a report leaves of an enabled filter and what it gives: the integer histories, X then Y,
/// the readings it remembers, its coefficients, and the step.
pub struct RcOutcome {
    pub fb: Seq<FbAxisState>,
    pub prev_raw12: Seq<i32>,
    pub coeffs: PeriodCoeffs,
    pub step: RcStep,
}

/// What a report does to an enabled filter.
pub open spec fn advanced(
    cfg: RcConfig,
    st: RcStickState,
    rx: i32,
    ry: i32,
    dt_speed: int,
) -> RcOutcome {
    let c = PeriodCoeffs::of(cfg.period_us as int);
    let param = strength(cfg, st, rx as int, ry as int, dt_speed);
    let lead = c.lead_base as int;
    let base = c.base_value as int;
    let (sx, x) = firebird::stepped(st.fb@[0], rx as int, param, lead, base);
    let (sy, y) = firebird::stepped(st.fb@[1], ry as int, param, lead, base);
    if cfg.mode == RcMode::FireBirdInteger {
        RcOutcome {
            fb: seq![sx, sy],
            prev_raw12: seq![rx, ry],
            coeffs: c,
            step: RcStep::Done { x: x as i32, y: y as i32 },
        }
    } else {
        RcOutcome {
            fb: st.fb@,
            prev_raw12: seq![rx, ry],
            coeffs: c,
            step: RcStep::Pending { param: param as i32, coeffs: c },
        }
    }
}

/// The RC filter.
pub struct RcFilter;

/// Whether every history of a stick is at one reading.
pub open spec fn seeded_at(
    cfg: RcConfig,
    st: RcStickState,
    rx: i32,
    ry: i32,
    seed_x: Scalar,
    seed_y: Scalar,
) -> bool {
    &&& st.fb@ == seq![FbAxisState::seeded((rx * 16) as i32), FbAxisState::seeded((ry * 16) as i32)]
    &&& st.ult@ == seq![UltAxisState::seeded(seed_x), UltAxisState::seeded(seed_y)]
    &&& st.prev_raw12@ == seq![rx, ry]
    &&& st.coeffs == Some(PeriodCoeffs::of(cfg.period_us as int))
}

impl RcFilter {
    /// Seeds every history of a stick at a first reading, so that the next report takes no step.
    /// `rx` and `ry` are the reading in sixteenths; `seed_x` and `seed_y` the same reading as
    /// doubles in the scale of the mode.
    pub fn prime(
        &self,
        cfg: &RcConfig,
        st: &mut RcStickState,
        rx: i32,
        ry: i32,
        seed_x: Scalar,
        seed_y: Scalar,
    )
        requires
            is_raw12(rx as int),
            is_raw12(ry as int),
        ensures
            seeded_at(*cfg, *final(st), rx, ry, seed_x, seed_y),
            final(st).valid(),
    {
        let mut fx: FbAxisState = st.fb[0];
        let mut fy: FbAxisState = st.fb[1];
        self_seed_fb(&mut fx, rx * 16);
        self_seed_fb(&mut fy, ry * 16);
        st.fb = [fx, fy];
        st.ult = [
            UltAxisState {
                pos_primed: true,
                pos: seed_x,
                neg_primed: true,
                neg: seed_x,
                neg_prev: seed_x,
            },
            UltAxisState {
                pos_primed: true,
                pos: seed_y,
                neg_primed: true,
                neg: seed_y,
                neg_prev: seed_y,
            },
        ];
        st.prev_raw12 = [rx, ry];
        st.coeffs = Some(
            PeriodCoeffs::new(clamp_i32(cfg.period_us, MIN_PERIOD_US, MAX_PERIOD_US)),
        );
    }

    /// Forgets everything that the filter has seen of a stick.
    pub fn reset(&self, st: &mut RcStickState)
        ensures
            final(st).fresh(),
            final(st).valid(),
    {
        *st = RcStickState::default();
    }

    /// The larger of the two axes' changes since the last report, in sixteenths.
    pub fn change(&self, st: &RcStickState, rx: i32, ry: i32) -> (r: i32)
        requires
            st.valid(),
            is_raw12(rx as int),
            is_raw12(ry as int),
        ensures
            r == largest_change(*st, rx as int, ry as int),
            0 <= r <= firebird::RAW12_MAX,
            r >= rx - st.prev_raw12@[0] && r >= st.prev_raw12@[0] - rx,
            r >= ry - st.prev_raw12@[1] && r >= st.prev_raw12@[1] - ry,
    {
        let dx: i32 = rx - st.prev_raw12[0];
        let dy: i32 = ry - st.prev_raw12[1];
        let ax: i32 = if dx >= 0 {
            dx
        } else {
            -dx
        };
        let ay: i32 = if dy >= 0 {
            dy
        } else {
            -dy
        };
        if ax >= ay {
            ax
        } else {
            ay
        }
    }

    /// Whether the strength of a report can be computed in 32 bits.
    pub fn can_process(
        &self,
        cfg: &RcConfig,
        st: &RcStickState,
        rx: i32,
        ry: i32,
        dt_speed: i32,
    ) -> (r: bool)
        requires
            st.valid(),
            is_raw12(rx as int),
            is_raw12(ry as int),
        ensures
            r == (cfg.enabled && cfg.use_dynamic_curve ==> cfg.curve.segment(
                speed_of(*cfg, *st, rx as int, ry as int, dt_speed as int),
            ).fits()),
    {
        if !cfg.enabled || !cfg.use_dynamic_curve {
            return true;
        }
        let speed: i32 = match cfg.mode {
            RcMode::UltimateDt => dt_speed,
            _ => {
                let delta: i32 = self.change(st, rx, ry);
                let period: i32 = clamp_i32(cfg.period_us, MIN_PERIOD_US, MAX_PERIOD_US);
                assert(0 <= delta * period <= 4080 * 8000) by (nonlinear_arith)
                    requires
                        0 <= delta <= 4080,
                        0 <= period <= 8000,
                ;
                speed_legacy(delta, period)
            },
        };
        can_evaluate(&cfg.curve, speed)
    }

    /// Advances a stick by one report. `rx` and `ry` are the reading in sixteenths; `dt_speed` is
    /// the stick speed against the report time, used by the mode that does not depend on the
    /// report rate. The readings are remembered whether or not the strength follows the speed.
    pub fn process(
        &self,
        cfg: &RcConfig,
        st: &mut RcStickState,
        rx: i32,
        ry: i32,
        dt_speed: i32,
    ) -> (r: RcStep)
        requires
            old(st).valid(),
            is_raw12(rx as int),
            is_raw12(ry as int),
            cfg.enabled && cfg.use_dynamic_curve ==> cfg.curve.segment(
                speed_of(*cfg, *old(st), rx as int, ry as int, dt_speed as int),
            ).fits(),
        ensures
            final(st).valid(),
            final(st).ult == old(st).ult,
            !cfg.enabled ==> r == RcStep::Off && *final(st) == *old(st),
            cfg.enabled ==> ({
                let done = advanced(*cfg, *old(st), rx, ry, dt_speed as int);
                &&& r == done.step
                &&& final(st).fb@ == done.fb
                &&& final(st).prev_raw12@ == done.prev_raw12
                &&& final(st).coeffs == Some(done.coeffs)
            }),
            cfg.enabled ==> ({
                let c = PeriodCoeffs::of(cfg.period_us as int);
                let param = strength(*cfg, *old(st), rx as int, ry as int, dt_speed as int);
                &&& final(st).prev_raw12@ == seq![rx, ry]
                &&& final(st).coeffs == Some(c)
                &&& cfg.mode == RcMode::FireBirdInteger ==> ({
                    let (sx, x) = firebird::stepped(
                        old(st).fb@[0],
                        rx as int,
                        param,
                        c.lead_base as int,
                        c.base_value as int,
                    );
                    let (sy, y) = firebird::stepped(
                        old(st).fb@[1],
                        ry as int,
                        param,
                        c.lead_base as int,
                        c.base_value as int,
                    );
                    &&& final(st).fb@ == seq![sx, sy]
                    &&& r == (RcStep::Done { x: x as i32, y: y as i32 })
                })
                &&& cfg.mode != RcMode::FireBirdInteger ==> {
                    &&& final(st).fb == old(st).fb
                    &&& r == (RcStep::Pending { param: param as i32, coeffs: c })
                }
            }),
    {
        if !cfg.enabled {
            return RcStep::Off;
        }
        let c: PeriodCoeffs = st.ensure_coeffs(cfg.period_us);
        proof {
            coeffs::coefficient_ranges(c.period_us as int);
        }
        let param: i32 = if cfg.use_dynamic_curve {
            let delta: i32 = self.change(st, rx, ry);
            let speed: i32 = match cfg.mode {
                RcMode::UltimateDt => dt_speed,
                _ => {
                    assert(0 <= delta * c.period_us <= 4080 * 8000) by (nonlinear_arith)
                        requires
                            0 <= delta <= 4080,
                            0 <= c.period_us <= 8000,
                    ;
                    speed_legacy(delta, c.period_us)
                },
            };
            param_from_speed(&cfg.curve, speed)
        } else {
            clamp_param(cfg.fixed_param)
        };
        st.prev_raw12 = [rx, ry];
        match cfg.mode {
            RcMode::FireBirdInteger => {
                proof {
                    firebird::ordinary_steps_fit(
                        st.fb@[0],
                        rx as int,
                        param as int,
                        c.lead_base as int,
                        c.base_value as int,
                    );
                    firebird::ordinary_steps_fit(
                        st.fb@[1],
                        ry as int,
                        param as int,
                        c.lead_base as int,
                        c.base_value as int,
                    );
                }
                let mut fx: FbAxisState = st.fb[0];
                let mut fy: FbAxisState = st.fb[1];
                let x: i32 = firebird::step(&mut fx, rx, param, c.lead_base, c.base_value);
                let y: i32 = firebird::step(&mut fy, ry, param, c.lead_base, c.base_value);
                st.fb = [fx, fy];
                RcStep::Done { x, y }
            },
            _ => RcStep::Pending { param, coeffs: c },
        }
    }
}

/// The speed does not depend on the direction of a motion, nor on the axis: the change is as large
/// as that of either axis in either direction and equal to one of these, going back is the same
/// change as going there, and exchanging the axes changes nothing.
pub proof fn change_is_blind_to_direction(st: RcStickState, back: RcStickState, rx: i32, ry: i32)
    requires
        back.prev_raw12@ == seq![rx, ry],
    ensures
        ({
            let (px, py) = (st.prev_raw12@[0], st.prev_raw12@[1]);
            let c = largest_change(st, rx as int, ry as int);
            &&& c >= rx - px && c >= px - rx && c >= ry - py && c >= py - ry
            &&& c == rx - px || c == px - rx || c == ry - py || c == py - ry
            &&& largest_change(back, px as int, py as int) == c
        }),
{
}

/// The stick speed that the strength follows. Bound to the report rate, it is the whole part of the
/// change times the period over 8 ms, up to 128, where the period is held between 1 and 8 ms; the
/// mode that does not depend on the report rate takes the speed that it is given.
pub proof fn speed_follows_the_change(
    cfg: RcConfig,
    st: RcStickState,
    rx: int,
    ry: int,
    dt_speed: int,
)
    ensures
        ({
            let v = speed_of(cfg, st, rx, ry, dt_speed);
            let c = largest_change(st, rx, ry);
            &&& cfg.mode is UltimateDt ==> v == dt_speed
            &&& !(cfg.mode is UltimateDt) ==> 0 <= v <= 128
            &&& !(cfg.mode is UltimateDt) && 1_000 <= cfg.period_us <= 8_000 ==> {
                &&& 8000 * v <= c * cfg.period_us
                &&& v < 128 ==> c * cfg.period_us < 8000 * v + 8000
            }
            &&& !(cfg.mode is UltimateDt) && cfg.period_us < 1_000 ==> 8 * v <= c && (v < 128 ==> c
                < 8 * v + 8)
            &&& !(cfg.mode is UltimateDt) && cfg.period_us > 8_000 ==> v == (if c <= 128 {
                c
            } else {
                128
            })
        }),
{
    let p = PeriodCoeffs::of(cfg.period_us as int).period_us as int;
    let c = largest_change(st, rx, ry);
    curve::speed_counts_whole_units(c, p);
    assert(p == 1_000 ==> c * p == c * 1_000) by (nonlinear_arith);
    assert(p == 8_000 ==> c * p == c * 8_000) by (nonlinear_arith);
    assert(1_000 <= cfg.period_us <= 8_000 ==> c * p == c * cfg.period_us);
}

/// A fixed strength is the one that is set, held between -500 and 500; one that follows the speed
/// is that of the curve. Two reports of the same speed have the same strength.
pub proof fn strength_is_fixed_or_follows(
    cfg: RcConfig,
    st: RcStickState,
    rx: int,
    ry: int,
    dt_speed: int,
)
    ensures
        ({
            let p = strength(cfg, st, rx, ry, dt_speed);
            &&& -500 <= p <= 500
            &&& !cfg.use_dynamic_curve && -500 <= cfg.fixed_param <= 500 ==> p == cfg.fixed_param
            &&& !cfg.use_dynamic_curve && cfg.fixed_param < -500 ==> p == -500
            &&& !cfg.use_dynamic_curve && cfg.fixed_param > 500 ==> p == 500
            &&& cfg.use_dynamic_curve ==> p == param_at(
                cfg.curve,
                speed_of(cfg, st, rx, ry, dt_speed),
            )
        }),
{
}

/// The two axes are alike: exchanging them in the readings and in the histories exchanges the
/// outputs and the new histories, and nothing else.
pub proof fn axes_are_alike(
    cfg: RcConfig,
    st: RcStickState,
    turned: RcStickState,
    rx: i32,
    ry: i32,
    dt_speed: int,
)
    requires
        turned.fb@ == seq![st.fb@[1], st.fb@[0]],
        turned.prev_raw12@ == seq![st.prev_raw12@[1], st.prev_raw12@[0]],
    ensures
        ({
            let a = advanced(cfg, st, rx, ry, dt_speed);
            let b = advanced(cfg, turned, ry, rx, dt_speed);
            &&& b.fb =~= seq![a.fb[1], a.fb[0]]
            &&& b.coeffs == a.coeffs
            &&& a.step matches RcStep::Done { x, y } ==> b.step == (RcStep::Done { x: y, y: x })
            &&& a.step is Pending ==> b.step == a.step
        }),
{
    let a = advanced(cfg, st, rx, ry, dt_speed);
    let b = advanced(cfg, turned, ry, rx, dt_speed);
    assert(largest_change(turned, ry as int, rx as int) == largest_change(
        st,
        rx as int,
        ry as int,
    ));
    assert(st.fb@.len() == 2);
    if cfg.mode != RcMode::FireBirdInteger {
        assert(b.fb =~= seq![a.fb[1], a.fb[0]]);
    }
}

/// An enabled filter remembers the readings, X then Y, and the coefficients of its period. Only the
/// integer mode steps the integer histories; the others hand the strength on and leave them. Each
/// axis of the integer mode is stepped by its own reading with the strength of the report and the
/// coefficients of the period.
pub proof fn report_is_remembered(
    cfg: RcConfig,
    st: RcStickState,
    rx: i32,
    ry: i32,
    dt_speed: int,
)
    ensures
        ({
            let a = advanced(cfg, st, rx, ry, dt_speed);
            let p = strength(cfg, st, rx as int, ry as int, dt_speed);
            &&& a.prev_raw12[0] == rx && a.prev_raw12[1] == ry
            &&& a.coeffs == PeriodCoeffs::of(cfg.period_us as int)
            &&& a.step is Done <==> cfg.mode is FireBirdInteger
            &&& !(cfg.mode is FireBirdInteger) ==> a.fb == st.fb@ && a.step == (RcStep::Pending {
                param: p as i32,
                coeffs: a.coeffs,
            })
            &&& cfg.mode is FireBirdInteger ==> {
                let (sx, x) = firebird::stepped(
                    st.fb@[0],
                    rx as int,
                    p,
                    a.coeffs.lead_base as int,
                    a.coeffs.base_value as int,
                );
                a.fb[0] == sx && a.step->x == x as i32
            }
        }),
{
}

/// The readings on doubles go by the sign of the strength: none passes, a positive one smooths, a
/// negative one leads. The first use of a branch seeds it and no use touches the other one.
pub proof fn sign_chooses_the_branch(st: UltAxisState, param: i32, reading: Scalar)
    ensures
        ({
            let (next, branch) = st.begun(param, reading);
            &&& param == 0 ==> branch is Bypass && next == st
            &&& param > 0 && st.pos_primed ==> branch is Smooth && next == st
            &&& param < 0 && st.neg_primed ==> branch is Lead && next == st
            &&& param > 0 && !st.pos_primed ==> branch is Seeded && next.pos == reading
            &&& param < 0 && !st.neg_primed ==> branch is Seeded && next.neg == reading
                && next.neg_prev == reading
            &&& param > 0 ==> next.pos_primed
            &&& param < 0 ==> next.neg_primed
            &&& param >= 0 ==> next.neg_primed == st.neg_primed && next.neg == st.neg
                && next.neg_prev == st.neg_prev
            &&& param <= 0 ==> next.pos_primed == st.pos_primed && next.pos == st.pos
        }),
{
}

/// Clamped settings hold the period between 1 and 8 ms, the strength between -500 and 500 and the
/// second breakpoint from the first one on, and are as set where they were.
pub proof fn filter_settings_in_range(c: RcConfig)
    ensures
        ({
            let r = c.clamped_spec();
            &&& 1_000 <= r.period_us <= 8_000
            &&& 1_000 <= c.period_us <= 8_000 ==> r.period_us == c.period_us
            &&& c.period_us < 1_000 ==> r.period_us == 1_000
            &&& c.period_us > 8_000 ==> r.period_us == 8_000
            &&& -500 <= r.fixed_param <= 500
            &&& -500 <= c.fixed_param <= 500 ==> r.fixed_param == c.fixed_param
            &&& c.fixed_param < -500 ==> r.fixed_param == -500
            &&& c.fixed_param > 500 ==> r.fixed_param == 500
            &&& r.enabled == c.enabled && r.mode == c.mode
            &&& r.use_dynamic_curve == c.use_dynamic_curve
            &&& c.curve.x2 >= c.curve.x1 ==> r.curve == c.curve
            &&& c.curve.x2 < c.curve.x1 ==> r.curve == (RcCurve { x2: c.curve.x1, ..c.curve })
        }),
{
}

/// A fresh axis of doubles has no history in either branch, and one seeded with a reading has it in
/// both; a fresh filter has fresh axes, readings at zero and no coefficients.
pub proof fn fresh_filters_have_no_history(v: Scalar, st: RcStickState)
    ensures
        ({
            let f = UltAxisState::fresh();
            &&& !f.pos_primed && !f.neg_primed
            &&& f.pos.bits == 0 && f.neg.bits == 0 && f.neg_prev.bits == 0
        }),
        ({
            let s = UltAxisState::seeded(v);
            s.pos_primed && s.neg_primed && s.pos == v && s.neg == v && s.neg_prev == v
        }),
        st.fresh() ==> {
            &&& !st.fb@[0].pos_primed && !st.fb@[0].neg_primed
            &&& !st.fb@[1].pos_primed && !st.fb@[1].neg_primed
            &&& !st.ult@[0].pos_primed && !st.ult@[0].neg_primed
            &&& !st.ult@[1].pos_primed && !st.ult@[1].neg_primed
            &&& st.prev_raw12@[0] == 0 && st.prev_raw12@[1] == 0 && st.coeffs is None
        },
{
}

/// Where nothing is configured the filter is off; switched on, it would not depend on the report
/// rate, and have a fixed strength of 100, at which its curve lies flat too, at 4 ms.
pub proof fn untouched_filters_are_off()
    ensures
        ({
            let c = RcConfig::default_spec();
            &&& !c.enabled && c.mode is UltimateDt && !c.use_dynamic_curve
            &&& c.period_us == 4000 && c.fixed_param == 100
            &&& c.curve.y0 == 100 && c.curve.y1 == 100 && c.curve.y2 == 100 && c.curve.y3 == 100
            &&& c.curve.x1 == 32 && c.curve.x2 == 96
            &&& c.clamped_spec() == c
        }),
{
}

/// A seeded filter has each axis at that axis's reading, sixteenfold in the integer histories and as
/// given in the others, in both branches; a report at the same reading is no change; and its
/// coefficients are those of its period.
pub proof fn seeding_reaches_every_history(
    cfg: RcConfig,
    st: RcStickState,
    rx: i32,
    ry: i32,
    seed_x: Scalar,
    seed_y: Scalar,
)
    requires
        is_raw12(rx as int),
        is_raw12(ry as int),
        seeded_at(cfg, st, rx, ry, seed_x, seed_y),
    ensures
        st.fb@[0].pos_primed && st.fb@[0].neg_primed && st.fb@[1].pos_primed && st.fb@[1].neg_primed,
        st.fb@[0].pos_q4 == 16 * rx && st.fb@[0].neg_q4 == 16 * rx && st.fb@[0].neg_prev_q4 == 16
            * rx,
        st.fb@[1].pos_q4 == 16 * ry && st.fb@[1].neg_q4 == 16 * ry && st.fb@[1].neg_prev_q4 == 16
            * ry,
        st.ult@[0].pos == seed_x && st.ult@[0].neg == seed_x && st.ult@[0].neg_prev == seed_x,
        st.ult@[1].pos == seed_y && st.ult@[1].neg == seed_y && st.ult@[1].neg_prev == seed_y,
        largest_change(st, rx as int, ry as int) == 0,
        st.coeffs matches Some(c) && c == PeriodCoeffs::of(cfg.period_us as int),
{
}

} // verus!

//! The order of the stick chain: which stages run on a report, and the state that spans reports.

use vstd::prelude::*;

use crate::rc::RcStickState;
use crate::scalar::{Scalar, ONE_BITS};
use crate::stick::settings::{DeadZoneType, OutputCurve, StickSettings, StickState};

verus! {

/// What the RC filter does on a report.
#[derive(Clone, Copy, Debug, PartialEq, Eq, Structural)]
pub enum RcAction {
    /// Not selected: the stick passes.
    Off,
    /// First report since it was selected: seed the filter, the stick passes.
    Prime,
    /// Advance the filter.
    Process,
}

/// Which of the stages after the RC filter run.
#[derive(Clone, Copy, Debug, PartialEq, Eq, Structural)]
pub struct StagePlan {
    pub rotate: bool,
    pub anti_snapback: bool,
    pub fuzz: bool,
    /// The multiplier runs with the radial dead-zone model only.
    pub sensitivity: bool,
    pub square: bool,
    pub curve: bool,
    pub flick: bool,
}

/// Which stages a configuration runs.
pub open spec fn stage_plan_spec(cfg: StickSettings) -> StagePlan {
    StagePlan {
        rotate: !cfg.rotation.angle_rad.num_eq_spec(Scalar { bits: 0 }),
        anti_snapback: cfg.anti_snapback.enabled,
        fuzz: cfg.dead_zone.fuzz > 0,
        sensitivity: cfg.dead_zone.dead_zone_type == DeadZoneType::Radial
            && !cfg.sensitivity.num_eq_spec(Scalar { bits: ONE_BITS }),
        square: cfg.square.enabled,
        curve: cfg.curve != OutputCurve::Linear,
        flick: cfg.flick.enabled,
    }
}

/// Which stages a configuration runs.
pub fn stage_plan(cfg: &StickSettings) -> (r: StagePlan)
    ensures
        r == stage_plan_spec(*cfg),
{
    StagePlan {
        rotate: !cfg.rotation.angle_rad.num_eq(Scalar { bits: 0 }),
        anti_snapback: cfg.anti_snapback.enabled,
        fuzz: cfg.dead_zone.fuzz > 0,
        sensitivity: cfg.dead_zone.dead_zone_type == DeadZoneType::Radial
            && !cfg.sensitivity.num_eq(Scalar { bits: ONE_BITS }),
        square: cfg.square.enabled,
        curve: cfg.curve != OutputCurve::Linear,
        flick: cfg.flick.enabled,
    }
}

/// A stage of the chain after the RC filter.
#[derive(Clone, Copy, Debug, PartialEq, Eq, Structural)]
pub enum StickStage {
    Rotate,
    AntiSnapback,
    Fuzz,
    DeadZone,
    Sensitivity,
    Square,
    Curve,
}

/// Number of stages.
pub const STAGE_COUNT: usize = 7;

impl StickStage {
    /// The place of a stage in the chain.
    pub open spec fn place(self) -> int {
        match self {
            StickStage::Rotate => 0,
            StickStage::AntiSnapback => 1,
            StickStage::Fuzz => 2,
            StickStage::DeadZone => 3,
            StickStage::Sensitivity => 4,
            StickStage::Square => 5,
            StickStage::Curve => 6,
        }
    }

    /// The stage at a place of the chain.
    pub fn at(place: usize) -> (r: StickStage)
        requires
            place < STAGE_COUNT,
        ensures
            r.place() == place,
    {
        match place {
            0 => StickStage::Rotate,
            1 => StickStage::AntiSnapback,
            2 => StickStage::Fuzz,
            3 => StickStage::DeadZone,
            4 => StickStage::Sensitivity,
            5 => StickStage::Square,
            _ => StickStage::Curve,
        }
    }
}

impl StagePlan {
    /// Whether a stage runs. The dead zone always does: its own settings decide what it changes.
    pub open spec fn runs_spec(self, stage: StickStage) -> bool {
        match stage {
            StickStage::Rotate => self.rotate,
            StickStage::AntiSnapback => self.anti_snapback,
            StickStage::Fuzz => self.fuzz,
            StickStage::DeadZone => true,
            StickStage::Sensitivity => self.sensitivity,
            StickStage::Square => self.square,
            StickStage::Curve => self.curve,
        }
    }

    /// Whether a stage runs.
    pub fn runs(&self, stage: StickStage) -> (r: bool)
        ensures
            r == self.runs_spec(stage),
    {
        match stage {
            StickStage::Rotate => self.rotate,
            StickStage::AntiSnapback => self.anti_snapback,
            StickStage::Fuzz => self.fuzz,
            StickStage::DeadZone => true,
            StickStage::Sensitivity => self.sensitivity,
            StickStage::Square => self.square,
            StickStage::Curve => self.curve,
        }
    }

    /// The stages to run, each once, in the order of the chain.
    pub fn stages(&self) -> (r: Vec<StickStage>)
        ensures
            forall|i: int, j: int|
                0 <= i < j < r@.len() ==> (#[trigger] r@[i]).place() < (#[trigger] r@[j]).place(),
            forall|s: StickStage| #[trigger] r@.contains(s) <==> self.runs_spec(s),
    {
        let mut r: Vec<StickStage> = Vec::new();
        let mut k: usize = 0;
        while k < STAGE_COUNT
            invariant
                k <= STAGE_COUNT,
                forall|i: int| 0 <= i < r@.len() ==> (#[trigger] r@[i]).place() < k,
                forall|i: int, j: int|
                    0 <= i < j < r@.len() ==> (#[trigger] r@[i]).place() < (
                    #[trigger] r@[j]).place(),
                forall|s: StickStage| #[trigger]
                    r@.contains(s) <==> self.runs_spec(s) && s.place() < k,
            decreases STAGE_COUNT - k,
        {
            let stage: StickStage = StickStage::at(k);
            let ghost before: Seq<StickStage> = r@;
            if self.runs(stage) {
                r.push(stage);
            }
            proof {
                assert forall|s: StickStage| #[trigger] r@.contains(s) <==> self.runs_spec(s)
                    && s.place() < k + 1 by {
                    assert(before.contains(s) <==> self.runs_spec(s) && s.place() < k);
                    assert(s.place() == k ==> s == stage);
                    if before.contains(s) {
                        assert(r@[before.index_of(s)] == s);
                    }
                    if s == stage && self.runs_spec(s) {
                        assert(r@[before.len() as int] == s);
                    }
                    if r@.contains(s) && s != stage {
                        assert(before[r@.index_of(s)] == s);
                    }
                }
            }
            k = k + 1;
        }
        r
    }
}

/// `a + b` as a 64-bit clock counts it.
pub open spec fn clock_add(a: i64, b: i64) -> i64 {
    a.wrapping_add(b)
}

/// What the RC filter does on a report.
pub open spec fn rc_action(cfg: StickSettings, primed: bool) -> RcAction {
    if !(cfg.rc_mode_on && cfg.rc.enabled) {
        RcAction::Off
    } else if primed {
        RcAction::Process
    } else {
        RcAction::Prime
    }
}

/// The filter runs exactly where it is both selected and enabled: it is seeded on the first report
/// and advanced from the second one on.
pub proof fn filter_is_seeded_then_advanced(cfg: StickSettings)
    ensures
        rc_action(cfg, false) is Off <==> !cfg.rc_mode_on || !cfg.rc.enabled,
        rc_action(cfg, true) is Off <==> !cfg.rc_mode_on || !cfg.rc.enabled,
        cfg.rc_mode_on && cfg.rc.enabled ==> rc_action(cfg, false) is Prime,
        cfg.rc_mode_on && cfg.rc.enabled ==> rc_action(cfg, true) is Process,
{
}

/// The clock runs on by the time of each report, as far as it can count.
pub proof fn clock_runs_on(a: i64, b: i64)
    ensures
        i64::MIN <= a + b <= i64::MAX ==> clock_add(a, b) == a + b,
        a + b > i64::MAX ==> clock_add(a, b) == a + b - 0x1_0000_0000_0000_0000,
        a + b < i64::MIN ==> clock_add(a, b) == a + b + 0x1_0000_0000_0000_0000,
{
}

/// Whether `after` and `r` are what the beginning of a report leaves and asks for.
pub open spec fn begun(
    cfg: StickSettings,
    before: StickState,
    after: StickState,
    dt_us: i64,
    r: RcAction,
) -> bool {
    &&& after.elapsed_us == clock_add(before.elapsed_us, dt_us)
    &&& r == rc_action(cfg, before.rc_primed)
    &&& after.rc_primed == (r != RcAction::Off)
    &&& r == RcAction::Off && before.rc_primed ==> after.rc.fresh() && after.rc.valid()
    &&& !(r == RcAction::Off && before.rc_primed) ==> after.rc == before.rc
    &&& after.fuzz_last == before.fuzz_last
    &&& after.fuzz_primed == before.fuzz_primed
    &&& after.snap_hist == before.snap_hist
    &&& after.flick_in_progress == before.flick_in_progress
    &&& after.flick_last_angle == before.flick_last_angle
    &&& after.flick_delta == before.flick_delta
}

/// Opens a report: advances the running time by `dt_us` and settles what the RC filter does. A
/// filter that is no longer selected loses its state, so that selecting it again seeds it anew.
pub fn begin_report(st: &mut StickState, cfg: &StickSettings, dt_us: i64) -> (r: RcAction)
    ensures
        begun(*cfg, *old(st), *final(st), dt_us, r),
{
    st.elapsed_us = st.elapsed_us.wrapping_add(dt_us);
    if cfg.rc_mode_on && cfg.rc.enabled {
        if st.rc_primed {
            RcAction::Process
        } else {
            st.rc_primed = true;
            RcAction::Prime
        }
    } else {
        if st.rc_primed {
            st.rc_primed = false;
            st.rc = RcStickState::default();
        }
        RcAction::Off
    }
}

/// How a flick stands: whether one is under way, its last direction, and the turn of the last
/// report.
pub struct Flick {
    pub under_way: bool,
    pub angle: Scalar,
    pub turn: Scalar,
}

/// How a flick stands after a report.
pub open spec fn flicked(
    enabled: bool,
    engaged: bool,
    before: Flick,
    angle: Scalar,
    turn: Scalar,
) -> Flick {
    if !enabled {
        Flick { turn: Scalar { bits: 0 }, ..before }
    } else if engaged {
        Flick {
            under_way: true,
            angle,
            turn: if before.under_way {
                turn
            } else {
                Scalar { bits: 0 }
            },
        }
    } else {
        Flick { under_way: false, turn: Scalar { bits: 0 }, ..before }
    }
}

/// A flick turns from its second report on: pushing the stick starts it and remembers its
/// direction, holding it turns by each change of direction, letting go ends it; switched off, it
/// never turns.
pub proof fn flicks_turn_from_the_second_report(before: Flick, a: Scalar, b: Scalar, ta: Scalar, tb: Scalar)
    ensures
        ({
            let first = flicked(true, true, Flick { under_way: false, ..before }, a, ta);
            let second = flicked(true, true, first, b, tb);
            let gone = flicked(true, false, second, b, tb);
            &&& first.under_way && first.angle == a && first.turn.bits == 0
            &&& second.under_way && second.angle == b && second.turn == tb
            &&& !gone.under_way && gone.angle == b && gone.turn.bits == 0
            &&& flicked(false, true, before, a, ta).turn.bits == 0
            &&& flicked(false, false, before, a, ta).turn.bits == 0
            &&& flicked(false, true, before, a, ta).under_way == before.under_way
        }),
{
}

/// Closes a report: settles the turn that a flick makes. `engaged` tells whether the stick is
/// pushed far enough, `angle` is its direction, and `turn` the change of direction since the last
/// report of the flick, brought to the nearer way round. The first report of a flick makes no
/// turn.
pub fn flick_stash(st: &mut StickState, enabled: bool, engaged: bool, angle: Scalar, turn: Scalar)
    ensures
        (Flick {
            under_way: final(st).flick_in_progress,
            angle: final(st).flick_last_angle,
            turn: final(st).flick_delta,
        }) == flicked(
            enabled,
            engaged,
            Flick {
                under_way: old(st).flick_in_progress,
                angle: old(st).flick_last_angle,
                turn: old(st).flick_delta,
            },
            angle,
            turn,
        ),
        final(st).rc == old(st).rc,
        final(st).rc_primed == old(st).rc_primed,
        final(st).elapsed_us == old(st).elapsed_us,
        final(st).fuzz_last == old(st).fuzz_last,
        final(st).fuzz_primed == old(st).fuzz_primed,
        final(st).snap_hist == old(st).snap_hist,
{
    if !enabled {
        st.flick_delta = Scalar { bits: 0 };
        return;
    }
    if engaged {
        if st.flick_in_progress {
            st.flick_delta = turn;
        } else {
            st.flick_in_progress = true;
            st.flick_delta = Scalar { bits: 0 };
        }
        st.flick_last_angle = angle;
    } else {
        st.flick_in_progress = false;
        st.flick_delta = Scalar { bits: 0 };
    }
}

/// A stage is left out exactly where its setting is the neutral one: no angle, the history or the
/// stretching switched off, no fuzz, a factor of one (which only the radial model multiplies by), a
/// straight curve, no flick. The dead zone is never left out.
pub proof fn stages_follow_their_settings(cfg: StickSettings)
    ensures
        ({
            let p = stage_plan_spec(cfg);
            &&& !p.runs_spec(StickStage::Rotate) <==> cfg.rotation.angle_rad.bits == 0
                || cfg.rotation.angle_rad.bits == 0x8000_0000_0000_0000
            &&& !p.runs_spec(StickStage::AntiSnapback) <==> !cfg.anti_snapback.enabled
            &&& !p.runs_spec(StickStage::Fuzz) <==> cfg.dead_zone.fuzz <= 0
            &&& p.runs_spec(StickStage::DeadZone)
            &&& !p.runs_spec(StickStage::Sensitivity) <==> cfg.dead_zone.dead_zone_type is Axial
                || cfg.sensitivity.bits == 0x3FF0_0000_0000_0000
            &&& !p.runs_spec(StickStage::Square) <==> !cfg.square.enabled
            &&& !p.runs_spec(StickStage::Curve) <==> cfg.curve is Linear
            &&& !p.flick <==> !cfg.flick.enabled
        }),
{
}

/// Every curve but the straight one runs, whatever else is set.
pub proof fn chosen_curves_run(cfg: StickSettings)
    requires
        cfg.curve is EnhancedPrecision || cfg.curve is Quadratic || cfg.curve is Cubic
            || cfg.curve is EaseoutQuad || cfg.curve is EaseoutCubic || cfg.curve is Bezier
            || cfg.curve is ApexClassicInverse || cfg.curve is ApexClassicInverseAxial,
    ensures
        stage_plan_spec(cfg).runs_spec(StickStage::Curve),
{
}

/// The order of the chain: rotation, anti-snapback, fuzz, dead zone, multiplier, square, curve.
pub proof fn chain_is_in_order()
    ensures
        StickStage::Rotate.place() < StickStage::AntiSnapback.place(),
        StickStage::AntiSnapback.place() < StickStage::Fuzz.place(),
        StickStage::Fuzz.place() < StickStage::DeadZone.place(),
        StickStage::DeadZone.place() < StickStage::Sensitivity.place(),
        StickStage::Sensitivity.place() < StickStage::Square.place(),
        StickStage::Square.place() < StickStage::Curve.place(),
{
}

/// The default settings run no stage.
pub proof fn default_runs_no_stage()
    ensures
        stage_plan_spec(StickSettings::default_spec()) == (StagePlan {
            rotate: false,
            anti_snapback: false,
            fuzz: false,
            sensitivity: false,
            square: false,
            curve: false,
            flick: false,
        }),
{
}

/// A stick that nobody has configured runs no stage at all.
pub proof fn untouched_sticks_run_no_stage()
    ensures
        ({
            let p = stage_plan_spec(StickSettings::default_spec());
            !p.rotate && !p.anti_snapback && !p.fuzz && !p.sensitivity && !p.square && !p.curve
                && !p.flick
        }),
{
}

/// A report begins by letting the clock run on. A filter that is switched off forgets what it held,
/// once, and is seeded again when it is switched on; a running one goes on with what it holds.
/// Nothing else of the stick's memory is touched.
pub proof fn switching_the_filter_off_forgets(
    cfg: StickSettings,
    before: StickState,
    after: StickState,
    dt_us: i64,
    r: RcAction,
)
    requires
        begun(cfg, before, after, dt_us, r),
    ensures
        ({
            let on = cfg.rc_mode_on && cfg.rc.enabled;
            &&& on && before.rc_primed ==> r == RcAction::Process
            &&& on && !before.rc_primed ==> r == RcAction::Prime
            &&& !on ==> r == RcAction::Off
            &&& after.rc_primed == on
            &&& on || !before.rc_primed ==> after.rc == before.rc
            &&& !on && before.rc_primed ==> after.rc.fresh()
        }),
        after.elapsed_us == clock_add(before.elapsed_us, dt_us),
        after.fuzz_last == before.fuzz_last && after.fuzz_primed == before.fuzz_primed,
        after.snap_hist == before.snap_hist,
        after.flick_in_progress == before.flick_in_progress,
        after.flick_last_angle == before.flick_last_angle,
        after.flick_delta == before.flick_delta,
{
}

} // verus!

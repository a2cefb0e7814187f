//! The mapping engine: one decoded report in, one pad state and a list of keyboard and mouse
//! steps out.
//!
//! A report is resolved in four passes. Every control is first read as pressed or released. Then
//! each control picks its binding: the second one while its shift trigger reads pressed, which
//! looks at the raw readings only. A stick axis one half of which is bound to something loses its
//! own passage to the pad as a whole. Finally the controls act in table order, each through its
//! rapid-fire cycle if it has one, and latched keys that no control presses any more become ready
//! for their next press.
//!
//! Mouse motion needs arithmetic on doubles, so a moving control leaves a [`KbmStep::Move`] with
//! what the motion is made from; [`finish_batch`] puts the computed motion in its place.

use vstd::prelude::*;

use crate::input::control::{all_is_dense, control_at, Control, ControlKind, CONTROL_COUNT};
use crate::input::state::{ControllerState, TouchContact};
use crate::map::binding::{
    AxisDir, BindTarget, BindingSlot, GamepadAxis, KeyKind, MouseMoveSrc, TurboCfg, WheelDir,
};
use crate::map::profile::{GyroMode, ResolvedProfile};
use crate::mouse_accum::MouseAccumulator;
use crate::output::kbm::{KbmBatch, KbmEvent, KeyKind as InjectKind, MouseButton, KBM_BATCH_CAP};
use crate::output::state::{
    gathering_order, identity_buttons, press_mask, table_head, table_word, OutputState,
    PadButtons,
};
use crate::scalar::{Scalar, NEG_ONE_BITS, ONE_BITS};

verus! {

/// Most keys that a latch tracks.
pub const VK_LATCH_CAP: usize = 16;

/// A switch per key, off until it is set. At most [`VK_LATCH_CAP`] keys are tracked; setting a
/// further key has no effect.
#[derive(Clone, Copy, Debug)]
pub struct VkLatch {
    keys: [u16; 16],
    vals: [bool; 16],
    len: u8,
}

/// A latch after setting a key: the key's switch where the key is tracked or can be, else no
/// change.
pub open spec fn latch_set(m: Map<u16, bool>, vk: u16, on: bool) -> Map<u16, bool> {
    if m.dom().contains(vk) || m.dom().len() < VK_LATCH_CAP {
        m.insert(vk, on)
    } else {
        m
    }
}

/// A key's switch.
pub open spec fn latch_get(m: Map<u16, bool>, vk: u16) -> bool {
    m.dom().contains(vk) && m[vk]
}

impl View for VkLatch {
    type V = Map<u16, bool>;

    closed spec fn view(&self) -> Map<u16, bool> {
        let live = self.keys@.subrange(0, self.len as int);
        Map::new(|k: u16| live.contains(k), |k: u16| self.vals@[live.index_of(k)])
    }
}

impl VkLatch {
    /// Most keys that a latch tracks.
    pub const CAP: usize = 16;

    #[verifier::type_invariant]
    spec fn distinct_keys(self) -> bool {
        &&& self.len <= VK_LATCH_CAP
        &&& self.keys@.subrange(0, self.len as int).no_duplicates()
    }

    /// The tracked keys.
    spec fn live(self) -> Seq<u16> {
        self.keys@.subrange(0, self.len as int)
    }

    /// A tracked key's switch stands at the key's own index.
    proof fn view_at(self, i: int)
        requires
            self.distinct_keys(),
            0 <= i < self.len,
        ensures
            self@.dom().contains(self.keys@[i]),
            self@[self.keys@[i]] == self.vals@[i],
    {
        let live = self.live();
        assert(live[i] == self.keys@[i]);
        assert(live.contains(self.keys@[i]));
        let j = live.index_of(self.keys@[i]);
        assert(live[j] == live[i]);
        assert(i == j);
    }

    /// There are as many tracked keys as entries.
    proof fn view_len(self)
        requires
            self.distinct_keys(),
        ensures
            self@.dom().finite(),
            self@.dom().len() == self.len,
    {
        let live = self.live();
        live.unique_seq_to_set();
        assert(self@.dom() =~= live.to_set());
    }

    /// Nothing tracked.
    pub fn new() -> (r: VkLatch)
        ensures
            r@ == Map::<u16, bool>::empty(),
    {
        let r: VkLatch = VkLatch { keys: [0; 16], vals: [false; 16], len: 0 };
        assert(r@ =~= Map::<u16, bool>::empty());
        r
    }

    /// The entry of a key.
    fn find(&self, vk: u16) -> (r: Option<usize>)
        ensures
            match r {
                Some(i) => i < self.len && self.keys@[i as int] == vk && self@.dom().contains(vk)
                    && self@[vk] == self.vals@[i as int],
                None => !self@.dom().contains(vk),
            },
    {
        proof {
            use_type_invariant(self);
        }
        let n: usize = self.len as usize;
        let mut i: usize = 0;
        while i < n
            invariant
                i <= n,
                n == self.len,
                self.distinct_keys(),
                forall|k: int| 0 <= k < i ==> self.keys@[k] != vk,
            decreases n - i,
        {
            if self.keys[i] == vk {
                proof {
                    self.view_at(i as int);
                }
                return Some(i);
            }
            i = i + 1;
        }
        assert(!self.live().contains(vk)) by {
            if self.live().contains(vk) {
                let j = self.live().index_of(vk);
                assert(self.live()[j] == self.keys@[j]);
            }
        }
        None
    }

    /// A key's switch.
    pub fn get(&self, vk: u16) -> (r: bool)
        ensures
            r == latch_get(self@, vk),
    {
        match self.find(vk) {
            Some(i) => {
                proof {
                    use_type_invariant(self);
                }
                self.vals[i]
            },
            None => false,
        }
    }

    /// Sets a key's switch.
    pub fn set(&mut self, vk: u16, on: bool)
        ensures
            final(self)@ == latch_set(old(self)@, vk, on),
    {
        proof {
            use_type_invariant(&*self);
            self.view_len();
        }
        let ghost before = *self;
        if let Some(i) = self.find(vk) {
            self.vals[i] = on;
            proof {
                let live = self.live();
                assert(live == before.live());
                assert forall|k: u16| #[trigger] self@.dom().contains(k) implies self@[k]
                    == before@.insert(vk, on)[k] by {
                    let j = live.index_of(k);
                    assert(live[j] == k);
                    assert(self.keys@[j] == k);
                    if k == vk {
                        self.view_at(i as int);
                    } else {
                        assert(j != i);
                        self.view_at(j);
                        before.view_at(j);
                    }
                }
                assert(self@ =~= before@.insert(vk, on));
            }
            return;
        }
        let n: usize = self.len as usize;
        if n < VK_LATCH_CAP {
            let mut keys: [u16; 16] = self.keys;
            let mut vals: [bool; 16] = self.vals;
            keys[n] = vk;
            vals[n] = on;
            proof {
                let live = keys@.subrange(0, n + 1);
                assert(live =~= before.live().push(vk));
                assert(live.no_duplicates()) by {
                    assert forall|a: int, b: int|
                        0 <= a < live.len() && 0 <= b < live.len() && a != b implies live[a]
                        != live[b] by {
                        if a < n {
                            assert(live[a] == before.live()[a]);
                            assert(before.live().contains(live[a]));
                        }
                        if b < n {
                            assert(live[b] == before.live()[b]);
                            assert(before.live().contains(live[b]));
                        }
                    }
                }
            }
            *self = VkLatch { keys, vals, len: (n + 1) as u8 };
            proof {
                let live = self.live();
                assert(live =~= before.live().push(vk));
                assert forall|k: u16| self@.dom().contains(k) == before@.insert(
                    vk,
                    on,
                ).dom().contains(k) by {
                    if before.live().contains(k) {
                        let j = before.live().index_of(k);
                        assert(live[j] == k);
                    }
                    if live.contains(k) && k != vk {
                        let j = live.index_of(k);
                        assert(live[j] == k);
                        assert(before.live()[j] == k);
                    }
                    assert(live[n as int] == vk);
                }
                assert forall|k: u16| #[trigger] self@.dom().contains(k) implies self@[k]
                    == before@.insert(vk, on)[k] by {
                    let j = live.index_of(k);
                    assert(live[j] == k);
                    assert(self.keys@[j] == k);
                    self.view_at(j);
                    if j < n {
                        assert(before.live()[j] == k);
                        assert(before.keys@[j] == k);
                        before.view_at(j);
                        assert(before.live().contains(k));
                    }
                }
                assert(self@ =~= before@.insert(vk, on));
            }
        }
    }

    /// Turns a key's switch over and returns its new position. A key that cannot be tracked reads
    /// off before every turn.
    pub fn toggle(&mut self, vk: u16) -> (r: bool)
        ensures
            r == !latch_get(old(self)@, vk),
            final(self)@ == latch_set(old(self)@, vk, r),
    {
        let turned: bool = !self.get(vk);
        self.set(vk, turned);
        turned
    }
}

impl Default for VkLatch {
    fn default() -> (r: VkLatch)
        ensures
            r@ == Map::<u16, bool>::empty(),
    {
        VkLatch::new()
    }
}

/// A set switch reads back while its key can be tracked, and no other key's switch moves.
pub proof fn latch_reads_back(m: Map<u16, bool>, vk: u16, other: u16, on: bool)
    ensures
        m.dom().contains(vk) || m.dom().len() < VK_LATCH_CAP ==> latch_get(
            latch_set(m, vk, on),
            vk,
        ) == on,
        vk != other ==> latch_get(latch_set(m, vk, on), other) == latch_get(m, other),
{
}

/// The rapid-fire cycle of one control.
#[derive(Clone, Copy, Debug, PartialEq, Eq, Structural)]
pub struct TurboState {
    /// Whether the control was pressed on the last report.
    pub was_active: bool,
    /// When it was pressed.
    pub cycle_start_us: u64,
}

impl Default for TurboState {
    fn default() -> (r: TurboState)
        ensures
            r == (TurboState { was_active: false, cycle_start_us: 0 }),
    {
        TurboState { was_active: false, cycle_start_us: 0 }
    }
}

/// Rapid fire: the cycle starts when the control is pressed, and the control counts as on while
/// the elapsed part of the cycle is less than the duty fraction of it.
pub open spec fn turbo_spec(ts: TurboState, src_on: bool, t: TurboCfg, now_us: u64) -> (
    TurboState,
    bool,
) {
    if !src_on {
        (TurboState { was_active: false, ..ts }, false)
    } else {
        let start = if ts.was_active {
            ts.cycle_start_us
        } else {
            now_us
        };
        let period: int = if t.period_us == 0 {
            1
        } else {
            t.period_us as int
        };
        let phase = now_us.wrapping_sub(start) as int % period;
        (
            TurboState { was_active: true, cycle_start_us: start },
            phase * t.duty_den < period * t.duty_num,
        )
    }
}

/// Advances a rapid-fire cycle and returns whether the control counts as on.
pub fn turbo_gate(ts: &mut TurboState, src_on: bool, t: TurboCfg, now_us: u64) -> (r: bool)
    ensures
        (*final(ts), r) == turbo_spec(*old(ts), src_on, t, now_us),
{
    if !src_on {
        ts.was_active = false;
        return false;
    }
    if !ts.was_active {
        ts.cycle_start_us = now_us;
        ts.was_active = true;
    }
    let period: u64 = if t.period_us == 0 {
        1
    } else {
        t.period_us as u64
    };
    let phase: u64 = now_us.wrapping_sub(ts.cycle_start_us) % period;
    proof {
        assert(phase * t.duty_den <= 0xFFFF_FFFF * 0xFFFF) by (nonlinear_arith)
            requires
                0 <= phase <= 0xFFFF_FFFF,
                0 <= t.duty_den <= 0xFFFF,
        ;
        assert(period * t.duty_num <= 0xFFFF_FFFF * 0xFFFF) by (nonlinear_arith)
            requires
                0 <= period <= 0xFFFF_FFFF,
                0 <= t.duty_num <= 0xFFFF,
        ;
    }
    phase * (t.duty_den as u64) < period * (t.duty_num as u64)
}

/// A fresh press counts as on at once, unless the duty fraction is zero.
pub proof fn fresh_press_fires(ts: TurboState, t: TurboCfg, now_us: u64)
    requires
        !ts.was_active,
    ensures
        turbo_spec(ts, true, t, now_us).1 == (t.duty_num > 0),
{
    let period: int = if t.period_us == 0 {
        1
    } else {
        t.period_us as int
    };
    assert(0int % period == 0) by {
        vstd::arithmetic::div_mod::lemma_small_mod(0nat, period as nat);
    }
    assert(0 * t.duty_den == 0);
    assert(period * t.duty_num > 0 <==> t.duty_num > 0) by (nonlinear_arith)
        requires
            period > 0,
            t.duty_num >= 0,
    ;
}

/// The cycle repeats: one period later a held control counts as on exactly as now.
pub proof fn turbo_repeats(ts: TurboState, t: TurboCfg, now_us: u64)
    requires
        ts.was_active,
        ts.cycle_start_us <= now_us,
        t.period_us > 0,
        now_us + t.period_us <= u64::MAX,
    ensures
        turbo_spec(ts, true, t, (now_us + t.period_us) as u64).1 == turbo_spec(
            ts,
            true,
            t,
            now_us,
        ).1,
{
    vstd::arithmetic::div_mod::lemma_mod_add_multiples_vanish(
        now_us - ts.cycle_start_us,
        t.period_us as int,
    );
}

/// Parts that a notch of the wheel is counted in.
pub const NOTCH: u16 = 15_300;

/// How far a control turns the wheel on one report, in parts of a notch: a third of a notch at
/// full travel, less in proportion short of it, and a sixtieth at least.
pub open spec fn wheel_rate(travel: int) -> int {
    255 + 19 * travel
}

/// What the engine remembers between reports.
#[derive(Clone, Copy, Debug)]
pub struct MapState {
    /// Rapid-fire cycles, in table order.
    pub turbo: [TurboState; 47],
    /// Which controls counted as on, in table order.
    pub prev_active: [bool; 47],
    /// The first finger of the last report.
    pub prev_touch: TouchContact,
    /// Wheel motion short of a notch, in parts of [`NOTCH`].
    pub wheel_remainder: u16,
    /// Which keys are latched down.
    pub toggle: VkLatch,
    /// Which keys have answered the current press.
    pub pressed_once: VkLatch,
    /// When the last report came; 0 before the first one.
    pub prev_now_us: u64,
    /// What motion from a stick has left over.
    pub stick_mouse: MouseAccumulator,
    /// What motion from the gyro has left over.
    pub gyro_mouse: MouseAccumulator,
    /// What motion from the touchpad has left over.
    pub touch_mouse: MouseAccumulator,
}

impl MapState {
    /// Whether the wheel motion is short of a notch.
    pub open spec fn valid(self) -> bool {
        self.wheel_remainder < NOTCH
    }

    /// Whether nothing has happened yet.
    pub open spec fn clean(self) -> bool {
        &&& forall|i: int|
            0 <= i < CONTROL_COUNT ==> #[trigger] self.turbo@[i] == (TurboState {
                was_active: false,
                cycle_start_us: 0,
            })
        &&& forall|i: int| 0 <= i < CONTROL_COUNT ==> !(#[trigger] self.prev_active@[i])
        &&& self.prev_touch == TouchContact::none_spec()
        &&& self.wheel_remainder == 0
        &&& self.toggle@ == Map::<u16, bool>::empty()
        &&& self.pressed_once@ == Map::<u16, bool>::empty()
        &&& self.prev_now_us == 0
        &&& self.stick_mouse.horizontal() == 0 && self.stick_mouse.vertical() == 0
        &&& self.gyro_mouse.horizontal() == 0 && self.gyro_mouse.vertical() == 0
        &&& self.touch_mouse.horizontal() == 0 && self.touch_mouse.vertical() == 0
    }
}

impl Default for MapState {
    fn default() -> (r: MapState)
        ensures
            r.clean(),
            r.valid(),
    {
        MapState {
            turbo: [TurboState { was_active: false, cycle_start_us: 0 };47],
            prev_active: [false;47],
            prev_touch: TouchContact::default(),
            wheel_remainder: 0,
            toggle: VkLatch::new(),
            pressed_once: VkLatch::new(),
            prev_now_us: 0,
            stick_mouse: MouseAccumulator::new(),
            gyro_mouse: MouseAccumulator::new(),
            touch_mouse: MouseAccumulator::new(),
        }
    }
}

/// What a mouse motion is made from.
#[derive(Clone, Copy, Debug, PartialEq, Eq, Structural)]
pub enum MoveInput {
    /// A stick's position.
    Stick { x: Scalar, y: Scalar },
    /// Rotation rates: sideways and vertical.
    Gyro { x: Scalar, z: Scalar },
    /// The first finger on the last report and on this one.
    Touch { prev: TouchContact, cur: TouchContact },
}

/// One step of a report's keyboard and mouse output.
#[derive(Clone, Copy, Debug, PartialEq, Eq, Structural)]
pub enum KbmStep {
    /// A finished event.
    Event(KbmEvent),
    /// A mouse motion still to be computed.
    Move(MoveInput),
}

/// The keyboard and mouse output of a report.
#[derive(Debug)]
pub struct KbmPlan {
    /// Time since the last report in microseconds, 0 on the first one.
    pub elapsed_us: u64,
    /// The steps, in the order in which they take effect.
    pub steps: Vec<KbmStep>,
}

/// A control's binding: the second one while the shift trigger reads pressed.
pub open spec fn chosen_bind(slot: BindingSlot, raw: Seq<bool>) -> BindTarget {
    match slot.shift_trigger {
        Some(t) => if raw[t.control.index()] {
            slot.shift_bind
        } else {
            slot.bind
        },
        None => slot.bind,
    }
}

/// A control's binding under the raw readings.
pub fn effective_bind(slot: &BindingSlot, active_raw: &[bool; 47]) -> (r: BindTarget)
    ensures
        r == chosen_bind(*slot, active_raw@),
{
    match slot.shift_trigger {
        Some(trig) => if active_raw[trig.control.as_index()] {
            slot.shift_bind
        } else {
            slot.bind
        },
        None => slot.bind,
    }
}

/// The pad button that a control passes through to, if it has one.
pub open spec fn own_bit(c: Control) -> Option<u32> {
    match c {
        Control::Cross => Some(PadButtons::A),
        Control::Circle => Some(PadButtons::B),
        Control::Square => Some(PadButtons::X),
        Control::Triangle => Some(PadButtons::Y),
        Control::L1 => Some(PadButtons::LB),
        Control::R1 => Some(PadButtons::RB),
        Control::Share => Some(PadButtons::BACK),
        Control::Options => Some(PadButtons::START),
        Control::Ps => Some(PadButtons::GUIDE),
        Control::L3 => Some(PadButtons::LS),
        Control::R3 => Some(PadButtons::RS),
        Control::DpadUp => Some(PadButtons::DPAD_UP),
        Control::DpadDown => Some(PadButtons::DPAD_DOWN),
        Control::DpadLeft => Some(PadButtons::DPAD_LEFT),
        Control::DpadRight => Some(PadButtons::DPAD_RIGHT),
        Control::L2FullPull => Some(PadButtons::L2_CLICK),
        Control::R2FullPull => Some(PadButtons::R2_CLICK),
        Control::TouchButton => Some(PadButtons::TOUCHPAD),
        _ => None,
    }
}

/// The pad button that a control passes through to, if it has one.
pub fn button_pad_bit(c: Control) -> (r: Option<u32>)
    ensures
        r == own_bit(c),
{
    match c {
        Control::Cross => Some(PadButtons::A),
        Control::Circle => Some(PadButtons::B),
        Control::Square => Some(PadButtons::X),
        Control::Triangle => Some(PadButtons::Y),
        Control::L1 => Some(PadButtons::LB),
        Control::R1 => Some(PadButtons::RB),
        Control::Share => Some(PadButtons::BACK),
        Control::Options => Some(PadButtons::START),
        Control::Ps => Some(PadButtons::GUIDE),
        Control::L3 => Some(PadButtons::LS),
        Control::R3 => Some(PadButtons::RS),
        Control::DpadUp => Some(PadButtons::DPAD_UP),
        Control::DpadDown => Some(PadButtons::DPAD_DOWN),
        Control::DpadLeft => Some(PadButtons::DPAD_LEFT),
        Control::DpadRight => Some(PadButtons::DPAD_RIGHT),
        Control::L2FullPull => Some(PadButtons::L2_CLICK),
        Control::R2FullPull => Some(PadButtons::R2_CLICK),
        Control::TouchButton => Some(PadButtons::TOUCHPAD),
        _ => None,
    }
}

/// A pad axis.
#[derive(Clone, Copy, Debug, PartialEq, Eq, Structural)]
pub enum PadAxis {
    Lx,
    Ly,
    Rx,
    Ry,
    Lt,
    Rt,
}

/// Everything that the outcome of a report depends on.
pub struct Report {
    pub state: ControllerState,
    pub profile: ResolvedProfile,
    pub memory: MapState,
    pub now_us: u64,
}

/// What the key, wheel and motion bindings have done so far: the two latches, the wheel motion in
/// parts of a notch, and the steps.
pub struct Progress {
    pub toggle: Map<u16, bool>,
    pub pressed_once: Map<u16, bool>,
    pub wheel: int,
    pub steps: Seq<KbmStep>,
}

impl Progress {
    /// The same with one more event.
    pub open spec fn with(self, e: KbmEvent) -> Progress {
        Progress { steps: self.steps.push(KbmStep::Event(e)), ..self }
    }

    /// A key bound to a control that counts as `on` now and `before` on the last report. A held
    /// key follows the control's edges. A latched key turns over on the first report of a press;
    /// the answer to a press is remembered per key, so controls that share a key share its latch,
    /// and a press lasts as long as one of them is on. A control that is off has its key tracked
    /// all the same.
    pub open spec fn key(self, vk: u16, kind: KeyKind, on: bool, before: bool) -> Progress {
        let how = if kind.scan_code {
            InjectKind::ScanCode
        } else {
            InjectKind::Virtual
        };
        if kind.toggle {
            if on && !latch_get(self.pressed_once, vk) {
                let down = !latch_get(self.toggle, vk);
                (Progress {
                    toggle: latch_set(self.toggle, vk, down),
                    pressed_once: latch_set(self.pressed_once, vk, true),
                    ..self
                }).with(KbmEvent::Key { vk, down, kind: how })
            } else if !on {
                Progress {
                    pressed_once: latch_set(
                        self.pressed_once,
                        vk,
                        latch_get(self.pressed_once, vk),
                    ),
                    ..self
                }
            } else {
                self
            }
        } else if on != before {
            self.with(KbmEvent::Key { vk, down: on, kind: how })
        } else {
            self
        }
    }

    /// The end of a press of a latched key: the next one counts as new.
    pub open spec fn let_go(self, vk: u16) -> Progress {
        Progress { pressed_once: latch_set(self.pressed_once, vk, false), ..self }
    }

    /// A wheel bound to a control: each report of a press turns it as far as the control is pushed,
    /// a whole notch is handed on, and letting go drops what is short of one.
    pub open spec fn wheel(self, dir: WheelDir, on: bool, before: bool, travel: int) -> Progress {
        if !on {
            if before {
                Progress { wheel: 0, ..self }
            } else {
                self
            }
        } else if self.wheel + wheel_rate(travel) < NOTCH {
            Progress { wheel: self.wheel + wheel_rate(travel), ..self }
        } else {
            let rest = Progress { wheel: self.wheel + wheel_rate(travel) - NOTCH, ..self };
            match dir {
                WheelDir::Up => rest.with(KbmEvent::Wheel { vertical: 120, horizontal: 0 }),
                WheelDir::Down => rest.with(
                    KbmEvent::Wheel { vertical: (-120) as i32, horizontal: 0 },
                ),
                WheelDir::Right => rest.with(KbmEvent::Wheel { vertical: 0, horizontal: 120 }),
                WheelDir::Left => rest.with(
                    KbmEvent::Wheel { vertical: 0, horizontal: (-120) as i32 },
                ),
                WheelDir::Unknown => rest,
            }
        }
    }
}

impl Report {
    /// How every control reads, in table order.
    pub open spec fn raw(self) -> Seq<bool> {
        Seq::new(
            CONTROL_COUNT as nat,
            |i: int| self.state.pressed_spec(control_at(i), self.profile.thresholds),
        )
    }

    /// The binding that a control has on this report.
    pub open spec fn bind(self, c: Control) -> BindTarget {
        chosen_bind(self.profile.slot_spec(c), self.raw())
    }

    /// Whether a control counts as on: as it reads, through its rapid-fire cycle if it has one.
    pub open spec fn on(self, c: Control) -> bool {
        match self.profile.slot_spec(c).turbo {
            Some(t) => turbo_spec(
                self.memory.turbo@[c.index()],
                self.raw()[c.index()],
                t,
                self.now_us,
            ).1,
            None => self.raw()[c.index()],
        }
    }

    /// Whether a control counted as on before.
    pub open spec fn before(self, c: Control) -> bool {
        self.memory.prev_active@[c.index()]
    }

    /// Whether one of the two halves of a stick axis is bound to something, which keeps the whole
    /// axis from passing through.
    pub open spec fn taken(self, axis: int) -> bool {
        self.bind(control_at(2 * axis + 1)).suppresses() || self.bind(
            control_at(2 * axis + 2),
        ).suppresses()
    }

    /// What a control writes to a pad axis: a stick axis or a trigger that passes through, or a
    /// push to one end.
    pub open spec fn axis_write(self, c: Control, axis: PadAxis) -> Option<Scalar> {
        match self.bind(c) {
            BindTarget::Passthrough => match axis {
                PadAxis::Lx => if c.stick_axis_spec() == Some(0usize) && !self.taken(0) {
                    Some(self.state.lx)
                } else {
                    None
                },
                PadAxis::Ly => if c.stick_axis_spec() == Some(1usize) && !self.taken(1) {
                    Some(self.state.ly)
                } else {
                    None
                },
                PadAxis::Rx => if c.stick_axis_spec() == Some(2usize) && !self.taken(2) {
                    Some(self.state.rx)
                } else {
                    None
                },
                PadAxis::Ry => if c.stick_axis_spec() == Some(3usize) && !self.taken(3) {
                    Some(self.state.ry)
                } else {
                    None
                },
                PadAxis::Lt => if c == Control::L2 {
                    Some(self.state.l2)
                } else {
                    None
                },
                PadAxis::Rt => if c == Control::R2 {
                    Some(self.state.r2)
                } else {
                    None
                },
            },
            BindTarget::GamepadAxis { axis: target, dir, full: _ } => {
                let end = if dir == AxisDir::Pos {
                    Scalar { bits: ONE_BITS }
                } else {
                    Scalar { bits: NEG_ONE_BITS }
                };
                if !self.on(c) {
                    None
                } else {
                    match (axis, target) {
                        (PadAxis::Lx, GamepadAxis::Lx) => Some(end),
                        (PadAxis::Ly, GamepadAxis::Ly) => Some(end),
                        (PadAxis::Rx, GamepadAxis::Rx) => Some(end),
                        (PadAxis::Ry, GamepadAxis::Ry) => Some(end),
                        (PadAxis::Lt, GamepadAxis::Lt) => Some(Scalar { bits: ONE_BITS }),
                        (PadAxis::Rt, GamepadAxis::Rt) => Some(Scalar { bits: ONE_BITS }),
                        _ => None,
                    }
                }
            },
            _ => None,
        }
    }

    /// A pad axis after the first `n` controls: what the last of them wrote that wrote to it, and
    /// rest where none did.
    pub open spec fn axis_after(self, axis: PadAxis, n: int) -> Scalar
        decreases n,
    {
        if n <= 0 {
            Scalar { bits: 0 }
        } else {
            match self.axis_write(control_at(n - 1), axis) {
                Some(v) => v,
                None => self.axis_after(axis, n - 1),
            }
        }
    }

    /// The pad button that a control passes through to on this report: its own one, but a full pull
    /// clicks only where its trigger passes through as well.
    pub open spec fn passing_bit(self, c: Control) -> Option<u32> {
        match c {
            Control::L2FullPull => if self.bind(Control::L2).suppresses() {
                None
            } else {
                own_bit(c)
            },
            Control::R2FullPull => if self.bind(Control::R2).suppresses() {
                None
            } else {
                own_bit(c)
            },
            _ => own_bit(c),
        }
    }

    /// The pad buttons that a control presses.
    pub open spec fn button_mask(self, c: Control) -> u32 {
        if !self.on(c) {
            0
        } else {
            match self.bind(c) {
                BindTarget::Passthrough => match self.passing_bit(c) {
                    Some(bit) => bit,
                    None => 0,
                },
                BindTarget::GamepadButton(b) => b.bit_spec(),
                BindTarget::TouchpadClick => PadButtons::TOUCHPAD,
                _ => 0,
            }
        }
    }

    /// The pad buttons that the first `n` controls press.
    pub open spec fn buttons_after(self, n: int) -> u32
        decreases n,
    {
        if n <= 0 {
            0
        } else {
            self.buttons_after(n - 1) | self.button_mask(control_at(n - 1))
        }
    }

    /// Whether a control is bound to motion from the gyro.
    pub open spec fn turns_gyro(self, c: Control) -> bool {
        self.bind(c) == BindTarget::MouseMove(MouseMoveSrc::Gyro)
    }

    /// Whether a control moves the mouse by the gyro although it is off. In the mode that runs on
    /// every report, the first control bound to the gyro does so where none of them is on.
    pub open spec fn stands_in(self, c: Control) -> bool {
        &&& self.profile.gyro.mode == GyroMode::AlwaysOn
        &&& self.turns_gyro(c)
        &&& forall|d: Control| #[trigger] self.turns_gyro(d) ==> !self.on(d) && c.index() <= d.index()
    }

    /// What the source of a mouse motion gives to a control, if it moves the mouse on this report.
    /// A source moves the mouse while the control is on; the gyro does so as its mode says.
    pub open spec fn motion(self, src: MouseMoveSrc, c: Control) -> Option<MoveInput> {
        let on = self.on(c);
        match src {
            MouseMoveSrc::LeftStick => if on {
                Some(MoveInput::Stick { x: self.state.lx, y: self.state.ly })
            } else {
                None
            },
            MouseMoveSrc::RightStick => if on {
                Some(MoveInput::Stick { x: self.state.rx, y: self.state.ry })
            } else {
                None
            },
            MouseMoveSrc::Gyro => if (on && self.profile.gyro.mode.active(on)) || self.stands_in(c) {
                Some(
                    MoveInput::Gyro {
                        x: if self.profile.gyro.swap_yaw_roll {
                            self.state.motion.gyro_roll
                        } else {
                            self.state.motion.gyro_yaw
                        },
                        z: self.state.motion.gyro_pitch.negated(),
                    },
                )
            } else {
                None
            },
            MouseMoveSrc::Touchpad => if on && self.profile.touchpad.as_mouse {
                Some(
                    MoveInput::Touch { prev: self.memory.prev_touch, cur: self.state.touch@[0] },
                )
            } else {
                None
            },
            MouseMoveSrc::Unknown => None,
        }
    }

    /// What a control adds to the progress of a report.
    pub open spec fn act(self, p: Progress, c: Control) -> Progress {
        let on = self.on(c);
        let before = self.before(c);
        match self.bind(c) {
            BindTarget::Key { vk, kind } => p.key(vk, kind, on, before),
            BindTarget::Mouse(btn) => if on != before {
                p.with(KbmEvent::MouseButton { btn, down: on })
            } else {
                p
            },
            BindTarget::MouseMove(src) => match self.motion(src, c) {
                Some(m) => Progress { steps: p.steps.push(KbmStep::Move(m)), ..p },
                None => p,
            },
            BindTarget::MouseWheel(dir) => p.wheel(
                dir,
                on,
                before,
                self.state.travel_spec(c),
            ),
            BindTarget::Macro(id) => if on != before {
                p.with(KbmEvent::Macro { id, start: on })
            } else {
                p
            },
            BindTarget::Special(id) => if on && !before {
                p.with(KbmEvent::Special { id })
            } else {
                p
            },
            _ => p,
        }
    }

    /// The progress of a report after the first `n` controls.
    pub open spec fn progress(self, n: int) -> Progress
        decreases n,
    {
        if n <= 0 {
            Progress {
                toggle: self.memory.toggle@,
                pressed_once: self.memory.pressed_once@,
                wheel: self.memory.wheel_remainder as int,
                steps: Seq::<KbmStep>::empty(),
            }
        } else {
            self.act(self.progress(n - 1), control_at(n - 1))
        }
    }

    /// Whether a control latches a key on this report.
    pub open spec fn latches(self, c: Control, vk: u16) -> bool {
        self.bind(c) matches BindTarget::Key { vk: bound, kind } && bound == vk && kind.toggle
    }

    /// Whether a latched key is pressed: some control that latches it is on.
    pub open spec fn holds(self, vk: u16) -> bool {
        exists|c: Control| #[trigger] self.latches(c, vk) && self.on(c)
    }

    /// Which keys have answered their press, once the first `n` controls have let go of theirs: a
    /// key that is bound but not pressed answers the next press anew.
    pub open spec fn settled(self, n: int) -> Map<u16, bool>
        decreases n,
    {
        if n <= 0 {
            self.progress(CONTROL_COUNT as int).pressed_once
        } else {
            match self.bind(control_at(n - 1)) {
                BindTarget::Key { vk, kind } => if kind.toggle && !self.holds(vk) {
                    latch_set(self.settled(n - 1), vk, false)
                } else {
                    self.settled(n - 1)
                },
                _ => self.settled(n - 1),
            }
        }
    }

    /// Which keys have answered their press after this report.
    pub open spec fn marks_after(self) -> Map<u16, bool> {
        self.settled(CONTROL_COUNT as int)
    }

    /// The rapid-fire cycle of a control after this report.
    pub open spec fn turbo_after(self, c: Control) -> TurboState {
        match self.profile.slot_spec(c).turbo {
            Some(t) => turbo_spec(
                self.memory.turbo@[c.index()],
                self.raw()[c.index()],
                t,
                self.now_us,
            ).0,
            None => self.memory.turbo@[c.index()],
        }
    }

    /// The pad state that this report gives.
    pub open spec fn output(self) -> OutputState {
        let n = CONTROL_COUNT as int;
        OutputState {
            lx: self.axis_after(PadAxis::Lx, n),
            ly: self.axis_after(PadAxis::Ly, n),
            rx: self.axis_after(PadAxis::Rx, n),
            ry: self.axis_after(PadAxis::Ry, n),
            lt: self.axis_after(PadAxis::Lt, n),
            rt: self.axis_after(PadAxis::Rt, n),
            buttons: PadButtons(self.buttons_after(n)),
        }
    }

    /// The steps that this report gives.
    pub open spec fn steps(self) -> Seq<KbmStep> {
        self.progress(CONTROL_COUNT as int).steps
    }

    /// The time since the last report; 0 on the first one and where the clock went back.
    pub open spec fn elapsed(self) -> int {
        if self.memory.prev_now_us == 0 || self.now_us <= self.memory.prev_now_us {
            0
        } else {
            self.now_us - self.memory.prev_now_us
        }
    }

    /// Whether `next` is what the engine remembers after this report.
    pub open spec fn remembered_as(self, next: MapState) -> bool {
        let done = self.progress(CONTROL_COUNT as int);
        &&& forall|c: Control| #[trigger] next.turbo@[c.index()] == self.turbo_after(c)
        &&& forall|c: Control| #[trigger] next.prev_active@[c.index()] == self.on(c)
        &&& next.prev_touch == self.state.touch@[0]
        &&& next.wheel_remainder == done.wheel
        &&& next.toggle@ == done.toggle
        &&& next.pressed_once@ == self.marks_after()
        &&& next.prev_now_us == self.now_us
        &&& next.stick_mouse == self.memory.stick_mouse
        &&& next.gyro_mouse == self.memory.gyro_mouse
        &&& next.touch_mouse == self.memory.touch_mouse
    }
}

/// A word with no further bits is the word.
proof fn or_nothing(w: u32)
    ensures
        w | 0 == w,
{
    assert(w | 0 == w) by (bit_vector);
}

/// Lets a control reach the pad as itself: a stick axis none of whose halves is bound, an analog
/// trigger, or a pressed button, a full pull being the click of its trigger unless that is bound.
fn resolve_passthrough(
    out: &mut OutputState,
    state: &ControllerState,
    c: Control,
    on: bool,
    axis_remapped: &[bool; 4],
    trigger_remapped: &[bool; 2],
)
    ensures
        final(out).lx == (if c.stick_axis_spec() == Some(0usize) && !axis_remapped@[0] {
            state.lx
        } else {
            old(out).lx
        }),
        final(out).ly == (if c.stick_axis_spec() == Some(1usize) && !axis_remapped@[1] {
            state.ly
        } else {
            old(out).ly
        }),
        final(out).rx == (if c.stick_axis_spec() == Some(2usize) && !axis_remapped@[2] {
            state.rx
        } else {
            old(out).rx
        }),
        final(out).ry == (if c.stick_axis_spec() == Some(3usize) && !axis_remapped@[3] {
            state.ry
        } else {
            old(out).ry
        }),
        final(out).lt == (if c == Control::L2 {
            state.l2
        } else {
            old(out).lt
        }),
        final(out).rt == (if c == Control::R2 {
            state.r2
        } else {
            old(out).rt
        }),
        final(out).buttons.0 == old(out).buttons.0 | (if on && !(c == Control::L2FullPull
            && trigger_remapped@[0]) && !(c == Control::R2FullPull && trigger_remapped@[1]) {
            match own_bit(c) {
                Some(bit) => bit,
                None => 0,
            }
        } else {
            0
        }),
{
    proof {
        or_nothing(out.buttons.0);
    }
    match c.kind() {
        ControlKind::AxisDir => {
            if let Some(axis) = c.stick_axis() {
                if !axis_remapped[axis] {
                    passthrough_axis(out, state, axis);
                }
            }
        },
        ControlKind::Trigger => {
            let v: Scalar = state.analog(c);
            match c {
                Control::L2 => {
                    out.lt = v;
                },
                Control::R2 => {
                    out.rt = v;
                },
                _ => {
                    let silenced: bool = match c {
                        Control::L2FullPull => trigger_remapped[0],
                        Control::R2FullPull => trigger_remapped[1],
                        _ => false,
                    };
                    if on && !silenced {
                        if let Some(bit) = button_pad_bit(c) {
                            out.buttons.set(bit, true);
                        }
                    }
                },
            }
        },
        ControlKind::Button | ControlKind::Touch | ControlKind::GyroDir => {
            if on {
                if let Some(bit) = button_pad_bit(c) {
                    out.buttons.set(bit, true);
                }
            }
        },
    }
}

/// Copies one stick axis to the pad.
fn passthrough_axis(out: &mut OutputState, state: &ControllerState, axis: usize)
    requires
        axis < 4,
    ensures
        *final(out) == (if axis == 0 {
            OutputState { lx: state.lx, ..*old(out) }
        } else if axis == 1 {
            OutputState { ly: state.ly, ..*old(out) }
        } else if axis == 2 {
            OutputState { rx: state.rx, ..*old(out) }
        } else {
            OutputState { ry: state.ry, ..*old(out) }
        }),
{
    if axis == 0 {
        out.lx = state.lx;
    } else if axis == 1 {
        out.ly = state.ly;
    } else if axis == 2 {
        out.rx = state.rx;
    } else {
        out.ry = state.ry;
    }
}

/// Pushes a pad axis to one end while the control is on. Triggers have one end only, and a
/// digital push is always a full one, whatever `full` says.
fn resolve_gamepad_axis(out: &mut OutputState, axis: GamepadAxis, dir: AxisDir, full: bool, on: bool)
    ensures
        ({
            let end = if dir == AxisDir::Pos {
                Scalar { bits: ONE_BITS }
            } else {
                Scalar { bits: NEG_ONE_BITS }
            };
            *final(out) == (if !on {
                *old(out)
            } else {
                match axis {
                    GamepadAxis::Lx => OutputState { lx: end, ..*old(out) },
                    GamepadAxis::Ly => OutputState { ly: end, ..*old(out) },
                    GamepadAxis::Rx => OutputState { rx: end, ..*old(out) },
                    GamepadAxis::Ry => OutputState { ry: end, ..*old(out) },
                    GamepadAxis::Lt => OutputState { lt: Scalar { bits: ONE_BITS }, ..*old(out) },
                    GamepadAxis::Rt => OutputState { rt: Scalar { bits: ONE_BITS }, ..*old(out) },
                    GamepadAxis::Unknown => *old(out),
                }
            })
        }),
{
    if !on {
        return;
    }
    let end: Scalar = match dir {
        AxisDir::Pos => Scalar { bits: ONE_BITS },
        AxisDir::Neg => Scalar { bits: NEG_ONE_BITS },
    };
    match axis {
        GamepadAxis::Lx => {
            out.lx = end;
        },
        GamepadAxis::Ly => {
            out.ly = end;
        },
        GamepadAxis::Rx => {
            out.rx = end;
        },
        GamepadAxis::Ry => {
            out.ry = end;
        },
        GamepadAxis::Lt => {
            out.lt = Scalar { bits: ONE_BITS };
        },
        GamepadAxis::Rt => {
            out.rt = Scalar { bits: ONE_BITS };
        },
        GamepadAxis::Unknown => {},
    }
}

/// The running part of a report: the two latches, the wheel motion and the steps so far.
struct Run {
    toggle: VkLatch,
    pressed_once: VkLatch,
    wheel: u16,
    steps: Vec<KbmStep>,
}

impl Run {
    /// What has been done so far.
    spec fn progress(self) -> Progress {
        Progress {
            toggle: self.toggle@,
            pressed_once: self.pressed_once@,
            wheel: self.wheel as int,
            steps: self.steps@,
        }
    }

    /// Adds an event.
    fn emit(&mut self, e: KbmEvent)
        ensures
            final(self).progress() == old(self).progress().with(e),
            final(self).wheel == old(self).wheel,
    {
        self.steps.push(KbmStep::Event(e));
    }

    /// Resolves a key binding.
    fn resolve_key(&mut self, vk: u16, kind: KeyKind, on: bool, prev_on: bool)
        ensures
            final(self).progress() == old(self).progress().key(vk, kind, on, prev_on),
            final(self).wheel == old(self).wheel,
    {
        let how: InjectKind = if kind.scan_code {
            InjectKind::ScanCode
        } else {
            InjectKind::Virtual
        };
        if kind.toggle {
            if on && !self.pressed_once.get(vk) {
                let down: bool = self.toggle.toggle(vk);
                self.pressed_once.set(vk, true);
                self.emit(KbmEvent::Key { vk, down, kind: how });
            } else if !on {
                let answered: bool = self.pressed_once.get(vk);
                self.pressed_once.set(vk, answered);
            }
        } else {
            if on && !prev_on {
                self.emit(KbmEvent::Key { vk, down: true, kind: how });
            } else if !on && prev_on {
                self.emit(KbmEvent::Key { vk, down: false, kind: how });
            }
        }
    }

    /// Resolves a mouse-button binding: one event per edge.
    fn resolve_mouse_button(&mut self, btn: MouseButton, on: bool, prev_on: bool)
        ensures
            final(self).progress() == (if on != prev_on {
                old(self).progress().with(KbmEvent::MouseButton { btn, down: on })
            } else {
                old(self).progress()
            }),
            final(self).wheel == old(self).wheel,
    {
        if on && !prev_on {
            self.emit(KbmEvent::MouseButton { btn, down: true });
        } else if !on && prev_on {
            self.emit(KbmEvent::MouseButton { btn, down: false });
        }
    }

    /// Resolves a wheel binding.
    fn resolve_mouse_wheel(&mut self, dir: WheelDir, on: bool, prev_on: bool, travel: u8)
        requires
            old(self).wheel < NOTCH,
        ensures
            final(self).progress() == old(self).progress().wheel(dir, on, prev_on, travel as int),
            final(self).wheel < NOTCH,
    {
        if !on {
            if prev_on {
                self.wheel = 0;
            }
            return;
        }
        let turned: u16 = self.wheel + 255 + 19 * travel as u16;
        if turned < NOTCH {
            self.wheel = turned;
            return;
        }
        self.wheel = turned - NOTCH;
        match dir {
            WheelDir::Up => self.emit(KbmEvent::Wheel { vertical: 120, horizontal: 0 }),
            WheelDir::Down => self.emit(KbmEvent::Wheel { vertical: -120, horizontal: 0 }),
            WheelDir::Right => self.emit(KbmEvent::Wheel { vertical: 0, horizontal: 120 }),
            WheelDir::Left => self.emit(KbmEvent::Wheel { vertical: 0, horizontal: -120 }),
            WheelDir::Unknown => {},
        }
    }
}

/// What the source of a mouse motion gives to a control, if it moves the mouse on this report.
fn resolve_mouse_move(
    src: MouseMoveSrc,
    state: &ControllerState,
    rp: &ResolvedProfile,
    prev_touch: TouchContact,
    on: bool,
    stands_in: bool,
    Ghost(c): Ghost<Control>,
    Ghost(rep): Ghost<Report>,
) -> (r: Option<MoveInput>)
    requires
        rep.state == *state,
        rep.profile == *rp,
        rep.memory.prev_touch == prev_touch,
        on == rep.on(c),
        stands_in == rep.stands_in(c),
    ensures
        r == rep.motion(src, c),
{
    match src {
        MouseMoveSrc::LeftStick => if on {
            Some(MoveInput::Stick { x: state.lx, y: state.ly })
        } else {
            None
        },
        MouseMoveSrc::RightStick => if on {
            Some(MoveInput::Stick { x: state.rx, y: state.ry })
        } else {
            None
        },
        MouseMoveSrc::Gyro => if (on && rp.gyro.mode.is_active(on)) || stands_in {
            Some(
                MoveInput::Gyro {
                    x: if rp.gyro.swap_yaw_roll {
                        state.motion.gyro_roll
                    } else {
                        state.motion.gyro_yaw
                    },
                    z: state.motion.gyro_pitch.neg(),
                },
            )
        } else {
            None
        },
        MouseMoveSrc::Touchpad => if on && rp.touchpad.as_mouse {
            Some(MoveInput::Touch { prev: prev_touch, cur: state.touch[0] })
        } else {
            None
        },
        MouseMoveSrc::Unknown => None,
    }
}

/// A pad axis after one more control.
spec fn written(before: Scalar, w: Option<Scalar>) -> Scalar {
    match w {
        Some(v) => v,
        None => before,
    }
}

/// Lets one control act.
fn resolve_control(
    out: &mut OutputState,
    run: &mut Run,
    state: &ControllerState,
    rp: &ResolvedProfile,
    prev_touch: TouchContact,
    c: Control,
    bind: BindTarget,
    on: bool,
    prev_on: bool,
    stands_in: bool,
    axis_remapped: &[bool; 4],
    trigger_remapped: &[bool; 2],
    Ghost(rep): Ghost<Report>,
)
    requires
        rep.state == *state,
        rep.profile == *rp,
        rep.memory.prev_touch == prev_touch,
        bind == rep.bind(c),
        on == rep.on(c),
        prev_on == rep.before(c),
        stands_in == rep.stands_in(c),
        forall|a: int| 0 <= a < 4 ==> #[trigger] axis_remapped@[a] == rep.taken(a),
        trigger_remapped@[0] == rep.bind(Control::L2).suppresses(),
        trigger_remapped@[1] == rep.bind(Control::R2).suppresses(),
        old(run).wheel < NOTCH,
    ensures
        final(run).wheel < NOTCH,
        final(run).progress() == rep.act(old(run).progress(), c),
        final(out).lx == written(old(out).lx, rep.axis_write(c, PadAxis::Lx)),
        final(out).ly == written(old(out).ly, rep.axis_write(c, PadAxis::Ly)),
        final(out).rx == written(old(out).rx, rep.axis_write(c, PadAxis::Rx)),
        final(out).ry == written(old(out).ry, rep.axis_write(c, PadAxis::Ry)),
        final(out).lt == written(old(out).lt, rep.axis_write(c, PadAxis::Lt)),
        final(out).rt == written(old(out).rt, rep.axis_write(c, PadAxis::Rt)),
        final(out).buttons.0 == old(out).buttons.0 | rep.button_mask(c),
{
    proof {
        or_nothing(out.buttons.0);
    }
    match bind {
        BindTarget::Passthrough => {
            resolve_passthrough(out, state, c, on, axis_remapped, trigger_remapped);
        },
        BindTarget::GamepadButton(b) => {
            if on {
                out.buttons.set(b.bit(), true);
            }
        },
        BindTarget::GamepadAxis { axis, dir, full } => {
            resolve_gamepad_axis(out, axis, dir, full, on);
        },
        BindTarget::TouchpadClick => {
            if on {
                out.buttons.set(PadButtons::TOUCHPAD, true);
            }
        },
        BindTarget::Key { vk, kind } => {
            run.resolve_key(vk, kind, on, prev_on);
        },
        BindTarget::Mouse(btn) => {
            run.resolve_mouse_button(btn, on, prev_on);
        },
        BindTarget::MouseMove(src) => {
            let m: Option<MoveInput> = resolve_mouse_move(
                src,
                state,
                rp,
                prev_touch,
                on,
                stands_in,
                Ghost(c),
                Ghost(rep),
            );
            if let Some(input) = m {
                run.steps.push(KbmStep::Move(input));
            }
        },
        BindTarget::MouseWheel(dir) => {
            run.resolve_mouse_wheel(dir, on, prev_on, state.travel(c));
        },
        BindTarget::Macro(id) => {
            if on && !prev_on {
                run.emit(KbmEvent::Macro { id, start: true });
            } else if !on && prev_on {
                run.emit(KbmEvent::Macro { id, start: false });
            }
        },
        BindTarget::Special(id) => {
            if on && !prev_on {
                run.emit(KbmEvent::Special { id });
            }
        },
        BindTarget::Shift(_)
        | BindTarget::Unbound
        | BindTarget::KeyUnbound
        | BindTarget::Unknown => {},
    }
}

/// The place of the control that moves the mouse by the gyro although it is off, or the number of
/// controls where there is none.
fn find_stand_in(
    eff: &[BindTarget; 47],
    on: &[bool; 47],
    mode: GyroMode,
    Ghost(rep): Ghost<Report>,
) -> (r: usize)
    requires
        mode == rep.profile.gyro.mode,
        forall|k: int| 0 <= k < CONTROL_COUNT ==> #[trigger] eff@[k] == rep.bind(control_at(k)),
        forall|k: int| 0 <= k < CONTROL_COUNT ==> #[trigger] on@[k] == rep.on(control_at(k)),
    ensures
        r <= CONTROL_COUNT,
        forall|k: int|
            0 <= k < CONTROL_COUNT ==> (k == r) == rep.stands_in(#[trigger] control_at(k)),
{
    proof {
        all_is_dense();
    }
    if mode != GyroMode::AlwaysOn {
        return CONTROL_COUNT;
    }
    let mut first: usize = CONTROL_COUNT;
    let mut i: usize = 0;
    while i < CONTROL_COUNT
        invariant
            i <= CONTROL_COUNT,
            forall|k: int| 0 <= k < CONTROL_COUNT ==> #[trigger] eff@[k] == rep.bind(control_at(k)),
            forall|k: int| 0 <= k < CONTROL_COUNT ==> #[trigger] on@[k] == rep.on(control_at(k)),
            first < i || first == CONTROL_COUNT,
            first < CONTROL_COUNT ==> rep.turns_gyro(control_at(first as int)),
            forall|k: int|
                0 <= k < i && rep.turns_gyro(#[trigger] control_at(k)) ==> first <= k && !rep.on(
                    control_at(k),
                ),
        decreases CONTROL_COUNT - i,
    {
        if let BindTarget::MouseMove(MouseMoveSrc::Gyro) = eff[i] {
            if on[i] {
                proof {
                    all_is_dense();
                    assert(rep.turns_gyro(control_at(i as int)) && rep.on(control_at(i as int)));
                }
                return CONTROL_COUNT;
            }
            if first == CONTROL_COUNT {
                first = i;
            }
        }
        i = i + 1;
    }
    proof {
        all_is_dense();
        assert forall|k: int| 0 <= k < CONTROL_COUNT implies (k == first) == rep.stands_in(
            #[trigger] control_at(k),
        ) by {
            if k == first {
                assert forall|d: Control| #[trigger] rep.turns_gyro(d) implies !rep.on(d)
                    && control_at(k).index() <= d.index() by {
                    assert(control_at(d.index()) == d);
                }
            } else if rep.stands_in(control_at(k)) {
                assert(first <= k);
                assert(rep.turns_gyro(control_at(first as int)));
            }
        }
    }
    first
}

/// Whether a latched key is pressed on this report.
fn key_is_held(eff: &[BindTarget; 47], on: &[bool; 47], vk: u16, Ghost(rep): Ghost<Report>) -> (r: bool)
    requires
        forall|k: int| 0 <= k < CONTROL_COUNT ==> #[trigger] eff@[k] == rep.bind(control_at(k)),
        forall|k: int| 0 <= k < CONTROL_COUNT ==> #[trigger] on@[k] == rep.on(control_at(k)),
    ensures
        r == rep.holds(vk),
{
    let mut i: usize = 0;
    while i < CONTROL_COUNT
        invariant
            i <= CONTROL_COUNT,
            forall|k: int| 0 <= k < CONTROL_COUNT ==> #[trigger] eff@[k] == rep.bind(control_at(k)),
            forall|k: int| 0 <= k < CONTROL_COUNT ==> #[trigger] on@[k] == rep.on(control_at(k)),
            forall|k: int|
                0 <= k < i ==> !(rep.latches(#[trigger] control_at(k), vk) && rep.on(
                    control_at(k),
                )),
        decreases CONTROL_COUNT - i,
    {
        if let BindTarget::Key { vk: bound, kind } = eff[i] {
            if bound == vk && kind.toggle && on[i] {
                assert(rep.latches(control_at(i as int), vk));
                return true;
            }
        }
        i = i + 1;
    }
    proof {
        all_is_dense();
        assert forall|c: Control| #[trigger] rep.latches(c, vk) implies !rep.on(c) by {
            assert(control_at(c.index()) == c);
        }
    }
    false
}

/// Lets the latched keys that are bound but not pressed answer the next press anew.
fn settle(
    marks: VkLatch,
    eff: &[BindTarget; 47],
    on: &[bool; 47],
    Ghost(rep): Ghost<Report>,
) -> (r: VkLatch)
    requires
        marks@ == rep.progress(CONTROL_COUNT as int).pressed_once,
        forall|k: int| 0 <= k < CONTROL_COUNT ==> #[trigger] eff@[k] == rep.bind(control_at(k)),
        forall|k: int| 0 <= k < CONTROL_COUNT ==> #[trigger] on@[k] == rep.on(control_at(k)),
    ensures
        r@ == rep.marks_after(),
{
    let mut marks: VkLatch = marks;
    let mut i: usize = 0;
    while i < CONTROL_COUNT
        invariant
            i <= CONTROL_COUNT,
            forall|k: int| 0 <= k < CONTROL_COUNT ==> #[trigger] eff@[k] == rep.bind(control_at(k)),
            forall|k: int| 0 <= k < CONTROL_COUNT ==> #[trigger] on@[k] == rep.on(control_at(k)),
            marks@ == rep.settled(i as int),
        decreases CONTROL_COUNT - i,
    {
        if let BindTarget::Key { vk, kind } = eff[i] {
            if kind.toggle && !key_is_held(eff, on, vk, Ghost(rep)) {
                marks.set(vk, false);
            }
        }
        i = i + 1;
    }
    marks
}

/// Resolves a report: the pad state, the keyboard and mouse steps, and what is remembered for the
/// next one. `now_us` is a running time in microseconds.
pub fn apply(state: &ControllerState, rp: &ResolvedProfile, ms: &mut MapState, now_us: u64) -> (r: (
    OutputState,
    KbmPlan,
))
    requires
        old(ms).valid(),
    ensures
        ({
            let rep = Report { state: *state, profile: *rp, memory: *old(ms), now_us };
            &&& r.0 == rep.output()
            &&& r.1.elapsed_us == rep.elapsed()
            &&& r.1.steps@ == rep.steps()
            &&& rep.remembered_as(*final(ms))
        }),
        final(ms).valid(),
{
    let ghost rep = Report { state: *state, profile: *rp, memory: *ms, now_us };
    let ghost n = CONTROL_COUNT as int;
    proof {
        all_is_dense();
    }
    let elapsed_us: u64 = if ms.prev_now_us == 0 || now_us <= ms.prev_now_us {
        0
    } else {
        now_us - ms.prev_now_us
    };
    let mut active_raw: [bool; 47] = [false;47];
    let mut i: usize = 0;
    while i < CONTROL_COUNT
        invariant
            i <= CONTROL_COUNT,
            rep.state == *state,
            rep.profile == *rp,
            forall|k: int| 0 <= k < i ==> #[trigger] active_raw@[k] == rep.raw()[k],
        decreases CONTROL_COUNT - i,
    {
        active_raw[i] = state.pressed(Control::ALL[i], &rp.thresholds);
        i = i + 1;
    }
    assert(active_raw@ =~= rep.raw());
    let mut eff: [BindTarget; 47] = [BindTarget::Passthrough;47];
    let mut i: usize = 0;
    while i < CONTROL_COUNT
        invariant
            i <= CONTROL_COUNT,
            rep.profile == *rp,
            active_raw@ == rep.raw(),
            forall|k: int| 0 <= k < i ==> #[trigger] eff@[k] == rep.bind(control_at(k)),
        decreases CONTROL_COUNT - i,
    {
        let c: Control = Control::ALL[i];
        eff[i] = effective_bind(rp.slot(c), &active_raw);
        i = i + 1;
    }
    let axis_remapped: [bool; 4] = [
        eff[1].suppresses_identity() || eff[2].suppresses_identity(),
        eff[3].suppresses_identity() || eff[4].suppresses_identity(),
        eff[5].suppresses_identity() || eff[6].suppresses_identity(),
        eff[7].suppresses_identity() || eff[8].suppresses_identity(),
    ];
    assert(control_at(10) == Control::L2 && control_at(13) == Control::R2);
    let trigger_remapped: [bool; 2] = [eff[10].suppresses_identity(), eff[13].suppresses_identity()];
    assert(axis_remapped@[0] == rep.taken(0) && axis_remapped@[1] == rep.taken(1)
        && axis_remapped@[2] == rep.taken(2) && axis_remapped@[3] == rep.taken(3));
    let mut on: [bool; 47] = [false;47];
    let mut i: usize = 0;
    while i < CONTROL_COUNT
        invariant
            i <= CONTROL_COUNT,
            rep.profile == *rp,
            rep.now_us == now_us,
            active_raw@ == rep.raw(),
            ms.prev_active == rep.memory.prev_active,
            ms.stick_mouse == rep.memory.stick_mouse,
            ms.gyro_mouse == rep.memory.gyro_mouse,
            ms.touch_mouse == rep.memory.touch_mouse,
            ms.prev_touch == rep.memory.prev_touch,
            ms.toggle == rep.memory.toggle,
            ms.pressed_once == rep.memory.pressed_once,
            ms.wheel_remainder == rep.memory.wheel_remainder,
            forall|k: int| 0 <= k < i ==> #[trigger] on@[k] == rep.on(control_at(k)),
            forall|k: int|
                0 <= k < i ==> #[trigger] ms.turbo@[k] == rep.turbo_after(control_at(k)),
            forall|k: int| i <= k < CONTROL_COUNT ==> #[trigger] ms.turbo@[k] == rep.memory.turbo@[k],
        decreases CONTROL_COUNT - i,
    {
        let c: Control = Control::ALL[i];
        proof {
            all_is_dense();
            assert(c == control_at(i as int) && c.index() == i);
        }
        on[i] = match rp.slot(c).turbo {
            Some(cfg) => {
                let mut ts: TurboState = ms.turbo[i];
                let fired: bool = turbo_gate(&mut ts, active_raw[i], cfg, now_us);
                ms.turbo[i] = ts;
                fired
            },
            None => active_raw[i],
        };
        i = i + 1;
    }
    let spare: usize = find_stand_in(&eff, &on, rp.gyro.mode, Ghost(rep));
    let mut out: OutputState = OutputState::default();
    let mut run: Run = Run {
        toggle: ms.toggle,
        pressed_once: ms.pressed_once,
        wheel: ms.wheel_remainder,
        steps: Vec::new(),
    };
    let prev_touch: TouchContact = ms.prev_touch;
    let mut i: usize = 0;
    while i < CONTROL_COUNT
        invariant
            i <= CONTROL_COUNT,
            rep.state == *state,
            rep.profile == *rp,
            rep.memory.prev_touch == prev_touch,
            ms.stick_mouse == rep.memory.stick_mouse,
            ms.gyro_mouse == rep.memory.gyro_mouse,
            ms.touch_mouse == rep.memory.touch_mouse,
            forall|k: int|
                0 <= k < CONTROL_COUNT ==> #[trigger] eff@[k] == rep.bind(control_at(k)),
            forall|k: int| 0 <= k < CONTROL_COUNT ==> #[trigger] on@[k] == rep.on(control_at(k)),
            forall|k: int|
                0 <= k < CONTROL_COUNT ==> (k == spare) == rep.stands_in(#[trigger] control_at(k)),
            forall|a: int| 0 <= a < 4 ==> #[trigger] axis_remapped@[a] == rep.taken(a),
            trigger_remapped@[0] == rep.bind(Control::L2).suppresses(),
            trigger_remapped@[1] == rep.bind(Control::R2).suppresses(),
            run.wheel < NOTCH,
            run.progress() == rep.progress(i as int),
            out.lx == rep.axis_after(PadAxis::Lx, i as int),
            out.ly == rep.axis_after(PadAxis::Ly, i as int),
            out.rx == rep.axis_after(PadAxis::Rx, i as int),
            out.ry == rep.axis_after(PadAxis::Ry, i as int),
            out.lt == rep.axis_after(PadAxis::Lt, i as int),
            out.rt == rep.axis_after(PadAxis::Rt, i as int),
            out.buttons.0 == rep.buttons_after(i as int),
            forall|k: int|
                0 <= k < CONTROL_COUNT ==> #[trigger] ms.turbo@[k] == rep.turbo_after(control_at(k)),
            forall|k: int| 0 <= k < i ==> #[trigger] ms.prev_active@[k] == rep.on(control_at(k)),
            forall|k: int|
                i <= k < CONTROL_COUNT ==> #[trigger] ms.prev_active@[k]
                    == rep.memory.prev_active@[k],
        decreases CONTROL_COUNT - i,
    {
        let c: Control = Control::ALL[i];
        proof {
            all_is_dense();
            assert(c == control_at(i as int) && c.index() == i);
        }
        let bind: BindTarget = eff[i];
        let prev_on: bool = ms.prev_active[i];
        assert(on@[i as int] == rep.on(c) && prev_on == rep.before(c) && bind == rep.bind(c));
        assert((i == spare) == rep.stands_in(c));
        resolve_control(
            &mut out,
            &mut run,
            state,
            rp,
            prev_touch,
            c,
            bind,
            on[i],
            prev_on,
            i == spare,
            &axis_remapped,
            &trigger_remapped,
            Ghost(rep),
        );
        ms.prev_active[i] = on[i];
        i = i + 1;
    }
    let marks: VkLatch = settle(run.pressed_once, &eff, &on, Ghost(rep));
    ms.toggle = run.toggle;
    ms.pressed_once = marks;
    ms.wheel_remainder = run.wheel;
    ms.prev_touch = state.touch[0];
    ms.prev_now_us = now_us;
    proof {
        all_is_dense();
        assert forall|c: Control| #[trigger] ms.turbo@[c.index()] == rep.turbo_after(c) by {
            assert(control_at(c.index()) == c);
        }
        assert forall|c: Control| #[trigger] ms.prev_active@[c.index()] == rep.on(c) by {
            assert(control_at(c.index()) == c);
        }
    }
    (out, KbmPlan { elapsed_us, steps: run.steps })
}

/// The events of the first `n` steps: events as they are, motions as the computed moves, and no
/// event for a motion that moves nothing.
pub open spec fn lowered(steps: Seq<KbmStep>, moves: Seq<(i32, i32)>, n: int) -> Seq<KbmEvent>
    decreases n,
{
    if n <= 0 {
        Seq::<KbmEvent>::empty()
    } else {
        let earlier = lowered(steps, moves, n - 1);
        match steps[n - 1] {
            KbmStep::Event(e) => earlier.push(e),
            KbmStep::Move(_) => if moves[n - 1] == (0i32, 0i32) {
                earlier
            } else {
                earlier.push(KbmEvent::MouseMove { dx: moves[n - 1].0, dy: moves[n - 1].1 })
            },
        }
    }
}

/// What a batch keeps of a list of events: as many as it holds, from the front.
pub open spec fn first_events(s: Seq<KbmEvent>) -> Seq<KbmEvent> {
    if s.len() <= KBM_BATCH_CAP {
        s
    } else {
        s.subrange(0, KBM_BATCH_CAP as int)
    }
}

/// Puts the computed moves in the place of the motions and collects the events, as many as a
/// batch holds. `moves` has one entry per step; only those of motions are looked at.
pub fn finish_batch(steps: &Vec<KbmStep>, moves: &Vec<(i32, i32)>) -> (r: KbmBatch)
    requires
        moves@.len() == steps@.len(),
    ensures
        r@ == first_events(lowered(steps@, moves@, steps@.len() as int)),
{
    let mut batch: KbmBatch = KbmBatch::new();
    let mut i: usize = 0;
    while i < steps.len()
        invariant
            i <= steps@.len(),
            moves@.len() == steps@.len(),
            batch@ == first_events(lowered(steps@, moves@, i as int)),
        decreases steps@.len() - i,
    {
        let ghost earlier = lowered(steps@, moves@, i as int);
        match steps[i] {
            KbmStep::Event(e) => {
                batch.push(e);
                assert(batch@ =~= first_events(earlier.push(e)));
            },
            KbmStep::Move(_) => {
                let (dx, dy): (i32, i32) = moves[i];
                if dx != 0 || dy != 0 {
                    let e: KbmEvent = KbmEvent::MouseMove { dx, dy };
                    batch.push(e);
                    assert(batch@ =~= first_events(earlier.push(e)));
                }
            },
        }
        i = i + 1;
    }
    batch
}

/// A batch keeps every event of a report that makes no more events than it holds.
pub proof fn short_reports_lose_nothing(s: Seq<KbmEvent>)
    requires
        s.len() <= KBM_BATCH_CAP,
    ensures
        first_events(s) == s,
{
}

/// The last control that writes to an axis decides it.
proof fn last_writer_decides(rep: Report, axis: PadAxis, k: int, n: int, v: Scalar)
    requires
        0 <= k < n,
        rep.axis_write(control_at(k), axis) == Some(v),
        forall|j: int| k < j < n ==> rep.axis_write(#[trigger] control_at(j), axis) is None,
    ensures
        rep.axis_after(axis, n) == v,
    decreases n,
{
    if n - 1 > k {
        last_writer_decides(rep, axis, k, n - 1, v);
        assert(rep.axis_write(control_at(n - 1), axis) is None);
    }
}

/// An axis that no control writes to is at rest.
proof fn unwritten_axis_rests(rep: Report, axis: PadAxis, n: int)
    requires
        forall|j: int| 0 <= j < n ==> rep.axis_write(#[trigger] control_at(j), axis) is None,
    ensures
        rep.axis_after(axis, n).bits == 0,
    decreases n,
{
    if n > 0 {
        unwritten_axis_rests(rep, axis, n - 1);
        assert(rep.axis_write(control_at(n - 1), axis) is None);
    }
}

/// Binding one half of a stick axis silences both: whatever the stick does, the pad axis is at
/// rest unless some control that is on pushes it.
pub proof fn bound_half_silences_the_axis(rep: Report)
    ensures
        rep.taken(0) && (forall|c: Control|
            rep.on(c) ==> !(#[trigger] rep.bind(c) matches BindTarget::GamepadAxis { axis, .. }
                && axis == GamepadAxis::Lx)) ==> rep.output().lx.bits == 0,
        rep.taken(1) && (forall|c: Control|
            rep.on(c) ==> !(#[trigger] rep.bind(c) matches BindTarget::GamepadAxis { axis, .. }
                && axis == GamepadAxis::Ly)) ==> rep.output().ly.bits == 0,
        rep.taken(2) && (forall|c: Control|
            rep.on(c) ==> !(#[trigger] rep.bind(c) matches BindTarget::GamepadAxis { axis, .. }
                && axis == GamepadAxis::Rx)) ==> rep.output().rx.bits == 0,
        rep.taken(3) && (forall|c: Control|
            rep.on(c) ==> !(#[trigger] rep.bind(c) matches BindTarget::GamepadAxis { axis, .. }
                && axis == GamepadAxis::Ry)) ==> rep.output().ry.bits == 0,
{
    let n = CONTROL_COUNT as int;
    if rep.taken(0) && (forall|c: Control|
        rep.on(c) ==> !(#[trigger] rep.bind(c) matches BindTarget::GamepadAxis { axis, .. } && axis
            == GamepadAxis::Lx)) {
        assert forall|j: int| 0 <= j < n implies rep.axis_write(
            #[trigger] control_at(j),
            PadAxis::Lx,
        ) is None by {
            let b = rep.bind(control_at(j));
        }
        unwritten_axis_rests(rep, PadAxis::Lx, n);
    }
    if rep.taken(1) && (forall|c: Control|
        rep.on(c) ==> !(#[trigger] rep.bind(c) matches BindTarget::GamepadAxis { axis, .. } && axis
            == GamepadAxis::Ly)) {
        assert forall|j: int| 0 <= j < n implies rep.axis_write(
            #[trigger] control_at(j),
            PadAxis::Ly,
        ) is None by {
            let b = rep.bind(control_at(j));
        }
        unwritten_axis_rests(rep, PadAxis::Ly, n);
    }
    if rep.taken(2) && (forall|c: Control|
        rep.on(c) ==> !(#[trigger] rep.bind(c) matches BindTarget::GamepadAxis { axis, .. } && axis
            == GamepadAxis::Rx)) {
        assert forall|j: int| 0 <= j < n implies rep.axis_write(
            #[trigger] control_at(j),
            PadAxis::Rx,
        ) is None by {
            let b = rep.bind(control_at(j));
        }
        unwritten_axis_rests(rep, PadAxis::Rx, n);
    }
    if rep.taken(3) && (forall|c: Control|
        rep.on(c) ==> !(#[trigger] rep.bind(c) matches BindTarget::GamepadAxis { axis, .. } && axis
            == GamepadAxis::Ry)) {
        assert forall|j: int| 0 <= j < n implies rep.axis_write(
            #[trigger] control_at(j),
            PadAxis::Ry,
        ) is None by {
            let b = rep.bind(control_at(j));
        }
        unwritten_axis_rests(rep, PadAxis::Ry, n);
    }
}

/// A control adds at most one step, so a report has at most one per control.
pub proof fn one_step_per_control(rep: Report, n: int)
    requires
        0 <= n <= CONTROL_COUNT,
    ensures
        rep.progress(n).steps.len() <= n,
    decreases n,
{
    if n > 0 {
        one_step_per_control(rep, n - 1);
    }
}

/// A control that stays as it was adds nothing when it is bound to a held key, a mouse button, a
/// macro or a special action: those answer edges only.
pub proof fn held_controls_are_silent(rep: Report, p: Progress, c: Control)
    requires
        rep.on(c) == rep.before(c),
        rep.bind(c) matches BindTarget::Key { kind, .. } ==> !kind.toggle,
        rep.bind(c) !is MouseMove,
        rep.bind(c) !is MouseWheel,
    ensures
        rep.act(p, c) == p,
{
}

/// The number of steps that move the mouse by the gyro.
pub open spec fn gyro_moves(steps: Seq<KbmStep>) -> int
    decreases steps.len(),
{
    if steps.len() == 0 {
        0
    } else {
        gyro_moves(steps.drop_last()) + (if steps.last() matches KbmStep::Move(m) && m is Gyro {
            1int
        } else {
            0
        })
    }
}

/// One more step counts by itself.
proof fn one_more_move(steps: Seq<KbmStep>, step: KbmStep)
    ensures
        gyro_moves(steps.push(step)) == gyro_moves(steps) + (if step matches KbmStep::Move(m) && m
            is Gyro {
            1int
        } else {
            0
        }),
{
    assert(steps.push(step).drop_last() =~= steps);
}

/// Whether a control moves the mouse by the gyro on this report.
pub open spec fn feeds_gyro(rep: Report, c: Control) -> bool {
    rep.turns_gyro(c) && ((rep.on(c) && rep.profile.gyro.mode.active(true)) || rep.stands_in(c))
}

/// The number of the first `n` controls that move the mouse by the gyro.
pub open spec fn gyro_feeders(rep: Report, n: int) -> int
    decreases n,
{
    if n <= 0 {
        0
    } else {
        gyro_feeders(rep, n - 1) + (if feeds_gyro(rep, control_at(n - 1)) {
            1int
        } else {
            0
        })
    }
}

/// A report has one gyro step for each control that feeds the gyro.
pub proof fn one_gyro_move_per_feeder(rep: Report, n: int)
    requires
        0 <= n <= CONTROL_COUNT,
    ensures
        gyro_moves(rep.progress(n).steps) == gyro_feeders(rep, n),
    decreases n,
{
    if n > 0 {
        one_gyro_move_per_feeder(rep, n - 1);
        let p = rep.progress(n - 1);
        let q = rep.progress(n);
        let b = rep.bind(control_at(n - 1));
        if q.steps != p.steps {
            assert(q.steps == p.steps.push(q.steps.last()));
            one_more_move(p.steps, q.steps.last());
        }
    }
}

/// The feeders among the first `n` controls where only the control at `k` feeds the gyro.
proof fn lone_feeder(rep: Report, k: int, n: int)
    requires
        0 <= n <= CONTROL_COUNT,
        0 <= k < CONTROL_COUNT,
        forall|j: int|
            0 <= j < CONTROL_COUNT ==> feeds_gyro(rep, #[trigger] control_at(j)) == (j == k),
    ensures
        gyro_feeders(rep, n) == (if k < n {
            1int
        } else {
            0
        }),
    decreases n,
{
    if n > 0 {
        lone_feeder(rep, k, n - 1);
        assert(feeds_gyro(rep, control_at(n - 1)) == (n - 1 == k));
    }
}

/// Feeders are counted.
proof fn feeder_counts(rep: Report, k: int, n: int)
    requires
        0 <= n,
    ensures
        gyro_feeders(rep, n) >= 0,
        0 <= k < n && feeds_gyro(rep, control_at(k)) ==> gyro_feeders(rep, n) >= 1,
    decreases n,
{
    if n > 0 {
        feeder_counts(rep, k, n - 1);
    }
}

/// The first control bound to the gyro.
proof fn first_gyro_control(rep: Report, c: Control) -> (f: Control)
    requires
        rep.turns_gyro(c),
    ensures
        rep.turns_gyro(f),
        forall|d: Control| #[trigger] rep.turns_gyro(d) ==> f.index() <= d.index(),
    decreases c.index(),
{
    all_is_dense();
    if forall|d: Control| #[trigger] rep.turns_gyro(d) ==> c.index() <= d.index() {
        c
    } else {
        let d = choose|d: Control| #[trigger] rep.turns_gyro(d) && d.index() < c.index();
        first_gyro_control(rep, d)
    }
}

/// The mode that runs on every report does so: as soon as a control is bound to the gyro, a report
/// moves the mouse by it, and where no such control is on, it does so exactly once.
pub proof fn always_on_runs_every_report(rep: Report, c: Control)
    requires
        rep.profile.gyro.mode == GyroMode::AlwaysOn,
        rep.turns_gyro(c),
    ensures
        gyro_moves(rep.steps()) >= 1,
        (forall|d: Control| #[trigger] rep.turns_gyro(d) ==> !rep.on(d)) ==> gyro_moves(rep.steps())
            == 1,
{
    all_is_dense();
    let n = CONTROL_COUNT as int;
    one_gyro_move_per_feeder(rep, n);
    if forall|d: Control| #[trigger] rep.turns_gyro(d) ==> !rep.on(d) {
        let f = first_gyro_control(rep, c);
        assert(control_at(f.index()) == f);
        assert(rep.stands_in(f));
        assert forall|j: int| 0 <= j < n implies feeds_gyro(rep, #[trigger] control_at(j)) == (j
            == f.index()) by {
            assert(control_at(j).index() == j);
        }
        lone_feeder(rep, f.index(), n);
    } else {
        let d = choose|d: Control| #[trigger] rep.turns_gyro(d) && rep.on(d);
        assert(control_at(d.index()) == d);
        feeder_counts(rep, d.index(), n);
    }
}

/// Apart from that mode, a control moves the mouse by the gyro only while it is on, and only in the
/// mode that follows it.
pub proof fn mode_rules_the_gyro(rep: Report, p: Progress, c: Control)
    requires
        rep.turns_gyro(c),
        rep.profile.gyro.mode != GyroMode::AlwaysOn,
    ensures
        rep.on(c) && rep.profile.gyro.mode == GyroMode::TriggerHeld ==> {
            &&& rep.act(p, c).steps.len() == p.steps.len() + 1
            &&& rep.act(p, c).steps.last() matches KbmStep::Move(m)
            &&& m is Gyro
        },
        !rep.on(c) || rep.profile.gyro.mode != GyroMode::TriggerHeld ==> rep.act(p, c) == p,
{
}

/// A press and its release give back a held key: one event down, one event up, the same key.
pub proof fn held_key_comes_back_up(p: Progress, vk: u16, scan_code: bool)
    ensures
        ({
            let kind = KeyKind { scan_code, toggle: false };
            let how = if scan_code {
                InjectKind::ScanCode
            } else {
                InjectKind::Virtual
            };
            p.key(vk, kind, true, false).key(vk, kind, true, true).key(vk, kind, false, true).steps
                == p.steps.push(KbmStep::Event(KbmEvent::Key { vk, down: true, kind: how })).push(
                KbmStep::Event(KbmEvent::Key { vk, down: false, kind: how }),
            )
        }),
{
}

/// Two presses with a release between them turn a latched key over twice, whichever controls they
/// come from: it ends where it began, with one event down and one up. The key must be one that
/// both latches can track.
pub proof fn two_presses_restore_a_latched_key(p: Progress, vk: u16, scan_code: bool)
    requires
        p.toggle.dom().contains(vk) || p.toggle.dom().len() < VK_LATCH_CAP,
        p.pressed_once.dom().contains(vk) || p.pressed_once.dom().len() < VK_LATCH_CAP,
        !latch_get(p.pressed_once, vk),
    ensures
        ({
            let kind = KeyKind { scan_code, toggle: true };
            let how = if scan_code {
                InjectKind::ScanCode
            } else {
                InjectKind::Virtual
            };
            let was = latch_get(p.toggle, vk);
            let q = p.key(vk, kind, true, false).let_go(vk).key(vk, kind, true, false);
            &&& latch_get(q.toggle, vk) == was
            &&& q.steps == p.steps.push(
                KbmStep::Event(KbmEvent::Key { vk, down: !was, kind: how }),
            ).push(KbmStep::Event(KbmEvent::Key { vk, down: was, kind: how }))
        }),
{
}

/// Three reports of a full press turn the wheel by exactly one notch and leave nothing over.
pub proof fn three_reports_turn_a_notch(p: Progress, before: bool)
    requires
        p.wheel == 0,
    ensures
        ({
            let q = p.wheel(WheelDir::Up, true, before, 255).wheel(
                WheelDir::Up,
                true,
                true,
                255,
            ).wheel(WheelDir::Up, true, true, 255);
            &&& q.wheel == 0
            &&& q.steps == p.steps.push(
                KbmStep::Event(KbmEvent::Wheel { vertical: 120, horizontal: 0 }),
            )
        }),
{
}

/// A control that is pushed less far turns the wheel less far on a report.
pub proof fn lighter_pushes_turn_slower(a: int, b: int)
    requires
        a < b,
    ensures
        wheel_rate(a) < wheel_rate(b),
{
}

/// Whether every control passes through.
pub open spec fn all_pass(profile: ResolvedProfile) -> bool {
    forall|c: Control|
        #[trigger] profile.slot_spec(c) == BindingSlot::of(BindTarget::Passthrough)
}

/// How a report reads under a profile in which every control passes through.
proof fn plain_bindings(rep: Report, c: Control)
    requires
        all_pass(rep.profile),
    ensures
        rep.bind(c) == BindTarget::Passthrough,
        rep.on(c) == rep.state.pressed_spec(c, rep.profile.thresholds),
{
    all_is_dense();
    assert(rep.profile.slot_spec(c) == BindingSlot::of(BindTarget::Passthrough));
    assert(control_at(c.index()) == c);
}

/// The pad button that a control presses as itself.
pub open spec fn plain_mask(s: ControllerState, c: Control) -> u32 {
    match own_bit(c) {
        Some(bit) => press_mask(
            match c {
                Control::L2FullPull => s.l2_raw == 255,
                Control::R2FullPull => s.r2_raw == 255,
                _ => s.button_spec(c),
            },
            bit,
        ),
        None => 0,
    }
}

/// The pad buttons that the first `n` controls press as themselves.
pub open spec fn plain_after(s: ControllerState, n: int) -> u32
    decreases n,
{
    if n <= 0 {
        0
    } else {
        plain_after(s, n - 1) | plain_mask(s, control_at(n - 1))
    }
}

/// The buttons of a report under such a profile.
proof fn plain_buttons(rep: Report, n: int)
    requires
        all_pass(rep.profile),
        0 <= n <= CONTROL_COUNT,
    ensures
        rep.buttons_after(n) == plain_after(rep.state, n),
    decreases n,
{
    if n > 0 {
        plain_buttons(rep, n - 1);
        let c = control_at(n - 1);
        plain_bindings(rep, c);
        plain_bindings(rep, Control::L2);
        plain_bindings(rep, Control::R2);
        reveal(press_mask);
    }
}

/// One control more.
proof fn next_plain(s: ControllerState, i: int)
    requires
        0 <= i < CONTROL_COUNT,
    ensures
        plain_after(s, i + 1) == plain_after(s, i) | plain_mask(s, control_at(i)),
{
}

/// Controls without a button of their own change nothing.
proof fn quiet_plain(s: ControllerState, a: int, b: int)
    requires
        0 <= a <= b <= CONTROL_COUNT,
        forall|j: int| a <= j < b ==> own_bit(#[trigger] control_at(j)) is None,
    ensures
        plain_after(s, b) == plain_after(s, a),
    decreases b - a,
{
    if a < b {
        quiet_plain(s, a, b - 1);
        next_plain(s, b - 1);
        or_nothing(plain_after(s, b - 1));
        assert(own_bit(control_at(b - 1)) is None);
    }
}

/// The pad buttons of the pressed controls, in table order.
pub open spec fn table_order_buttons(s: ControllerState) -> u32 {
    table_word(
        s.l1,
        s.l3,
        s.r1,
        s.r3,
        s.square,
        s.triangle,
        s.circle,
        s.cross,
        s.dpad_up,
        s.dpad_right,
        s.dpad_down,
        s.dpad_left,
        s.ps,
        s.share,
        s.options,
        s.l2_raw == 255,
        s.r2_raw == 255,
        s.touch_button,
    )
}

/// The controls up to the menu buttons together.
proof fn first_plain(s: ControllerState)
    ensures
        plain_after(s, 26) == table_head(
            s.l1,
            s.l3,
            s.r1,
            s.r3,
            s.square,
            s.triangle,
            s.circle,
            s.cross,
            s.dpad_up,
            s.dpad_right,
            s.dpad_down,
            s.dpad_left,
            s.ps,
            s.share,
            s.options,
        ),
{
    reveal(table_head);
    quiet_plain(s, 0, 9);
    next_plain(s, 9);
    quiet_plain(s, 10, 11);
    next_plain(s, 11);
    next_plain(s, 12);
    quiet_plain(s, 13, 14);
    next_plain(s, 14);
    next_plain(s, 15);
    next_plain(s, 16);
    next_plain(s, 17);
    next_plain(s, 18);
    next_plain(s, 19);
    next_plain(s, 20);
    next_plain(s, 21);
    next_plain(s, 22);
    next_plain(s, 23);
    next_plain(s, 24);
    next_plain(s, 25);
}

/// All controls together.
proof fn all_plain(s: ControllerState)
    ensures
        plain_after(s, CONTROL_COUNT as int) == table_order_buttons(s),
{
    reveal(table_word);
    first_plain(s);
    quiet_plain(s, 26, 34);
    next_plain(s, 34);
    next_plain(s, 35);
    quiet_plain(s, 36, 38);
    next_plain(s, 38);
    quiet_plain(s, 39, 47);
}

/// Under a profile in which every control passes through, the pad shows the controller exactly as
/// it is; no key, mouse or wheel step is made and nothing but the readings is remembered.
pub proof fn passing_through_is_identity(rep: Report)
    requires
        all_pass(rep.profile),
    ensures
        rep.output() == OutputState::passthrough_spec(rep.state),
        rep.steps().len() == 0,
        rep.progress(CONTROL_COUNT as int) == rep.progress(0),
        rep.marks_after() == rep.memory.pressed_once@,
{
    all_is_dense();
    let s = rep.state;
    let n = CONTROL_COUNT as int;
    assert forall|c: Control| #[trigger] rep.bind(c) == BindTarget::Passthrough by {
        plain_bindings(rep, c);
    }
    assert(!rep.taken(0) && !rep.taken(1) && !rep.taken(2) && !rep.taken(3));
    last_writer_decides(rep, PadAxis::Lx, 2, n, s.lx);
    last_writer_decides(rep, PadAxis::Ly, 4, n, s.ly);
    last_writer_decides(rep, PadAxis::Rx, 6, n, s.rx);
    last_writer_decides(rep, PadAxis::Ry, 8, n, s.ry);
    last_writer_decides(rep, PadAxis::Lt, 10, n, s.l2);
    last_writer_decides(rep, PadAxis::Rt, 13, n, s.r2);
    plain_buttons(rep, n);
    all_plain(s);
    gathered_buttons(s);
    idle_progress(rep, n);
    idle_marks(rep, n);
}

/// The gathered buttons are those that pass through.
proof fn gathered_buttons(s: ControllerState)
    ensures
        table_order_buttons(s) == identity_buttons(s),
{
    gathering_order(
        s.cross,
        s.circle,
        s.square,
        s.triangle,
        s.l1,
        s.r1,
        s.share,
        s.options,
        s.l3,
        s.r3,
        s.ps,
        s.dpad_up,
        s.dpad_down,
        s.dpad_left,
        s.dpad_right,
        s.l2_raw == 255,
        s.r2_raw == 255,
        s.touch_button,
    );
}

/// Controls that pass through leave the progress alone.
proof fn idle_progress(rep: Report, n: int)
    requires
        0 <= n <= CONTROL_COUNT,
        forall|c: Control| #[trigger] rep.bind(c) == BindTarget::Passthrough,
    ensures
        rep.progress(n) == rep.progress(0),
    decreases n,
{
    if n > 0 {
        idle_progress(rep, n - 1);
        assert(rep.bind(control_at(n - 1)) == BindTarget::Passthrough);
    }
}

/// Controls that pass through leave the marks alone.
proof fn idle_marks(rep: Report, n: int)
    requires
        0 <= n <= CONTROL_COUNT,
        forall|c: Control| #[trigger] rep.bind(c) == BindTarget::Passthrough,
    ensures
        rep.settled(n) == rep.settled(0),
    decreases n,
{
    if n > 0 {
        idle_marks(rep, n - 1);
        assert(rep.bind(control_at(n - 1)) == BindTarget::Passthrough);
    }
}

} // verus!

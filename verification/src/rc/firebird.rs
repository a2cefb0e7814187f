//! The integer recurrence of the RC filter, in 256ths of an 8-bit stick unit.
//!
//! Readings come in sixteenths (0 to 4080); the state is in 256ths. A positive strength smooths,
//! a negative strength leads, and strength zero hands the reading through. Every division
//! truncates towards zero.

use vstd::prelude::*;

use crate::ints::{
    clamp_i32, clamp_int, div_i32, fits_i32, trunc_div, trunc_div_bounds, trunc_div_falls_short,
    trunc_div_neg,
};

verus! {

/// Largest output: 255 in 256ths.
pub const OUT_MAX: i32 = 65_280;

/// Largest state of the leading branch.
pub const NEG_MAX: i32 = 0xfff0;

/// Largest reading: 255 in sixteenths.
pub const RAW12_MAX: i32 = 4080;

/// The state of one axis. The two branches keep their histories apart, so that a change of sign
/// in the strength never mixes them.
#[derive(Clone, Copy, Debug, PartialEq, Eq, Structural)]
pub struct FbAxisState {
    /// Whether the smoothing branch has a history.
    pub pos_primed: bool,
    /// Its state.
    pub pos_q4: i32,
    /// Whether the leading branch has a history.
    pub neg_primed: bool,
    /// Its state.
    pub neg_q4: i32,
    /// The last reading that it saw.
    pub neg_prev_q4: i32,
}

impl FbAxisState {
    /// No history.
    pub open spec fn fresh() -> FbAxisState {
        FbAxisState { pos_primed: false, pos_q4: 0, neg_primed: false, neg_q4: 0, neg_prev_q4: 0 }
    }

    /// Both histories at one reading.
    pub open spec fn seeded(q4: i32) -> FbAxisState {
        FbAxisState {
            pos_primed: true,
            pos_q4: q4,
            neg_primed: true,
            neg_q4: q4,
            neg_prev_q4: q4,
        }
    }

    /// Whether the state can come from readings in their range.
    pub open spec fn in_range(self) -> bool {
        &&& 0 <= self.pos_q4 <= OUT_MAX
        &&& 0 <= self.neg_q4 <= NEG_MAX
        &&& 0 <= self.neg_prev_q4 <= OUT_MAX
    }
}

impl Default for FbAxisState {
    fn default() -> (r: FbAxisState)
        ensures
            r == FbAxisState::fresh(),
    {
        FbAxisState { pos_primed: false, pos_q4: 0, neg_primed: false, neg_q4: 0, neg_prev_q4: 0 }
    }
}

/// A reading as output: in 256ths, held in the output range.
pub open spec fn reading_out(raw12: int) -> int {
    clamp_int(raw12 * 16, 0, OUT_MAX as int)
}

/// A state as output, held in the output range.
pub open spec fn state_out(q4: int) -> int {
    clamp_int(q4, 0, OUT_MAX as int)
}

/// A reading in 256ths. Readings far outside their range lose their upper bits.
pub open spec fn q4_of(raw12: int) -> int {
    if fits_i32(raw12 * 16) {
        raw12 * 16
    } else {
        (raw12 * 16 + 0x8000_0000) % 0x1_0000_0000 - 0x8000_0000
    }
}

/// The smoothing state after one reading: it moves towards the reading by the share
/// `base / (base + strength)`.
pub open spec fn smoothed(pos: int, input: int, param: int, base: int) -> int {
    pos + trunc_div(base * (input - pos), base + param)
}

/// The leading state after one reading: a blend of reading and state plus a lead in proportion to
/// the last change, held in its range.
pub open spec fn led(neg: int, prev: int, input: int, p: int, lead_base: int) -> int {
    clamp_int(
        trunc_div(lead_base * input + p * neg, p + lead_base) + trunc_div(
            (p + 25) * (input - prev),
            25,
        ),
        0,
        NEG_MAX as int,
    )
}

/// The state and the output after one reading.
pub open spec fn stepped(
    st: FbAxisState,
    raw12: int,
    param: int,
    lead_base: int,
    base_value: int,
) -> (FbAxisState, int) {
    let q4 = q4_of(raw12);
    if param == 0 {
        (st, reading_out(raw12))
    } else if param > 0 {
        if !st.pos_primed {
            (FbAxisState { pos_primed: true, pos_q4: q4 as i32, ..st }, reading_out(raw12))
        } else {
            let pos = smoothed(st.pos_q4 as int, q4, param, base_value);
            (FbAxisState { pos_q4: pos as i32, ..st }, state_out(pos))
        }
    } else {
        if !st.neg_primed {
            (
                FbAxisState { neg_primed: true, neg_q4: q4 as i32, neg_prev_q4: q4 as i32, ..st },
                reading_out(raw12),
            )
        } else {
            let neg = led(st.neg_q4 as int, st.neg_prev_q4 as int, q4, -param, lead_base);
            (FbAxisState { neg_q4: neg as i32, neg_prev_q4: q4 as i32, ..st }, state_out(neg))
        }
    }
}

/// Whether one reading can be processed in 32 bits: nothing on the way overflows, and no divisor
/// is zero.
pub open spec fn step_fits(
    st: FbAxisState,
    raw12: int,
    param: int,
    lead_base: int,
    base_value: int,
) -> bool {
    let q4 = q4_of(raw12);
    &&& param > 0 && st.pos_primed ==> {
        &&& base_value + param != 0
        &&& fits_i32(base_value + param)
        &&& fits_i32(q4 - st.pos_q4)
        &&& fits_i32(base_value * (q4 - st.pos_q4))
        &&& fits_i32(trunc_div(base_value * (q4 - st.pos_q4), base_value + param))
        &&& fits_i32(smoothed(st.pos_q4 as int, q4, param, base_value))
    }
    &&& param < 0 && st.neg_primed ==> {
        let p = -param;
        &&& p + lead_base != 0
        &&& fits_i32(p + lead_base)
        &&& p + 25 <= i32::MAX
        &&& fits_i32(lead_base * q4)
        &&& fits_i32(p * st.neg_q4)
        &&& fits_i32(lead_base * q4 + p * st.neg_q4)
        &&& fits_i32(trunc_div(lead_base * q4 + p * st.neg_q4, p + lead_base))
        &&& fits_i32(q4 - st.neg_prev_q4)
        &&& fits_i32((p + 25) * (q4 - st.neg_prev_q4))
        &&& fits_i32(
            trunc_div(lead_base * q4 + p * st.neg_q4, p + lead_base) + trunc_div(
                (p + 25) * (q4 - st.neg_prev_q4),
                25,
            ),
        )
    }
}

/// Advances one axis by one reading and returns the output in 256ths.
pub fn step(st: &mut FbAxisState, raw12: i32, param: i32, lead_base: i32, base_value: i32) -> (r:
    i32)
    requires
        step_fits(*old(st), raw12 as int, param as int, lead_base as int, base_value as int),
        param > i32::MIN,
    ensures
        (*final(st), r as int) == stepped(
            *old(st),
            raw12 as int,
            param as int,
            lead_base as int,
            base_value as int,
        ),
{
    let q4: i32 = raw12.wrapping_mul(16);
    let passed: i32 = clamp_i32(raw12, 0, RAW12_MAX) * 16;
    if param == 0 {
        return passed;
    }
    if param > 0 {
        if !st.pos_primed {
            st.pos_primed = true;
            st.pos_q4 = q4;
            return passed;
        }
        let gap: i32 = q4 - st.pos_q4;
        let push: i32 = base_value * gap;
        st.pos_q4 = st.pos_q4 + div_i32(push, base_value + param);
        return clamp_i32(st.pos_q4, 0, OUT_MAX);
    }
    let p: i32 = -param;
    if !st.neg_primed {
        st.neg_primed = true;
        st.neg_q4 = q4;
        st.neg_prev_q4 = q4;
        return passed;
    }
    let a: i32 = lead_base * q4;
    let b: i32 = p * st.neg_q4;
    let blended: i32 = div_i32(a + b, p + lead_base);
    let change: i32 = q4 - st.neg_prev_q4;
    let lead: i32 = div_i32((p + 25) * change, 25);
    st.neg_q4 = clamp_i32(blended + lead, 0, NEG_MAX);
    st.neg_prev_q4 = q4;
    clamp_i32(st.neg_q4, 0, OUT_MAX)
}

/// Smoothing never overshoots: the new state lies between the old state and the reading.
pub proof fn smoothing_stays_between(pos: int, input: int, param: int, base: int)
    requires
        param > 0,
        base > 0,
    ensures
        pos <= input ==> pos <= smoothed(pos, input, param, base) <= input,
        pos >= input ==> input <= smoothed(pos, input, param, base) <= pos,
{
    if pos <= input {
        let d = input - pos;
        assert(0 <= base * d <= d * (base + param)) by (nonlinear_arith)
            requires
                d >= 0,
                base > 0,
                param > 0,
        ;
        trunc_div_bounds(base * d, base + param, d);
    }
    if pos >= input {
        let d = pos - input;
        assert(0 <= base * d <= d * (base + param)) by (nonlinear_arith)
            requires
                d >= 0,
                base > 0,
                param > 0,
        ;
        trunc_div_bounds(base * d, base + param, d);
        trunc_div_neg(base * d, base + param);
        assert(base * (input - pos) == -(base * d)) by (nonlinear_arith)
            requires
                d == pos - input,
        ;
    }
}

/// A reading in its range, a strength in its range and the coefficients of any period can always
/// be processed, and leave the state in its range.
pub proof fn ordinary_steps_fit(
    st: FbAxisState,
    raw12: int,
    param: int,
    lead_base: int,
    base_value: int,
)
    requires
        st.in_range(),
        0 <= raw12 <= RAW12_MAX,
        -500 <= param <= 500,
        25 <= lead_base <= 200,
        12 <= base_value <= 100,
    ensures
        step_fits(st, raw12, param, lead_base, base_value),
        stepped(st, raw12, param, lead_base, base_value).0.in_range(),
        0 <= stepped(st, raw12, param, lead_base, base_value).1 <= OUT_MAX,
{
    let q4 = raw12 * 16;
    if param > 0 && st.pos_primed {
        let gap = q4 - st.pos_q4;
        assert(-100 * 65280 <= base_value * gap <= 100 * 65280) by (nonlinear_arith)
            requires
                12 <= base_value <= 100,
                -65280 <= gap <= 65280,
        ;
        smoothing_stays_between(st.pos_q4 as int, q4, param, base_value);
    }
    if param < 0 && st.neg_primed {
        let p = -param;
        let n = st.neg_q4 as int;
        let change = q4 - st.neg_prev_q4;
        assert(0 <= lead_base * q4 <= 200 * 65280) by (nonlinear_arith)
            requires
                25 <= lead_base <= 200,
                0 <= q4 <= 65280,
        ;
        assert(0 <= p * n <= 500 * 65520) by (nonlinear_arith)
            requires
                1 <= p <= 500,
                0 <= n <= 65520,
        ;
        assert(-525 * 65280 <= (p + 25) * change <= 525 * 65280) by (nonlinear_arith)
            requires
                1 <= p <= 500,
                -65280 <= change <= 65280,
        ;
        assert(lead_base * q4 + p * n <= 65520 * (p + lead_base)) by (nonlinear_arith)
            requires
                25 <= lead_base,
                1 <= p,
                0 <= q4 <= 65280,
                0 <= n <= 65520,
        ;
        trunc_div_bounds(lead_base * q4 + p * n, p + lead_base, 65520);
    }
}

/// Smoothing takes the whole part of the share `base / (base + strength)` of the way from the state
/// to the reading, and never more.
pub proof fn smoothing_takes_its_share(pos: int, input: int, param: int, base: int)
    requires
        param > 0,
        base > 0,
    ensures
        pos <= input ==> ({
            let d = smoothed(pos, input, param, base) - pos;
            d >= 0 && d * (base + param) <= base * (input - pos) < d * (base + param) + (base + param)
        }),
        input <= pos ==> ({
            let d = pos - smoothed(pos, input, param, base);
            d >= 0 && d * (base + param) <= base * (pos - input) < d * (base + param) + (base + param)
        }),
{
    let b = base + param;
    trunc_div_falls_short(base * (input - pos), b);
    smoothing_stays_between(pos, input, param, base);
    let d = trunc_div(base * (input - pos), b);
    assert(base * (pos - input) == -(base * (input - pos)) && (-d) * b == -(d * b))
        by (nonlinear_arith);
    assert(pos <= input ==> 0 <= base * (input - pos)) by (nonlinear_arith)
        requires
            base > 0,
    ;
    assert(input <= pos ==> base * (input - pos) <= 0) by (nonlinear_arith)
        requires
            base > 0,
    ;
}

/// The leading state is the blend of reading and state in the proportion of `lead_base` to the
/// strength, plus the last change times one and a twenty-fifth per unit of strength, each of the
/// two truncated, and held between 0 and 65520.
pub proof fn leading_blends_and_leads(neg: int, prev: int, input: int, p: int, lead_base: int)
    requires
        p > 0,
        lead_base > 0,
        0 <= neg,
        0 <= input,
    ensures
        exists|blend: int, lead: int|
            #![trigger led_from(blend, lead)]
            {
                &&& 0 <= blend
                &&& blend * (p + lead_base) <= lead_base * input + p * neg < blend * (p + lead_base) + (
                p + lead_base)
                &&& input >= prev ==> lead * 25 <= (p + 25) * (input - prev) < lead * 25 + 25
                &&& input >= prev ==> lead >= 0
                &&& input <= prev ==> -lead * 25 <= (p + 25) * (prev - input) < -lead * 25 + 25
                &&& input <= prev ==> lead <= 0
                &&& led(neg, prev, input, p, lead_base) == led_from(blend, lead)
            },
{
    let b = p + lead_base;
    let sum = lead_base * input + p * neg;
    assert(sum >= 0) by (nonlinear_arith)
        requires
            sum == lead_base * input + p * neg,
            p > 0,
            lead_base > 0,
            0 <= neg,
            0 <= input,
    ;
    let blend = trunc_div(sum, b);
    let lead = trunc_div((p + 25) * (input - prev), 25);
    trunc_div_falls_short(sum, b);
    trunc_div_falls_short((p + 25) * (input - prev), 25);
    assert(blend >= 0) by (nonlinear_arith)
        requires
            0 <= blend * b,
            b > 0,
    ;
    assert((p + 25) * (prev - input) == -((p + 25) * (input - prev))) by (nonlinear_arith);
    assert(input >= prev ==> (p + 25) * (input - prev) >= 0) by (nonlinear_arith)
        requires
            p > 0,
    ;
    assert(input <= prev ==> (p + 25) * (input - prev) <= 0) by (nonlinear_arith)
        requires
            p > 0,
    ;
    assert(led(neg, prev, input, p, lead_base) == led_from(blend, lead));
}

/// A blend and a lead together, held between 0 and 65520.
pub open spec fn led_from(blend: int, lead: int) -> int {
    if blend + lead < 0 {
        0
    } else if blend + lead > 65_520 {
        65_520
    } else {
        blend + lead
    }
}

/// A branch that has no history is seeded at the reading, which is put out; one that has a history
/// puts out its new state. Outputs are held between 0 and 65280, and a reading between 0 and 4080
/// is put out times sixteen.
pub proof fn first_use_seeds_the_branch(
    st: FbAxisState,
    raw12: int,
    param: int,
    lead_base: int,
    base_value: int,
)
    requires
        0 <= raw12 <= 4080,
    ensures
        ({
            let (next, out) = stepped(st, raw12, param, lead_base, base_value);
            let q = raw12 * 16;
            &&& param == 0 ==> out == q && next == st
            &&& param > 0 ==> next.pos_primed
            &&& param > 0 && !st.pos_primed ==> out == q && next.pos_q4 == q
            &&& param < 0 ==> next.neg_primed && next.neg_prev_q4 == q
            &&& param < 0 && !st.neg_primed ==> out == q && next.neg_q4 == q
        }),
{
}

/// A branch with a history puts out its new state, held between 0 and 65280.
pub proof fn outputs_are_the_state(
    st: FbAxisState,
    raw12: int,
    param: int,
    lead_base: int,
    base_value: int,
)
    requires
        st.in_range(),
        0 <= raw12 <= RAW12_MAX,
        -500 <= param <= 500,
        25 <= lead_base <= 200,
        12 <= base_value <= 100,
    ensures
        ({
            let (next, out) = stepped(st, raw12, param, lead_base, base_value);
            let q = raw12 * 16;
            &&& param > 0 && st.pos_primed ==> next.pos_q4 == smoothed(
                st.pos_q4 as int,
                q,
                param,
                base_value,
            ) && out == next.pos_q4
            &&& param < 0 && st.neg_primed ==> next.neg_q4 == led(
                st.neg_q4 as int,
                st.neg_prev_q4 as int,
                q,
                -param,
                lead_base,
            ) && (next.neg_q4 <= 65_280 ==> out == next.neg_q4) && (next.neg_q4 > 65_280 ==> out
                == 65_280)
        }),
{
    ordinary_steps_fit(st, raw12, param, lead_base, base_value);
}

/// Strength zero hands the reading through and leaves every history alone.
pub proof fn bypass_keeps_state(st: FbAxisState, raw12: int, lead_base: int, base_value: int)
    ensures
        stepped(st, raw12, 0, lead_base, base_value) == (st, reading_out(raw12)),
{
}

/// A smoothing step never touches the leading history, nor a leading step the smoothing one.
pub proof fn branches_keep_apart(
    st: FbAxisState,
    raw12: int,
    param: int,
    lead_base: int,
    base_value: int,
)
    ensures
        ({
            let next = stepped(st, raw12, param, lead_base, base_value).0;
            &&& param >= 0 ==> next.neg_primed == st.neg_primed && next.neg_q4 == st.neg_q4
                && next.neg_prev_q4 == st.neg_prev_q4
            &&& param <= 0 ==> next.pos_primed == st.pos_primed && next.pos_q4 == st.pos_q4
        }),
{
}

/// After seeding at a reading, that reading moves nothing: whatever the strength, the output is
/// the reading and the state stays seeded at it.
pub proof fn seeded_axis_rests(raw12: int, param: int, lead_base: int, base_value: int)
    requires
        0 <= raw12 <= RAW12_MAX,
        -500 <= param <= 500,
        25 <= lead_base <= 200,
        12 <= base_value <= 100,
    ensures
        stepped(FbAxisState::seeded((raw12 * 16) as i32), raw12, param, lead_base, base_value) == (
            FbAxisState::seeded((raw12 * 16) as i32),
            reading_out(raw12),
        ),
{
    let q4 = raw12 * 16;
    if param > 0 {
        assert(base_value * (q4 - q4) == 0) by (nonlinear_arith);
        vstd::arithmetic::div_mod::lemma_div_basics(base_value + param);
    }
    if param < 0 {
        let p = -param;
        assert(lead_base * q4 + p * q4 == (p + lead_base) * q4) by (nonlinear_arith);
        vstd::arithmetic::div_mod::lemma_div_multiples_vanish(q4, p + lead_base);
        assert((p + 25) * (q4 - q4) == 0) by (nonlinear_arith);
        assert((p + lead_base) * q4 >= 0) by (nonlinear_arith)
            requires
                p + lead_base > 0,
                q4 >= 0,
        ;
    }
}

/// A fresh axis has no history in either branch, and one seeded with a reading has it in both.
pub proof fn fresh_axes_have_no_history(q4: i32)
    ensures
        ({
            let f = FbAxisState::fresh();
            !f.pos_primed && !f.neg_primed && f.pos_q4 == 0 && f.neg_q4 == 0 && f.neg_prev_q4 == 0
        }),
        ({
            let s = FbAxisState::seeded(q4);
            s.pos_primed && s.neg_primed && s.pos_q4 == q4 && s.neg_q4 == q4 && s.neg_prev_q4 == q4
        }),
{
}

} // verus!

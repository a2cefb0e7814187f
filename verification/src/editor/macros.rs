//! Editing macros and their steps.

use vstd::prelude::*;

use crate::editor::composer::{find_macro, is_defined};
use crate::editor::text::{append_decimal, digits};
use crate::map::profile::{MacroDef, MacroMouseButton, MacroStep};

verus! {

/// What a macro is called in a list: its name and number, or the number alone where it has no
/// name.
pub open spec fn macro_text(macros: Seq<MacroDef>, id: u16, at: int) -> Seq<char> {
    let number = "#"@ + digits(id as nat);
    if at < macros.len() && macros[at].name@.len() > 0 {
        macros[at].name@ + " ("@ + number + ")"@
    } else {
        number
    }
}

/// Whether `r` is what the macro of a number is called: by the first macro with that number.
pub open spec fn is_macro_label(macros: Seq<MacroDef>, id: u16, r: Seq<char>) -> bool {
    exists|at: int|
        {
            &&& 0 <= at <= macros.len()
            &&& at < macros.len() ==> macros[at].id == id
            &&& forall|k: int| 0 <= k < at ==> (#[trigger] macros[k]).id != id
            &&& r == #[trigger] macro_text(macros, id, at)
        }
}

/// What the macro of a number is called: by the first macro with that number.
pub fn macro_label(macros: &[MacroDef], id: u16) -> (r: String)
    ensures
        is_macro_label(macros@, id, r@),
{
    let at: usize = find_macro(macros, id);
    let mut number: String = String::new();
    number.append("#");
    append_decimal(&mut number, id as u32);
    assert(number@ =~= "#"@ + digits(id as nat));
    if at < macros.len() && !macros[at].name.as_str().is_empty() {
        let mut r: String = macros[at].name.clone();
        r.append(" (");
        r.append(number.as_str());
        r.append(")");
        assert(r@ =~= macro_text(macros@, id, at as int));
        r
    } else {
        assert(number@ == macro_text(macros@, id, at as int));
        number
    }
}

/// Whether `r` is the smallest number that no macro has.
pub open spec fn is_next_free(macros: Seq<MacroDef>, r: u16) -> bool {
    &&& !is_defined(macros, r)
    &&& forall|id: u16| id < r ==> #[trigger] is_defined(macros, id)
}

/// The smallest number that no macro has. Some number must be left.
pub fn next_free_id(macros: &[MacroDef]) -> (r: u16)
    requires
        exists|id: u16| !#[trigger] is_defined(macros@, id),
    ensures
        is_next_free(macros@, r),
{
    let ghost free: u16 = choose|id: u16| !#[trigger] is_defined(macros@, id);
    let mut id: u16 = 0;
    while find_macro(macros, id) < macros.len()
        invariant
            !is_defined(macros@, free),
            id <= free,
            forall|k: u16| k < id ==> #[trigger] is_defined(macros@, k),
        decreases 0xFFFF - id,
    {
        assert(is_defined(macros@, id));
        id = id + 1;
    }
    id
}

/// A number is left wherever there are fewer macros than numbers.
pub proof fn a_number_is_left(macros: Seq<MacroDef>)
    requires
        macros.len() < 0x1_0000,
    ensures
        exists|id: u16| !#[trigger] is_defined(macros, id),
{
    if forall|id: u16| #[trigger] is_defined(macros, id) {
        let ids: Set<int> = macros.map_values(|m: MacroDef| m.id as int).to_set();
        let all: Set<int> = vstd::set_lib::set_int_range(0, 0x1_0000);
        vstd::set_lib::lemma_int_range(0, 0x1_0000);
        assert forall|n: int| all.contains(n) implies ids.contains(n) by {
            assert(is_defined(macros, n as u16));
            let i = choose|i: int| 0 <= i < macros.len() && (#[trigger] macros[i]).id == n as u16;
            assert(macros.map_values(|m: MacroDef| m.id as int)[i] == n);
        }
        vstd::seq_lib::seq_to_set_is_finite(macros.map_values(|m: MacroDef| m.id as int));
        macros.map_values(|m: MacroDef| m.id as int).lemma_cardinality_of_set();
        vstd::set_lib::lemma_len_subset(all, ids);
        assert(false);
    }
}

/// Whether `r` is an empty macro with the smallest free number, named by it.
pub open spec fn is_fresh_macro(macros: Seq<MacroDef>, r: MacroDef) -> bool {
    &&& is_next_free(macros, r.id)
    &&& r.name@ == "macro "@ + digits(r.id as nat)
    &&& !r.repeat
    &&& r.steps@.len() == 0
}

/// Adds an empty macro with the smallest free number and returns a copy of it.
pub fn add_macro(macros: &mut Vec<MacroDef>) -> (r: MacroDef)
    requires
        exists|id: u16| !#[trigger] is_defined(old(macros)@, id),
    ensures
        is_fresh_macro(old(macros)@, r),
        final(macros)@.len() == old(macros)@.len() + 1,
        final(macros)@.drop_last() == old(macros)@,
        r.same_as(final(macros)@.last()),
{
    let id: u16 = next_free_id(macros.as_slice());
    let mut name: String = String::new();
    name.append("macro ");
    append_decimal(&mut name, id as u32);
    let def: MacroDef = MacroDef { id, name, repeat: false, steps: Vec::new() };
    assert(def.name@ =~= "macro "@ + digits(id as nat));
    let copy: MacroDef = def.clone();
    macros.push(def);
    assert(macros@.drop_last() =~= old(macros)@);
    copy
}

/// A kind of step that can be added.
#[derive(Clone, Copy, Debug, PartialEq, Eq, Structural)]
pub enum NewStep {
    KeyDown,
    KeyUp,
    MouseDown,
    MouseUp,
    Wait,
}

/// The step that is added: the key A by its scancode, the left button, or a wait of 20 ms.
pub open spec fn fresh_step(kind: NewStep) -> MacroStep {
    match kind {
        NewStep::KeyDown => MacroStep::KeyDown { vk: 0x41, scan_code: true },
        NewStep::KeyUp => MacroStep::KeyUp { vk: 0x41, scan_code: true },
        NewStep::MouseDown => MacroStep::MouseDown(MacroMouseButton::Left),
        NewStep::MouseUp => MacroStep::MouseUp(MacroMouseButton::Left),
        NewStep::Wait => MacroStep::Wait { ms: 20 },
    }
}

/// Adds a step at the end.
pub fn add_step(steps: &mut Vec<MacroStep>, kind: NewStep)
    ensures
        final(steps)@ == old(steps)@.push(fresh_step(kind)),
{
    let step: MacroStep = match kind {
        NewStep::KeyDown => MacroStep::KeyDown { vk: 0x41, scan_code: true },
        NewStep::KeyUp => MacroStep::KeyUp { vk: 0x41, scan_code: true },
        NewStep::MouseDown => MacroStep::MouseDown(MacroMouseButton::Left),
        NewStep::MouseUp => MacroStep::MouseUp(MacroMouseButton::Left),
        NewStep::Wait => MacroStep::Wait { ms: 20 },
    };
    steps.push(step);
}

/// What was asked of the list of steps in one frame.
#[derive(Clone, Copy, Debug, PartialEq, Eq, Structural)]
pub struct StepClicks {
    pub remove: Option<usize>,
    pub move_up: Option<usize>,
    pub move_down: Option<usize>,
}

/// Two neighbours of a list exchanged.
pub open spec fn exchanged(s: Seq<MacroStep>, i: int, j: int) -> Seq<MacroStep> {
    s.update(i, s[j]).update(j, s[i])
}

impl StepClicks {
    /// Whether what was asked fits a list of this length.
    pub open spec fn fits(self, len: nat) -> bool {
        &&& self.remove matches Some(i) ==> i < len
        &&& self.move_up matches Some(i) ==> 0 < i < len
        &&& self.move_down matches Some(i) ==> i + 1 < len
    }

    /// The steps after one of the requests: a removal, else a move up, else a move down.
    pub open spec fn applied(self, s: Seq<MacroStep>) -> Seq<MacroStep> {
        if let Some(i) = self.remove {
            s.remove(i as int)
        } else if let Some(i) = self.move_up {
            exchanged(s, i as int, i - 1)
        } else if let Some(i) = self.move_down {
            exchanged(s, i as int, i + 1)
        } else {
            s
        }
    }

    /// Applies one of the requests and tells whether there was one.
    pub fn apply(&self, steps: &mut Vec<MacroStep>) -> (r: bool)
        requires
            self.fits(old(steps)@.len()),
        ensures
            final(steps)@ == self.applied(old(steps)@),
            r == (self.remove is Some || self.move_up is Some || self.move_down is Some),
    {
        if let Some(i) = self.remove {
            steps.remove(i);
            true
        } else if let Some(i) = self.move_up {
            exchange(steps, i, i - 1);
            true
        } else if let Some(i) = self.move_down {
            assert(i + 1 < steps.len());
            exchange(steps, i, i + 1);
            true
        } else {
            false
        }
    }
}

/// Exchanges two steps.
fn exchange(steps: &mut Vec<MacroStep>, i: usize, j: usize)
    requires
        i < old(steps)@.len(),
        j < old(steps)@.len(),
    ensures
        final(steps)@ == exchanged(old(steps)@, i as int, j as int),
{
    let a: MacroStep = steps[i];
    let b: MacroStep = steps[j];
    steps.set(i, b);
    steps.set(j, a);
}

/// Moving a step up and the step now below it up again restores the list.
pub proof fn moving_back_restores(s: Seq<MacroStep>, i: int)
    requires
        0 < i < s.len(),
    ensures
        exchanged(exchanged(s, i, i - 1), i - 1, i) == s,
{
    assert(exchanged(exchanged(s, i, i - 1), i - 1, i) =~= s);
}

/// A macro goes by its name with its number behind it, or by its number alone where it has no name
/// or is not defined; of several macros with the number the first counts.
pub proof fn labels_name_the_first_macro(macros: Seq<MacroDef>, id: u16, i: int, r: Seq<char>)
    requires
        is_macro_label(macros, id, r),
        0 <= i < macros.len() ==> macros[i].id == id && forall|k: int|
            0 <= k < i ==> (#[trigger] macros[k]).id != id,
    ensures
        0 <= i < macros.len() && macros[i].name@.len() > 0 ==> r == macros[i].name@ + seq![
            ' ',
            '(',
            '#',
        ] + digits(id as nat) + seq![')'],
        0 <= i < macros.len() && macros[i].name@.len() == 0 ==> r == seq!['#'] + digits(id as nat),
        !is_defined(macros, id) ==> r == seq!['#'] + digits(id as nat),
{
    reveal_strlit("#");
    reveal_strlit(" (");
    reveal_strlit(")");
    let at = choose|at: int|
        {
            &&& 0 <= at <= macros.len()
            &&& at < macros.len() ==> macros[at].id == id
            &&& forall|k: int| 0 <= k < at ==> (#[trigger] macros[k]).id != id
            &&& r == #[trigger] macro_text(macros, id, at)
        };
    if 0 <= i < macros.len() {
        if at < i {
            assert(macros[at].id != id);
        } else if i < at {
            assert(macros[i].id != id);
        }
        assert(r =~= if macros[i].name@.len() > 0 {
            macros[i].name@ + seq![' ', '(', '#'] + digits(id as nat) + seq![')']
        } else {
            seq!['#'] + digits(id as nat)
        });
    }
    if !is_defined(macros, id) {
        if at < macros.len() {
            assert(macros[at].id == id);
        }
        assert(r =~= seq!['#'] + digits(id as nat));
    }
}

/// The next free number is the one number below which all are taken and which is not: no other has
/// both, and an empty list starts at zero.
pub proof fn next_number_is_the_smallest(macros: Seq<MacroDef>, a: u16, b: u16)
    requires
        is_next_free(macros, a),
    ensures
        !is_defined(macros, b) ==> a <= b,
        is_next_free(macros, b) ==> a == b,
        macros.len() == 0 ==> a == 0,
{
    if b < a {
        assert(is_defined(macros, b));
    }
    if a < b && is_next_free(macros, b) {
        assert(is_defined(macros, a));
    }
    if macros.len() == 0 && a > 0 {
        assert(is_defined(macros, 0));
    }
}

/// A fresh macro has the next free number in its name, no steps, and runs once.
pub proof fn fresh_macros_are_empty(macros: Seq<MacroDef>, r: MacroDef)
    requires
        is_fresh_macro(macros, r),
    ensures
        is_next_free(macros, r.id),
        r.name@ == seq!['m', 'a', 'c', 'r', 'o', ' '] + digits(r.id as nat),
        r.steps@.len() == 0 && !r.repeat,
{
    reveal_strlit("macro ");
    assert(r.name@ =~= seq!['m', 'a', 'c', 'r', 'o', ' '] + digits(r.id as nat));
}

/// A step that is added is of the kind that was asked for: key A by its scancode, the left button,
/// or 20 ms.
pub proof fn fresh_steps_are_of_their_kind(kind: NewStep)
    ensures
        kind is KeyDown ==> (fresh_step(kind) matches MacroStep::KeyDown { vk, scan_code } && vk
            == 0x41 && scan_code),
        kind is KeyUp ==> (fresh_step(kind) matches MacroStep::KeyUp { vk, scan_code } && vk == 0x41
            && scan_code),
        kind is MouseDown ==> (fresh_step(kind) matches MacroStep::MouseDown(b) && b is Left),
        kind is MouseUp ==> (fresh_step(kind) matches MacroStep::MouseUp(b) && b is Left),
        kind is Wait ==> (fresh_step(kind) matches MacroStep::Wait { ms } && ms == 20),
{
}

/// A removal takes one step away and closes the gap; a move up or down exchanges a step with the one
/// above or below it; a removal goes before a move, and a move up before one down.
pub proof fn clicks_change_one_place(clicks: StepClicks, s: Seq<MacroStep>, j: int)
    requires
        clicks.fits(s.len()),
        0 <= j < s.len(),
    ensures
        clicks.remove matches Some(i) ==> {
            let r = clicks.applied(s);
            &&& r.len() == s.len() - 1
            &&& j < i ==> r[j] == s[j]
            &&& j > i ==> r[j - 1] == s[j]
        },
        clicks.remove is None && clicks.move_up is Some ==> ({
            let i = clicks.move_up->0 as int;
            let r = clicks.applied(s);
            &&& r.len() == s.len()
            &&& r[i - 1] == s[i] && r[i] == s[i - 1]
            &&& j != i && j != i - 1 ==> r[j] == s[j]
        }),
        clicks.remove is None && clicks.move_up is None && clicks.move_down is Some ==> ({
            let i = clicks.move_down->0 as int;
            let r = clicks.applied(s);
            &&& r.len() == s.len()
            &&& r[i + 1] == s[i] && r[i] == s[i + 1]
            &&& j != i && j != i + 1 ==> r[j] == s[j]
        }),
        clicks.remove is None && clicks.move_up is None && clicks.move_down is None
            ==> clicks.applied(s) == s,
{
}

} // verus!

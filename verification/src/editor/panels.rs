//! What the panels decide about their inputs.

use vstd::prelude::*;

use crate::editor::message::ControlMsg;
use crate::editor::mirror::StructMirror;
use crate::editor::rules::{effective, reconciling};
use crate::editor::session::EditSession;
use crate::editor::text::{copy_name, trim, trimmed};
use crate::map::profile::GyroMode;
use crate::names::{name_order, NameOrder};
use crate::trigger::TriggerMode;

verus! {

/// Whether a trigger mode has a light pull of its own.
pub open spec fn has_stages(mode: TriggerMode) -> bool {
    mode == TriggerMode::TwoStage || mode == TriggerMode::HipFire
}

/// Whether a trigger mode has a light pull of its own, with settings to offer.
pub fn offers_stages(mode: TriggerMode) -> (r: bool)
    ensures
        r == has_stages(mode),
{
    match mode {
        TriggerMode::TwoStage | TriggerMode::HipFire => true,
        TriggerMode::Normal | TriggerMode::Unknown => false,
    }
}

/// Milliseconds as microseconds: at least one millisecond, and at most what fits.
pub open spec fn window_of_ms(ms: u32) -> int {
    if ms == 0 {
        1000
    } else if ms * 1000 > 0xFFFF_FFFF {
        0xFFFF_FFFF
    } else {
        ms * 1000
    }
}

/// The hip-fire window for a number of milliseconds: at least one, and at most what fits.
pub fn hip_fire_window_us(ms: u32) -> (r: u32)
    ensures
        r == window_of_ms(ms),
{
    if ms == 0 {
        1000
    } else if ms > 4_294_967 {
        0xFFFF_FFFF
    } else {
        ms * 1000
    }
}

/// Whether a gyro mode lets the gyro move the mouse at all.
pub open spec fn gyro_can_move(mode: GyroMode) -> bool {
    !(mode == GyroMode::Off || mode == GyroMode::Unknown)
}

/// Whether a gyro mode lets the gyro move the mouse at all.
pub fn gyro_is_enabled(mode: GyroMode) -> (r: bool)
    ensures
        r == gyro_can_move(mode),
{
    match mode {
        GyroMode::Off | GyroMode::Unknown => false,
        GyroMode::AlwaysOn | GyroMode::TriggerHeld => true,
    }
}

/// The name that is offered: what was typed, or the active profile's first copy.
pub open spec fn import_name(typed: Seq<char>, active: Seq<char>) -> Seq<char> {
    if trimmed(typed).len() == 0 {
        copy_name(active)
    } else {
        typed
    }
}

/// The name under which a profile's text is offered for import: what was typed, or the active
/// profile's first copy where nothing was.
pub fn import_name_or_copy(typed: &str, active: &str) -> (r: String)
    ensures
        r@ == import_name(typed@, active@),
{
    if trim(typed).as_str().is_empty() {
        let mut r: String = active.to_owned();
        r.append(" copy");
        r
    } else {
        typed.to_owned()
    }
}

/// Whether `r` is what importing a text under a name sends.
pub open spec fn is_import(typed: Seq<char>, toml: Seq<char>, r: Option<ControlMsg>) -> bool {
    &&& r is Some <==> trimmed(typed).len() > 0 && trimmed(toml).len() > 0
    &&& r matches Some(msg) ==> {
        &&& msg matches ControlMsg::ImportProfile { name, toml: text }
        &&& name@ == trimmed(typed)
        &&& text@ == toml
    }
}

/// The message that imports a profile, where both a name and a text were given.
pub fn import_request(typed: &str, toml: &str) -> (r: Option<ControlMsg>)
    ensures
        is_import(typed@, toml@, r),
{
    let name: String = trim(typed);
    if name.as_str().is_empty() || trim(toml).as_str().is_empty() {
        None
    } else {
        Some(ControlMsg::ImportProfile { name, toml: toml.to_owned() })
    }
}

/// Whether `after` and `r` are what creating the profile whose name was typed leaves and sends.
pub open spec fn new_profile_submitted(
    before: EditSession,
    after: EditSession,
    r: Option<ControlMsg>,
) -> bool {
    let typed = trimmed(before.structure.new_profile_name@);
    let was = before.structure.profiles@;
    let now = after.structure.profiles@;
    &&& typed.len() == 0 ==> r is None && after == before
    &&& typed.len() > 0 ==> {
        &&& after.structure.new_profile_name@.len() == 0
        &&& after == (EditSession {
            structure: StructMirror {
                profiles: after.structure.profiles,
                new_profile_name: after.structure.new_profile_name,
                ..before.structure
            },
            ..before
        })
        &&& was.contains_key(typed) ==> r is None && now == was
        &&& !was.contains_key(typed) ==> {
            &&& r matches Some(ControlMsg::CreateProfile { name })
            &&& name@ == typed
            &&& now == was.insert(typed, now[typed])
            &&& now[typed].name@ == typed
            &&& now[typed].untouched()
        }
    }
}

/// Whether a typed name asks for a profile to be renamed.
pub open spec fn is_rename(id: Seq<char>, typed: Seq<char>) -> bool {
    trimmed(typed) != id && trimmed(typed).len() > 0
}

/// Whether one of this many profiles may be deleted.
pub open spec fn deletion_allowed(count: nat) -> bool {
    count != 1
}

/// Whether `after` and `r` are what choosing a profile for a device leaves and sends.
pub open spec fn assignment_chosen(
    before: EditSession,
    after: EditSession,
    device: String,
    chosen: String,
    r: Option<ControlMsg>,
) -> bool {
    let held = before.structure.assignments@;
    let current = if held.contains_key(device@) {
        held[device@]@
    } else {
        Seq::<char>::empty()
    };
    &&& chosen@.len() == 0 || chosen@ == current ==> r is None && after == before
    &&& chosen@.len() > 0 && chosen@ != current ==> {
        &&& r == Some(ControlMsg::SetAssignment { device, profile: chosen })
        &&& after.structure.assignments@ == held.insert(device@, chosen)
        &&& after.structure == (StructMirror {
            assignments: after.structure.assignments,
            ..before.structure
        })
        &&& after == (EditSession {
            structure: after.structure,
            mirror: after.mirror,
            ..before
        })
        &&& device@ != before.active_device@ ==> after.mirror
            == before.mirror
        &&& device@ == before.active_device@ ==> after.mirror.shows_entry(
            chosen@,
            before.structure.profiles@,
        )
    }
}

/// Whether `after` and `r` are what ending a frame of the rule table leaves and sends.
pub open spec fn rules_finished(
    before: EditSession,
    after: EditSession,
    delete: Option<usize>,
    commit: bool,
    r: Seq<ControlMsg>,
) -> bool {
    &&& ({
        let live = before.structure.auto_switch.rules@;
        let held = before.structure.auto_switch_committed@;
        match delete {
            Some(i) => if i < live.len() {
                &&& r == reconciling(held, live.remove(i as int))
                &&& after.structure.auto_switch.rules@ == live.remove(i as int)
                &&& after.structure.auto_switch_committed@ == effective(
                    live.remove(i as int),
                )
            } else {
                r.len() == 0 && after == before
            },
            None => if commit {
                &&& r == reconciling(held, live)
                &&& after.structure.auto_switch == before.structure.auto_switch
                &&& after.structure.auto_switch_committed@ == effective(live)
            } else {
                r.len() == 0 && after == before
            },
        }
    })
    &&& after.structure.auto_switch.enabled == before.structure.auto_switch.enabled
    &&& after == (EditSession {
        structure: StructMirror {
            auto_switch: after.structure.auto_switch,
            auto_switch_committed: after.structure.auto_switch_committed,
            ..before.structure
        },
        ..before
    })
}

impl EditSession {
    /// Creates the profile whose name was typed and clears the input; nothing happens where no
    /// name was typed.
    pub fn submit_new_profile(&mut self) -> (r: Option<ControlMsg>)
        ensures
            new_profile_submitted(*old(self), *final(self), r),
    {
        let id: String = trim(self.structure.new_profile_name.as_str());
        if id.as_str().is_empty() {
            return None;
        }
        let r: Option<ControlMsg> = self.create_profile(id);
        self.structure.new_profile_name = String::new();
        r
    }

    /// Whether a typed name asks for a profile to be renamed: it is a name, and another one.
    pub fn asks_rename(id: &str, typed: &str) -> (r: bool)
        ensures
            r == is_rename(id@, typed@),
    {
        let name: String = trim(typed);
        name_order(name.as_str(), id) != NameOrder::Same && !name.as_str().is_empty()
    }

    /// Whether profiles may be deleted: the last one may not.
    pub fn may_delete(&self) -> (r: bool)
        ensures
            r == deletion_allowed(self.structure.profiles@.dom().len()),
    {
        self.structure.profiles.len() != 1
    }

    /// Takes over the profile chosen for a device, where it is one and another than before.
    pub fn choose_assignment(&mut self, device: String, chosen: String) -> (r: Option<ControlMsg>)
        ensures
            assignment_chosen(*old(self), *final(self), device, chosen, r),
    {
        let same: bool = match self.assignment_for(device.as_str()) {
            Some(current) => *current == chosen,
            None => chosen.as_str().is_empty(),
        };
        if same || chosen.as_str().is_empty() {
            assert(chosen@.len() == 0 ==> chosen@ =~= Seq::<char>::empty());
            None
        } else {
            Some(self.set_assignment(device, chosen))
        }
    }

    /// Ends a frame of the rule table: a deletion goes first, else a finished edit is sent, else
    /// nothing happens.
    pub fn finish_rules(&mut self, delete: Option<usize>, commit: bool) -> (r: Vec<ControlMsg>)
        ensures
            rules_finished(*old(self), *final(self), delete, commit, r@),
    {
        if let Some(i) = delete {
            self.delete_autoswitch_rule(i)
        } else if commit {
            self.reconcile_autoswitch()
        } else {
            Vec::new()
        }
    }
}

} // verus!

//! An editing session: the mirrors, and every edit with the messages that it sends.

use vstd::prelude::*;

use crate::config::{AutoSwitchRule, HidHideConfig, ThreadConfig};
use crate::editor::composer::BindingEditor;
use crate::editor::message::{ControlMsg, Stick, Trigger};
use crate::editor::mirror::{
    assigned, drop_assignments, repoint_assignments, repointed, without_profile, ProfileMirror,
    Snapshot, StructMirror,
};
use crate::editor::rules::{add_blank, effective, has_blank, is_blank_key, reconcile, reconciling};
use crate::editor::screen::Tab;
use crate::map::profile::{GyroSettings, MacroDef, Profile, TouchpadSettings};
use crate::names::{precedes, NameMap};
use crate::output::state::PadTarget;
use crate::trigger::TriggerSettings;

verus! {

/// Everything that the editor holds.
#[derive(Debug)]
pub struct EditSession {
    /// The device that is driven.
    pub active_device: String,
    /// The profile being edited.
    pub mirror: ProfileMirror,
    pub structure: StructMirror,
    pub thread: ThreadConfig,
    pub hidhide: HidHideConfig,
    /// The tab that is shown.
    pub tab: Tab,
    pub binding_editor: BindingEditor,
}

/// A profile tree in which one profile may have been changed.
pub open spec fn with_changed(
    profiles: Map<Seq<char>, Profile>,
    id: Seq<char>,
    changed: Profile,
) -> Map<Seq<char>, Profile> {
    if profiles.contains_key(id) {
        profiles.insert(id, changed)
    } else {
        profiles
    }
}

/// A rule that follows a profile's new name.
pub open spec fn rule_repointed(rule: AutoSwitchRule, from: String, to: String) -> AutoSwitchRule {
    if rule.profile@ == from@ {
        AutoSwitchRule { profile: to, ..rule }
    } else {
        rule
    }
}

/// Lets rules follow a profile's new name.
fn repoint_rules(rules: &mut Vec<AutoSwitchRule>, from: &String, to: &String)
    ensures
        final(rules)@ == old(rules)@.map_values(|r: AutoSwitchRule| rule_repointed(r, *from, *to)),
{
    let mut i: usize = 0;
    while i < rules.len()
        invariant
            i <= rules@.len(),
            rules@.len() == old(rules)@.len(),
            forall|k: int|
                0 <= k < i ==> #[trigger] rules@[k] == rule_repointed(old(rules)@[k], *from, *to),
            forall|k: int| i <= k < rules@.len() ==> #[trigger] rules@[k] == old(rules)@[k],
        decreases rules@.len() - i,
    {
        if rules[i].profile == *from {
            let rule: AutoSwitchRule = AutoSwitchRule {
                device: rules[i].device.clone(),
                exe_substr: rules[i].exe_substr.clone(),
                title_substr: rules[i].title_substr.clone(),
                profile: to.clone(),
            };
            rules.set(i, rule);
        }
        i = i + 1;
    }
    assert(rules@ =~= old(rules)@.map_values(|r: AutoSwitchRule| rule_repointed(r, *from, *to)));
}

/// Whether `after` and `r` are what creating a profile leaves and sends.
pub open spec fn profile_created(
    before: EditSession,
    after: EditSession,
    id: String,
    r: Option<ControlMsg>,
) -> bool {
    &&& before.structure.profiles@.contains_key(id@) ==> r is None && after == before
    &&& !before.structure.profiles@.contains_key(id@) ==> {
        &&& r == Some(ControlMsg::CreateProfile { name: id })
        &&& after == before.with_profiles(after.structure.profiles)
        &&& after.structure.profiles@ == before.structure.profiles@.insert(
            id@,
            after.structure.profiles@[id@],
        )
        &&& after.structure.profiles@[id@].name@ == id@
        &&& after.structure.profiles@[id@].untouched()
    }
}

/// Whether `after` and `r` are what renaming a profile leaves and sends.
pub open spec fn profile_renamed(
    before: EditSession,
    after: EditSession,
    from: String,
    to: String,
    r: Option<ControlMsg>,
) -> bool {
    let was = before.structure.profiles@;
    let possible = was.contains_key(from@) && !was.contains_key(to@);
    &&& !possible ==> r is None && after == before
    &&& possible ==> {
        &&& r == Some(ControlMsg::RenameProfile { from, to })
        &&& after.structure.profiles@ == was.remove(from@).insert(
            to@,
            Profile { name: to, ..was[from@] },
        )
        &&& after.structure.assignments@ == repointed(
            before.structure.assignments@,
            from,
            to,
        )
        &&& after.structure.auto_switch.rules@
            == before.structure.auto_switch.rules@.map_values(
            |rule: AutoSwitchRule| rule_repointed(rule, from, to),
        )
        &&& after.structure.auto_switch.enabled
            == before.structure.auto_switch.enabled
        &&& after.structure.auto_switch_committed
            == before.structure.auto_switch_committed
        &&& after.structure.devices == before.structure.devices
        &&& after.structure.new_profile_name
            == before.structure.new_profile_name
        &&& after.mirror == (ProfileMirror {
            profile: if before.mirror.profile@ == from@ {
                to
            } else {
                before.mirror.profile
            },
            ..before.mirror
        })
        &&& after == (EditSession {
            structure: after.structure,
            mirror: after.mirror,
            ..before
        })
    }
}

/// Whether `after` and `r` are what copying a profile leaves and sends.
pub open spec fn profile_duplicated(
    before: EditSession,
    after: EditSession,
    src: String,
    dst: String,
    r: Option<ControlMsg>,
) -> bool {
    let was = before.structure.profiles@;
    let possible = was.contains_key(src@) && !was.contains_key(dst@);
    &&& !possible ==> r is None && after == before
    &&& possible ==> {
        &&& r == Some(ControlMsg::DuplicateProfile { src, dst })
        &&& after == before.with_profiles(after.structure.profiles)
        &&& after.structure.profiles@ == was.insert(
            dst@,
            after.structure.profiles@[dst@],
        )
        &&& after.structure.profiles@[dst@].name == dst
        &&& after.structure.profiles@[dst@].same_settings(was[src@])
    }
}

/// Whether `after` and `r` are what deleting a profile leaves and sends.
pub open spec fn profile_deleted(
    before: EditSession,
    after: EditSession,
    id: String,
    r: Option<ControlMsg>,
) -> bool {
    let was = before.structure.profiles@;
    let left = was.remove(id@);
    &&& !was.contains_key(id@) ==> r is None && after == before
    &&& was.contains_key(id@) ==> {
        &&& r == Some(ControlMsg::DeleteProfile { name: id })
        &&& after.structure.profiles@ == left
        &&& after.structure.assignments@ == without_profile(
            before.structure.assignments@,
            id@,
        )
        &&& after.structure == (StructMirror {
            profiles: after.structure.profiles,
            assignments: after.structure.assignments,
            ..before.structure
        })
        &&& after == (EditSession {
            structure: after.structure,
            mirror: after.mirror,
            ..before
        })
        &&& before.mirror.profile@ != id@ ==> after.mirror == before.mirror
        &&& left == Map::<Seq<char>, Profile>::empty() ==> after.mirror == before.mirror
        &&& before.mirror.profile@ == id@ && left != Map::<
            Seq<char>,
            Profile,
        >::empty() ==> {
            &&& left.contains_key(after.mirror.profile@)
            &&& forall|n: Seq<char>| #[trigger]
                left.contains_key(n) ==> n == after.mirror.profile@ || precedes(
                    after.mirror.profile@,
                    n,
                )
            &&& after.mirror.shows(
                after.mirror.profile@,
                left[after.mirror.profile@],
            )
        }
    }
}

/// Whether `after` and `r` are what choosing a pad for a profile leaves and sends.
pub open spec fn output_kind_set(
    before: EditSession,
    after: EditSession,
    id: String,
    kind: PadTarget,
    r: ControlMsg,
) -> bool {
    &&& r == (ControlMsg::SetOutputKind { profile: id, kind })
    &&& after.structure.profiles@ == with_changed(
        before.structure.profiles@,
        id@,
        Profile { output_kind: kind, ..before.structure.profiles@[id@] },
    )
    &&& after == before.with_profiles(after.structure.profiles)
}

/// Whether `after` and `r` are what assigning a profile to a device leaves and sends.
pub open spec fn assignment_set(
    before: EditSession,
    after: EditSession,
    device: String,
    profile: String,
    r: ControlMsg,
) -> bool {
    &&& r == (ControlMsg::SetAssignment { device, profile })
    &&& after.structure.assignments@ == before.structure.assignments@.insert(
        device@,
        profile,
    )
    &&& after.structure == (StructMirror {
        assignments: after.structure.assignments,
        ..before.structure
    })
    &&& after == (EditSession {
        structure: after.structure,
        mirror: after.mirror,
        ..before
    })
    &&& device@ != before.active_device@ ==> after.mirror == before.mirror
    &&& device@ == before.active_device@ ==> after.mirror.shows_entry(
        profile@,
        before.structure.profiles@,
    )
}

/// Whether `after` is what changing the gyro settings leaves.
pub open spec fn gyro_set(
    before: EditSession,
    after: EditSession,
    gyro: GyroSettings,
) -> bool {
    &&& after.structure.profiles@ == with_changed(
        before.structure.profiles@,
        before.mirror.profile@,
        Profile { gyro, ..before.structure.profiles@[before.mirror.profile@] },
    )
    &&& after == before.with_profiles(after.structure.profiles)
}

/// Whether `after` is what changing the touchpad settings leaves.
pub open spec fn touchpad_set(
    before: EditSession,
    after: EditSession,
    touchpad: TouchpadSettings,
) -> bool {
    &&& after.structure.profiles@ == with_changed(
        before.structure.profiles@,
        before.mirror.profile@,
        Profile { touchpad, ..before.structure.profiles@[before.mirror.profile@] },
    )
    &&& after == before.with_profiles(after.structure.profiles)
}

/// Whether `after` is what changing a trigger's settings leaves.
pub open spec fn trigger_set(
    before: EditSession,
    after: EditSession,
    trigger: Trigger,
    settings: TriggerSettings,
) -> bool {
    &&& after.structure.profiles@ == with_changed(
        before.structure.profiles@,
        before.mirror.profile@,
        (match trigger {
            Trigger::Left => Profile {
                l2: settings,
                ..before.structure.profiles@[before.mirror.profile@]
            },
            Trigger::Right => Profile {
                r2: settings,
                ..before.structure.profiles@[before.mirror.profile@]
            },
        }),
    )
    &&& after == before.with_profiles(after.structure.profiles)
}

/// Whether `after` and `r` are what taking over the macros leaves and sends.
pub open spec fn macros_committed(
    before: EditSession,
    after: EditSession,
    list: Vec<MacroDef>,
    deleted: Option<usize>,
    changed: Option<usize>,
    r: Option<ControlMsg>,
) -> bool {
    &&& after == (EditSession {
        mirror: ProfileMirror { macros: after.mirror.macros, ..before.mirror },
        ..before
    })
    &&& match (deleted, changed) {
        (Some(i), _) => {
            &&& after.mirror.macros@ == list@.remove(i as int)
            &&& r == Some(
                ControlMsg::DeleteMacro {
                    profile: before.mirror.profile,
                    id: list@[i as int].id,
                },
            )
        },
        (None, Some(i)) => {
            &&& after.mirror.macros@ == list@
            &&& r matches Some(ControlMsg::UpsertMacro { profile, def })
            &&& profile == before.mirror.profile
            &&& def.same_as(list@[i as int])
        },
        (None, None) => after.mirror.macros@ == list@ && r is None,
    }
}

/// Whether `after` and `r` are what deleting a switching rule leaves and sends.
pub open spec fn rule_deleted(
    before: EditSession,
    after: EditSession,
    index: usize,
    r: Seq<ControlMsg>,
) -> bool {
    &&& index >= before.structure.auto_switch.rules@.len() ==> r.len() == 0 && after == before
    &&& index < before.structure.auto_switch.rules@.len() ==> {
        let left = before.structure.auto_switch.rules@.remove(index as int);
        &&& after.structure.auto_switch.rules@ == left
        &&& r == reconciling(before.structure.auto_switch_committed@, left)
        &&& after.structure.auto_switch_committed@ == effective(left)
        &&& after.structure.auto_switch.enabled
            == before.structure.auto_switch.enabled
        &&& after == (EditSession {
            structure: StructMirror {
                auto_switch: after.structure.auto_switch,
                auto_switch_committed: after.structure.auto_switch_committed,
                ..before.structure
            },
            ..before
        })
    }
}

impl EditSession {
    /// A session on a configuration: it edits the active device's profile and shows the mapping,
    /// with nothing chosen or typed yet.
    pub fn new(snapshot: Snapshot) -> (r: EditSession)
        ensures
            r.active_device == snapshot.active_device,
            r.mirror.shows_entry(
                assigned(snapshot.assignments@, snapshot.active_device@),
                snapshot.profiles@,
            ),
            r.structure.profiles@ == snapshot.profiles@,
            r.structure.devices@ == snapshot.devices@,
            r.structure.assignments@ == snapshot.assignments@,
            r.structure.auto_switch == snapshot.auto_switch,
            r.structure.auto_switch_committed@ == snapshot.auto_switch.rules@,
            r.thread == snapshot.thread,
            r.hidhide == snapshot.hidhide,
            r.tab == Tab::Mapping,
            r.binding_editor.untouched(),
            r.structure.new_profile_name@.len() == 0,
    {
        let active_device: String = snapshot.active_device.clone();
        let thread: ThreadConfig = snapshot.thread.clone();
        let hidhide: HidHideConfig = snapshot.hidhide.clone();
        let mirror: ProfileMirror = ProfileMirror::from_snapshot(&snapshot, active_device.as_str());
        let structure: StructMirror = StructMirror::from_snapshot(snapshot);
        EditSession {
            active_device,
            mirror,
            structure,
            thread,
            hidhide,
            tab: Tab::Mapping,
            binding_editor: BindingEditor::default(),
        }
    }

    /// The session with another profile tree.
    pub open spec fn with_profiles(self, profiles: NameMap<Profile>) -> EditSession {
        EditSession { structure: StructMirror { profiles, ..self.structure }, ..self }
    }

    /// The profile of a device, if it has one.
    pub fn assignment_for(&self, device: &str) -> (r: Option<&String>)
        ensures
            r == (if self.structure.assignments@.contains_key(device@) {
                Some(&self.structure.assignments@[device@])
            } else {
                None
            }),
    {
        self.structure.assignments.get(device)
    }

    /// The pad that a profile drives; the Xbox pad where there is no such profile.
    pub fn output_kind_for(&self, id: &str) -> (r: PadTarget)
        ensures
            r == (if self.structure.profiles@.contains_key(id@) {
                self.structure.profiles@[id@].output_kind
            } else {
                PadTarget::X360
            }),
    {
        match self.structure.profiles.get(id) {
            Some(profile) => profile.output_kind,
            None => PadTarget::X360,
        }
    }

    /// Turns to another profile: the session then edits what the tree has under that name.
    pub fn select_profile(&mut self, id: &str)
        ensures
            final(self).mirror.shows_entry(id@, old(self).structure.profiles@),
            *final(self) == (EditSession { mirror: final(self).mirror, ..*old(self) }),
    {
        self.mirror = ProfileMirror::from_entry(id, &self.structure.profiles);
    }

    /// Creates an untouched profile, unless there is one of that name.
    pub fn create_profile(&mut self, id: String) -> (r: Option<ControlMsg>)
        ensures
            profile_created(*old(self), *final(self), id, r),
    {
        if self.structure.profiles.contains_key(id.as_str()) {
            return None;
        }
        let mut profile: Profile = Profile::default();
        profile.name = id.clone();
        self.structure.profiles.insert(id.clone(), profile);
        Some(ControlMsg::CreateProfile { name: id })
    }

    /// Renames a profile and lets assignments, rules and the session follow. Nothing happens
    /// where there is no such profile or the new name is taken.
    pub fn rename_profile(&mut self, from: String, to: String) -> (r: Option<ControlMsg>)
        ensures
            profile_renamed(*old(self), *final(self), from, to, r),
    {
        if !self.structure.profiles.contains_key(from.as_str())
            || self.structure.profiles.contains_key(to.as_str()) {
            return None;
        }
        if let Some(held) = self.structure.profiles.remove(from.as_str()) {
            let mut profile: Profile = held;
            profile.name = to.clone();
            self.structure.profiles.insert(to.clone(), profile);
        }
        repoint_assignments(&mut self.structure.assignments, &from, &to);
        repoint_rules(&mut self.structure.auto_switch.rules, &from, &to);
        if self.mirror.profile == from {
            self.mirror.profile = to.clone();
        }
        Some(ControlMsg::RenameProfile { from, to })
    }

    /// Copies a profile under a new name. Nothing happens where there is no such profile or the
    /// new name is taken.
    pub fn duplicate_profile(&mut self, src: String, dst: String) -> (r: Option<ControlMsg>)
        ensures
            profile_duplicated(*old(self), *final(self), src, dst, r),
    {
        if self.structure.profiles.contains_key(dst.as_str()) {
            return None;
        }
        let copy: Profile = match self.structure.profiles.get(src.as_str()) {
            Some(profile) => profile.copy_as(dst.clone()),
            None => return None,
        };
        self.structure.profiles.insert(dst.clone(), copy);
        Some(ControlMsg::DuplicateProfile { src, dst })
    }

    /// Deletes a profile with the assignments to it. Where the session edits that profile it turns
    /// to the first one that is left, if one is. Nothing happens where there is no such profile.
    pub fn delete_profile(&mut self, id: String) -> (r: Option<ControlMsg>)
        ensures
            profile_deleted(*old(self), *final(self), id, r),
    {
        if !self.structure.profiles.contains_key(id.as_str()) {
            return None;
        }
        self.structure.profiles.remove(id.as_str());
        drop_assignments(&mut self.structure.assignments, &id);
        let names: Vec<String> = self.structure.profiles.names();
        let ghost left: Map<Seq<char>, Profile> = self.structure.profiles@;
        if names.len() == 0 {
            assert(left =~= Map::<Seq<char>, Profile>::empty());
        } else {
            proof {
                let first: Seq<char> = names@[0]@;
                assert(left.contains_key(first));
                assert(left != Map::<Seq<char>, Profile>::empty());
                assert forall|n: Seq<char>| #[trigger] left.contains_key(n) implies n == first
                    || precedes(first, n) by {
                    let k = choose|k: int| 0 <= k < names@.len() && #[trigger] names@[k]@ == n;
                    if k > 0 {
                        assert(precedes(names@[0]@, names@[k]@));
                    }
                }
            }
            if self.mirror.profile == id {
                self.select_profile(names[0].as_str());
            }
        }
        Some(ControlMsg::DeleteProfile { name: id })
    }

    /// Sets the pad that a profile drives, where there is such a profile.
    pub fn set_output_kind(&mut self, id: String, kind: PadTarget) -> (r: ControlMsg)
        ensures
            output_kind_set(*old(self), *final(self), id, kind, r),
    {
        if let Some(held) = self.structure.profiles.remove(id.as_str()) {
            let mut profile: Profile = held;
            profile.output_kind = kind;
            let ghost before: Map<Seq<char>, Profile> = old(self).structure.profiles@;
            self.structure.profiles.insert(id.clone(), profile);
            assert(before.remove(id@).insert(id@, profile) =~= before.insert(id@, profile));
        } else {
            assert(self.structure.profiles@ =~= old(self).structure.profiles@);
        }
        ControlMsg::SetOutputKind { profile: id, kind }
    }

    /// Assigns a profile to a device. Where that is the active device the session turns to the
    /// profile.
    pub fn set_assignment(&mut self, device: String, profile: String) -> (r: ControlMsg)
        ensures
            assignment_set(*old(self), *final(self), device, profile, r),
    {
        self.structure.assignments.insert(device.clone(), profile.clone());
        if device == self.active_device {
            self.select_profile(profile.as_str());
        }
        ControlMsg::SetAssignment { device, profile }
    }

    /// The message that brings a stick's settings to the engine.
    pub fn push_stick_settings(&self, stick: Stick) -> (r: ControlMsg)
        ensures
            r == (ControlMsg::SetStickSettings {
                profile: self.mirror.profile,
                stick,
                settings: self.mirror.stick_spec(stick),
            }),
    {
        ControlMsg::SetStickSettings {
            profile: self.mirror.profile.clone(),
            stick,
            settings: *self.mirror.stick(stick),
        }
    }

    /// The message that brings the mouse settings to the engine.
    pub fn push_mouse_settings(&self) -> (r: ControlMsg)
        ensures
            r == (ControlMsg::SetMouseSettings {
                profile: self.mirror.profile,
                settings: self.mirror.mouse,
            }),
    {
        ControlMsg::SetMouseSettings {
            profile: self.mirror.profile.clone(),
            settings: self.mirror.mouse,
        }
    }

    /// The gyro settings being edited: the profile's, or the usual ones where it is not there.
    pub open spec fn gyro(self) -> GyroSettings {
        if self.structure.profiles@.contains_key(self.mirror.profile@) {
            self.structure.profiles@[self.mirror.profile@].gyro
        } else {
            GyroSettings::default_spec()
        }
    }

    /// The gyro settings being edited.
    pub fn gyro_settings(&self) -> (r: GyroSettings)
        ensures
            r == self.gyro(),
    {
        match self.structure.profiles.get(self.mirror.profile.as_str()) {
            Some(profile) => profile.gyro,
            None => GyroSettings::default(),
        }
    }

    /// Changes the gyro settings of the profile being edited, where it is there.
    pub fn set_gyro_settings(&mut self, gyro: GyroSettings)
        ensures
            gyro_set(*old(self), *final(self), gyro),
    {
        let id: String = self.mirror.profile.clone();
        if let Some(held) = self.structure.profiles.remove(id.as_str()) {
            let mut profile: Profile = held;
            profile.gyro = gyro;
            let ghost before: Map<Seq<char>, Profile> = old(self).structure.profiles@;
            self.structure.profiles.insert(id, profile);
            assert(before.remove(id@).insert(id@, profile) =~= before.insert(id@, profile));
        } else {
            assert(self.structure.profiles@ =~= old(self).structure.profiles@);
        }
    }

    /// The message that brings the gyro settings to the engine.
    pub fn push_gyro_settings(&self) -> (r: ControlMsg)
        ensures
            r == (ControlMsg::SetGyroSettings {
                profile: self.mirror.profile,
                settings: self.gyro(),
            }),
    {
        ControlMsg::SetGyroSettings {
            profile: self.mirror.profile.clone(),
            settings: self.gyro_settings(),
        }
    }

    /// The touchpad settings being edited: the profile's, or the usual ones where it is not there.
    pub open spec fn touchpad(self) -> TouchpadSettings {
        if self.structure.profiles@.contains_key(self.mirror.profile@) {
            self.structure.profiles@[self.mirror.profile@].touchpad
        } else {
            TouchpadSettings::default_spec()
        }
    }

    /// The touchpad settings being edited.
    pub fn touchpad_settings(&self) -> (r: TouchpadSettings)
        ensures
            r == self.touchpad(),
    {
        match self.structure.profiles.get(self.mirror.profile.as_str()) {
            Some(profile) => profile.touchpad,
            None => TouchpadSettings::default(),
        }
    }

    /// Changes the touchpad settings of the profile being edited, where it is there.
    pub fn set_touchpad_settings(&mut self, touchpad: TouchpadSettings)
        ensures
            touchpad_set(*old(self), *final(self), touchpad),
    {
        let id: String = self.mirror.profile.clone();
        if let Some(held) = self.structure.profiles.remove(id.as_str()) {
            let mut profile: Profile = held;
            profile.touchpad = touchpad;
            let ghost before: Map<Seq<char>, Profile> = old(self).structure.profiles@;
            self.structure.profiles.insert(id, profile);
            assert(before.remove(id@).insert(id@, profile) =~= before.insert(id@, profile));
        } else {
            assert(self.structure.profiles@ =~= old(self).structure.profiles@);
        }
    }

    /// The message that brings the touchpad settings to the engine.
    pub fn push_touchpad_settings(&self) -> (r: ControlMsg)
        ensures
            r == (ControlMsg::SetTouchpadSettings {
                profile: self.mirror.profile,
                settings: self.touchpad(),
            }),
    {
        ControlMsg::SetTouchpadSettings {
            profile: self.mirror.profile.clone(),
            settings: self.touchpad_settings(),
        }
    }

    /// A trigger's settings being edited: the profile's, or the usual ones where it is not there.
    pub open spec fn trigger(self, trigger: Trigger) -> TriggerSettings {
        if self.structure.profiles@.contains_key(self.mirror.profile@) {
            let profile = self.structure.profiles@[self.mirror.profile@];
            match trigger {
                Trigger::Left => profile.l2,
                Trigger::Right => profile.r2,
            }
        } else {
            TriggerSettings::default_spec()
        }
    }

    /// A trigger's settings being edited.
    pub fn trigger_settings(&self, trigger: Trigger) -> (r: TriggerSettings)
        ensures
            r == self.trigger(trigger),
    {
        match self.structure.profiles.get(self.mirror.profile.as_str()) {
            Some(profile) => match trigger {
                Trigger::Left => profile.l2,
                Trigger::Right => profile.r2,
            },
            None => TriggerSettings::default(),
        }
    }

    /// Changes a trigger's settings in the profile being edited, where it is there.
    pub fn set_trigger_settings(&mut self, trigger: Trigger, settings: TriggerSettings)
        ensures
            trigger_set(*old(self), *final(self), trigger, settings),
    {
        let id: String = self.mirror.profile.clone();
        if let Some(held) = self.structure.profiles.remove(id.as_str()) {
            let mut profile: Profile = held;
            match trigger {
                Trigger::Left => {
                    profile.l2 = settings;
                },
                Trigger::Right => {
                    profile.r2 = settings;
                },
            }
            let ghost before: Map<Seq<char>, Profile> = old(self).structure.profiles@;
            self.structure.profiles.insert(id, profile);
            assert(before.remove(id@).insert(id@, profile) =~= before.insert(id@, profile));
        } else {
            assert(self.structure.profiles@ =~= old(self).structure.profiles@);
        }
    }

    /// The message that brings a trigger's settings to the engine.
    pub fn push_trigger_settings(&self, trigger: Trigger) -> (r: ControlMsg)
        ensures
            r == (ControlMsg::SetTriggerSettings {
                profile: self.mirror.profile,
                trigger,
                settings: self.trigger(trigger),
            }),
    {
        ControlMsg::SetTriggerSettings {
            profile: self.mirror.profile.clone(),
            trigger,
            settings: self.trigger_settings(trigger),
        }
    }

    /// Takes the macros over after a frame. A deletion wins over a change; the message tells the
    /// engine of the one that was taken.
    pub fn commit_macros(
        &mut self,
        list: Vec<MacroDef>,
        deleted: Option<usize>,
        changed: Option<usize>,
    ) -> (r: Option<ControlMsg>)
        requires
            deleted matches Some(i) ==> i < list@.len(),
            changed matches Some(i) ==> i < list@.len(),
        ensures
            macros_committed(*old(self), *final(self), list, deleted, changed, r),
    {
        let profile: String = self.mirror.profile.clone();
        if let Some(i) = deleted {
            let mut rest: Vec<MacroDef> = list;
            let gone: MacroDef = rest.remove(i);
            self.mirror.macros = rest;
            Some(ControlMsg::DeleteMacro { profile, id: gone.id })
        } else {
            let r: Option<ControlMsg> = match changed {
                Some(i) => Some(ControlMsg::UpsertMacro { profile, def: list[i].clone() }),
                None => None,
            };
            self.mirror.macros = list;
            r
        }
    }

    /// Switches the automatic profile switch on or off.
    pub fn set_autoswitch_enabled(&mut self, enabled: bool) -> (r: ControlMsg)
        ensures
            r == ControlMsg::SetAutoSwitchEnabled(enabled),
            final(self).structure.auto_switch.enabled == enabled,
            final(self).structure.auto_switch.rules == old(self).structure.auto_switch.rules,
            *final(self) == (EditSession {
                structure: StructMirror {
                    auto_switch: final(self).structure.auto_switch,
                    ..old(self).structure
                },
                ..*old(self)
            }),
    {
        self.structure.auto_switch.enabled = enabled;
        ControlMsg::SetAutoSwitchEnabled(enabled)
    }

    /// Adds a switching rule to fill in, unless one is waiting already.
    pub fn add_autoswitch_rule(&mut self)
        ensures
            has_blank(old(self).structure.auto_switch.rules@)
                ==> final(self).structure.auto_switch.rules@
                == old(self).structure.auto_switch.rules@,
            !has_blank(old(self).structure.auto_switch.rules@) ==> {
                let rules = final(self).structure.auto_switch.rules@;
                &&& rules.len() == old(self).structure.auto_switch.rules@.len() + 1
                &&& rules.drop_last() == old(self).structure.auto_switch.rules@
                &&& is_blank_key(rules.last())
                &&& rules.last().profile@.len() == 0
            },
            final(self).structure.auto_switch.enabled == old(self).structure.auto_switch.enabled,
            *final(self) == (EditSession {
                structure: StructMirror {
                    auto_switch: final(self).structure.auto_switch,
                    ..old(self).structure
                },
                ..*old(self)
            }),
    {
        add_blank(&mut self.structure.auto_switch.rules);
    }

    /// Makes the engine agree with the switching rules being edited: gives the messages to send.
    pub fn reconcile_autoswitch(&mut self) -> (r: Vec<ControlMsg>)
        ensures
            r@ == reconciling(
                old(self).structure.auto_switch_committed@,
                old(self).structure.auto_switch.rules@,
            ),
            final(self).structure.auto_switch_committed@ == effective(
                old(self).structure.auto_switch.rules@,
            ),
            *final(self) == (EditSession {
                structure: StructMirror {
                    auto_switch_committed: final(self).structure.auto_switch_committed,
                    ..old(self).structure
                },
                ..*old(self)
            }),
    {
        reconcile(&self.structure.auto_switch.rules, &mut self.structure.auto_switch_committed)
    }

    /// Deletes a switching rule and makes the engine agree. Nothing happens where there is none at
    /// that place.
    pub fn delete_autoswitch_rule(&mut self, index: usize) -> (r: Vec<ControlMsg>)
        ensures
            rule_deleted(*old(self), *final(self), index, r@),
    {
        if index < self.structure.auto_switch.rules.len() {
            self.structure.auto_switch.rules.remove(index);
            self.reconcile_autoswitch()
        } else {
            Vec::new()
        }
    }
}

/// Whether every device is assigned a profile that exists.
pub open spec fn assignments_hold(
    assignments: Map<Seq<char>, String>,
    profiles: Map<Seq<char>, Profile>,
) -> bool {
    forall|device: Seq<char>| #[trigger]
        assignments.contains_key(device) ==> profiles.contains_key(assignments[device]@)
}

/// No assignment outlives its profile: where all assignments name profiles that exist, they still
/// do after a profile has been deleted or renamed.
pub proof fn assignments_keep_holding(
    assignments: Map<Seq<char>, String>,
    profiles: Map<Seq<char>, Profile>,
    id: String,
    to: String,
    renamed: Profile,
)
    requires
        assignments_hold(assignments, profiles),
    ensures
        assignments_hold(without_profile(assignments, id@), profiles.remove(id@)),
        assignments_hold(repointed(assignments, id, to), profiles.remove(id@).insert(to@, renamed)),
{
    assert forall|device: Seq<char>| #[trigger]
        without_profile(assignments, id@).contains_key(device) implies profiles.remove(
        id@,
    ).contains_key(without_profile(assignments, id@)[device]@) by {
        assert(assignments.contains_key(device));
    }
    assert forall|device: Seq<char>| #[trigger]
        repointed(assignments, id, to).contains_key(device) implies profiles.remove(id@).insert(
        to@,
        renamed,
    ).contains_key(repointed(assignments, id, to)[device]@) by {
        assert(assignments.contains_key(device));
    }
}

/// Renaming a profile and naming it back restores every assignment's name, where none named the
/// other name before.
pub proof fn naming_back_restores(assignments: Map<Seq<char>, String>, from: String, to: String)
    requires
        forall|device: Seq<char>| #[trigger]
            assignments.contains_key(device) ==> assignments[device]@ != to@,
    ensures
        forall|device: Seq<char>| #[trigger]
            assignments.contains_key(device) ==> {
                let back = repointed(repointed(assignments, from, to), to, from);
                back.contains_key(device) && back[device]@ == assignments[device]@
            },
{
}

} // verus!

//! What the edits of a session keep, change and send.

use vstd::prelude::*;

use crate::config::AutoSwitchRule;
use crate::editor::message::{ControlMsg, Trigger};
use crate::editor::mirror::{devices_follow_the_new_name, devices_lose_the_deleted_profile};
use crate::editor::panels::{
    assignment_chosen, deletion_allowed, gyro_can_move, has_stages, import_name, is_import,
    is_rename, new_profile_submitted, rules_finished, window_of_ms,
};
use crate::editor::rules::{effective, reconciling};
use crate::editor::session::{
    assignment_set, gyro_set, macros_committed, output_kind_set, profile_created, profile_deleted,
    profile_duplicated, profile_renamed, rule_deleted, rule_repointed, touchpad_set, trigger_set,
    EditSession,
};
use crate::editor::text::{copies_are_named_after_their_source, is_white, trimmed, trimming_settles};
use crate::map::profile::{GyroMode, GyroSettings, MacroDef, Profile, TouchpadSettings};
use crate::names::precedes;
use crate::output::state::PadTarget;
use crate::trigger::{TriggerMode, TriggerSettings};

verus! {

/// Whether two sessions agree in what no edit of profiles or rules reaches.
pub open spec fn same_surroundings(a: EditSession, b: EditSession) -> bool {
    &&& a.active_device == b.active_device
    &&& a.structure.devices == b.structure.devices
    &&& a.thread == b.thread
    &&& a.hidhide == b.hidhide
    &&& a.tab == b.tab
    &&& a.binding_editor == b.binding_editor
}

/// Whether two sessions agree in their switching rules, on either side.
pub open spec fn same_rules(a: EditSession, b: EditSession) -> bool {
    &&& a.structure.auto_switch == b.structure.auto_switch
    &&& a.structure.auto_switch_committed == b.structure.auto_switch_committed
}

/// A created profile is untouched and bears its name, every other profile stays as it is, and the
/// session goes on with what it was editing. A name that is taken changes and sends nothing.
pub proof fn creating_adds_one_profile(
    before: EditSession,
    after: EditSession,
    id: String,
    r: Option<ControlMsg>,
    other: Seq<char>,
)
    requires
        profile_created(before, after, id, r),
    ensures
        after.structure.profiles@.contains_key(id@),
        other != id@ ==> (after.structure.profiles@.contains_key(other)
            <==> before.structure.profiles@.contains_key(other)),
        before.structure.profiles@.contains_key(other) ==> after.structure.profiles@[other]
            == before.structure.profiles@[other],
        before.structure.profiles@.contains_key(id@) <==> r is None,
        r matches Some(msg) ==> (msg matches ControlMsg::CreateProfile { name } && name == id),
        r is Some ==> after.structure.profiles@[id@].untouched()
            && after.structure.profiles@[id@].name@ == id@,
        after.mirror == before.mirror,
        after.structure.assignments == before.structure.assignments,
        after.structure.new_profile_name == before.structure.new_profile_name,
        same_rules(after, before) && same_surroundings(after, before),
{
}

/// A renamed profile is found under its new name with everything that it had, and no longer under
/// the old one. Devices, rules being edited and the session follow it; what the engine holds does
/// not change, nor does any other profile. Without the profile, or with the new name taken, nothing
/// changes and nothing is sent.
pub proof fn renaming_moves_one_profile(
    before: EditSession,
    after: EditSession,
    from: String,
    to: String,
    r: Option<ControlMsg>,
    other: Seq<char>,
    device: Seq<char>,
    i: int,
)
    requires
        profile_renamed(before, after, from, to, r),
    ensures
        r is Some <==> before.structure.profiles@.contains_key(from@)
            && !before.structure.profiles@.contains_key(to@),
        r is None ==> after == before,
        r is Some ==> {
            let (was, now) = (before.structure.profiles@, after.structure.profiles@);
            let (held, left) = (before.structure.assignments@, after.structure.assignments@);
            let (rules, live) = (
                before.structure.auto_switch.rules@,
                after.structure.auto_switch.rules@,
            );
            &&& (r->0 matches ControlMsg::RenameProfile { from: f, to: t } && f == from && t == to)
            &&& !now.contains_key(from@) && now.contains_key(to@)
            &&& now[to@].same_settings(was[from@]) && now[to@].name == to
            &&& other != from@ && other != to@ ==> (now.contains_key(other) <==> was.contains_key(
                other,
            )) && now[other] == was[other]
            &&& left.contains_key(device) <==> held.contains_key(device)
            &&& held.contains_key(device) ==> left[device] == (if held[device]@ == from@ {
                to
            } else {
                held[device]
            })
            &&& live.len() == rules.len()
            &&& 0 <= i < rules.len() ==> {
                &&& live[i].device == rules[i].device && live[i].exe_substr == rules[i].exe_substr
                &&& live[i].title_substr == rules[i].title_substr
                &&& live[i].profile == (if rules[i].profile@ == from@ {
                    to
                } else {
                    rules[i].profile
                })
            }
            &&& before.mirror.profile@ == from@ ==> after.mirror.profile == to
            &&& before.mirror.profile@ != from@ ==> after.mirror == before.mirror
            &&& after.mirror.ls == before.mirror.ls && after.mirror.rs == before.mirror.rs
            &&& after.mirror.mouse == before.mirror.mouse
            &&& after.mirror.macros == before.mirror.macros
        },
        after.structure.auto_switch.enabled == before.structure.auto_switch.enabled,
        after.structure.auto_switch_committed == before.structure.auto_switch_committed,
        after.structure.new_profile_name == before.structure.new_profile_name,
        same_surroundings(after, before),
{
    devices_follow_the_new_name(before.structure.assignments@, from, to, device);
}

/// A copy has all that its source has under a name of its own, the source and every other profile
/// stay, and the session goes on with what it was editing. Without the source, or with the name
/// taken, nothing changes and nothing is sent.
pub proof fn copying_adds_one_profile(
    before: EditSession,
    after: EditSession,
    src: String,
    dst: String,
    r: Option<ControlMsg>,
    other: Seq<char>,
)
    requires
        profile_duplicated(before, after, src, dst, r),
    ensures
        r is Some <==> before.structure.profiles@.contains_key(src@)
            && !before.structure.profiles@.contains_key(dst@),
        r is None ==> after == before,
        r is Some ==> {
            let (was, now) = (before.structure.profiles@, after.structure.profiles@);
            &&& (r->0 matches ControlMsg::DuplicateProfile { src: s, dst: d } && s == src && d == dst)
            &&& now.contains_key(dst@) && now[dst@].same_settings(was[src@]) && now[dst@].name == dst
            &&& other != dst@ ==> (now.contains_key(other) <==> was.contains_key(other))
            &&& was.contains_key(other) ==> now[other] == was[other]
        },
        after.mirror == before.mirror,
        after.structure.assignments == before.structure.assignments,
        after.structure.new_profile_name == before.structure.new_profile_name,
        same_rules(after, before) && same_surroundings(after, before),
{
}

/// A deleted profile is gone with the assignments to it, and nothing else is. A session that edited
/// it goes on with the first profile that is left, in byte order; any other goes on as before, and
/// so does one with nothing left to turn to. A profile that is not there changes and sends nothing.
pub proof fn deleting_takes_one_profile(
    before: EditSession,
    after: EditSession,
    id: String,
    r: Option<ControlMsg>,
    other: Seq<char>,
    device: Seq<char>,
)
    requires
        profile_deleted(before, after, id, r),
    ensures
        r is Some <==> before.structure.profiles@.contains_key(id@),
        r is None ==> after == before,
        r is Some ==> {
            let (was, now) = (before.structure.profiles@, after.structure.profiles@);
            let (held, left) = (before.structure.assignments@, after.structure.assignments@);
            &&& (r->0 matches ControlMsg::DeleteProfile { name } && name == id)
            &&& !now.contains_key(id@)
            &&& other != id@ ==> (now.contains_key(other) <==> was.contains_key(other))
            &&& now.contains_key(other) ==> now[other] == was[other]
            &&& left.contains_key(device) <==> held.contains_key(device) && held[device]@ != id@
            &&& left.contains_key(device) ==> left[device] == held[device]
            &&& before.mirror.profile@ != id@ ==> after.mirror == before.mirror
            &&& before.mirror.profile@ == id@ && now.contains_key(other) ==> {
                let next = after.mirror.profile@;
                &&& now.contains_key(next)
                &&& next == other || precedes(next, other)
                &&& after.mirror.shows(next, now[next])
            }
        },
        after.structure.new_profile_name == before.structure.new_profile_name,
        same_rules(after, before) && same_surroundings(after, before),
{
    devices_lose_the_deleted_profile(before.structure.assignments@, id@, device);
    if r is Some && before.structure.profiles@.remove(id@).contains_key(other) {
        assert(before.structure.profiles@.remove(id@) != Map::<Seq<char>, Profile>::empty());
    }
}

/// Choosing a pad reaches the named profile's pad alone, and is told to the engine whether or not
/// the profile is there.
pub proof fn choosing_a_pad_reaches_one_profile(
    before: EditSession,
    after: EditSession,
    id: String,
    kind: PadTarget,
    r: ControlMsg,
    other: Seq<char>,
)
    requires
        output_kind_set(before, after, id, kind, r),
    ensures
        r matches ControlMsg::SetOutputKind { profile, kind: k } && profile == id && k == kind,
        after.structure.profiles@.contains_key(other) <==> before.structure.profiles@.contains_key(
            other,
        ),
        other != id@ ==> after.structure.profiles@[other] == before.structure.profiles@[other],
        before.structure.profiles@.contains_key(id@) ==> {
            let (was, now) = (before.structure.profiles@[id@], after.structure.profiles@[id@]);
            now.output_kind == kind && now == (Profile { output_kind: now.output_kind, ..was })
        },
        after.mirror == before.mirror,
        after.structure.assignments == before.structure.assignments,
        after.structure.new_profile_name == before.structure.new_profile_name,
        same_rules(after, before) && same_surroundings(after, before),
{
}

/// An assigned device has the profile, every other device what it had. The session turns to the
/// profile where the device is the active one, and goes on as before where it is not.
pub proof fn assigning_reaches_one_device(
    before: EditSession,
    after: EditSession,
    device: String,
    profile: String,
    r: ControlMsg,
    other: Seq<char>,
)
    requires
        assignment_set(before, after, device, profile, r),
    ensures
        r matches ControlMsg::SetAssignment { device: d, profile: p } && d == device && p == profile,
        after.structure.assignments@.contains_key(device@),
        after.structure.assignments@[device@] == profile,
        other != device@ ==> (after.structure.assignments@.contains_key(other)
            <==> before.structure.assignments@.contains_key(other)),
        other != device@ ==> after.structure.assignments@[other]
            == before.structure.assignments@[other],
        device@ == before.active_device@ ==> after.mirror.profile@ == profile@
            && after.mirror.shows_entry(profile@, before.structure.profiles@),
        device@ != before.active_device@ ==> after.mirror == before.mirror,
        after.structure.profiles == before.structure.profiles,
        after.structure.new_profile_name == before.structure.new_profile_name,
        same_rules(after, before) && same_surroundings(after, before),
{
}

/// A choice for a device counts where it names a profile other than the one the device has; then it
/// is an assignment, and otherwise nothing happens.
pub proof fn choices_count_where_they_change(
    before: EditSession,
    after: EditSession,
    device: String,
    chosen: String,
    r: Option<ControlMsg>,
)
    requires
        assignment_chosen(before, after, device, chosen, r),
    ensures
        chosen@.len() == 0 ==> r is None,
        before.structure.assignments@.contains_key(device@)
            && before.structure.assignments@[device@]@ == chosen@ ==> r is None,
        chosen@.len() > 0 && !before.structure.assignments@.contains_key(device@) ==> r is Some,
        chosen@.len() > 0 && before.structure.assignments@.contains_key(device@)
            && before.structure.assignments@[device@]@ != chosen@ ==> r is Some,
        r is None ==> after == before,
        r is Some ==> assignment_set(before, after, device, chosen, r->0),
{
}

/// The settings that are set are the settings that are then edited, and nothing else changes but
/// the one field of the one profile; where the profile is not there, nothing does.
pub proof fn settings_are_read_back(
    before: EditSession,
    after: EditSession,
    gyro: GyroSettings,
    touchpad: TouchpadSettings,
    trigger: Trigger,
    settings: TriggerSettings,
    other: Seq<char>,
)
    ensures
        ({
            let id = before.mirror.profile@;
            let there = before.structure.profiles@.contains_key(id);
            let (was, now) = (before.structure.profiles@, after.structure.profiles@);
            let rest = now.contains_key(other) == was.contains_key(other) && after.mirror
                == before.mirror && after.structure.assignments == before.structure.assignments
                && same_rules(after, before) && same_surroundings(after, before);
            &&& gyro_set(before, after, gyro) ==> {
                &&& rest && (other != id ==> now[other] == was[other])
                &&& there ==> after.gyro() == gyro && now[id] == (Profile {
                    gyro: now[id].gyro,
                    ..was[id]
                })
                &&& !there ==> now == was && after.gyro() == GyroSettings::default_spec()
            }
            &&& touchpad_set(before, after, touchpad) ==> {
                &&& rest && (other != id ==> now[other] == was[other])
                &&& there ==> after.touchpad() == touchpad && now[id] == (Profile {
                    touchpad: now[id].touchpad,
                    ..was[id]
                })
                &&& !there ==> now == was && after.touchpad() == TouchpadSettings::default_spec()
            }
            &&& trigger_set(before, after, trigger, settings) ==> {
                &&& rest && (other != id ==> now[other] == was[other])
                &&& there ==> after.trigger(trigger) == settings
                &&& there && trigger is Left ==> now[id] == (Profile { l2: settings, ..was[id] })
                    && after.trigger(Trigger::Right) == before.trigger(Trigger::Right)
                &&& there && trigger is Right ==> now[id] == (Profile { r2: settings, ..was[id] })
                    && after.trigger(Trigger::Left) == before.trigger(Trigger::Left)
                &&& !there ==> now == was && after.trigger(trigger)
                    == TriggerSettings::default_spec()
            }
        }),
{
}

/// The settings being edited are those of the profile being edited, the left trigger's for the left
/// one and the right one's for the right one.
pub proof fn settings_belong_to_the_edited_profile(s: EditSession)
    requires
        s.structure.profiles@.contains_key(s.mirror.profile@),
    ensures
        s.gyro() == s.structure.profiles@[s.mirror.profile@].gyro,
        s.touchpad() == s.structure.profiles@[s.mirror.profile@].touchpad,
        s.trigger(Trigger::Left) == s.structure.profiles@[s.mirror.profile@].l2,
        s.trigger(Trigger::Right) == s.structure.profiles@[s.mirror.profile@].r2,
{
}

/// A macro that is deleted leaves the list and the engine, one that is changed is sent as it is, and
/// a deletion goes before a change; the rest of the list is taken over in order, and nothing else of
/// the session changes.
pub proof fn macros_are_taken_over(
    before: EditSession,
    after: EditSession,
    list: Vec<MacroDef>,
    deleted: Option<usize>,
    changed: Option<usize>,
    r: Option<ControlMsg>,
    j: int,
)
    requires
        deleted matches Some(i) ==> i < list@.len(),
        changed matches Some(i) ==> i < list@.len(),
        macros_committed(before, after, list, deleted, changed, r),
        0 <= j < list@.len(),
    ensures
        deleted matches Some(i) ==> {
            &&& after.mirror.macros@.len() == list@.len() - 1
            &&& j < i ==> after.mirror.macros@[j] == list@[j]
            &&& j > i ==> after.mirror.macros@[j - 1] == list@[j]
            &&& r matches Some(ControlMsg::DeleteMacro { profile, id })
            &&& profile == before.mirror.profile && id == list@[i as int].id
        },
        deleted is None ==> after.mirror.macros@ == list@,
        deleted is None && changed is Some ==> (r matches Some(
            ControlMsg::UpsertMacro { profile, def },
        ) && profile == before.mirror.profile && def.id == list@[changed->0 as int].id && def.name@
            == list@[changed->0 as int].name@ && def.repeat == list@[changed->0 as int].repeat
            && def.steps@ == list@[changed->0 as int].steps@),
        deleted is None && changed is None ==> r is None,
        after.structure == before.structure,
        after.mirror.profile == before.mirror.profile && after.mirror.mouse == before.mirror.mouse,
        after.mirror.ls == before.mirror.ls && after.mirror.rs == before.mirror.rs,
        same_surroundings(after, before),
{
}

/// A rule that follows a rename changes its profile alone, and only where it had the old name.
pub proof fn rules_follow_the_new_name(rule: AutoSwitchRule, from: String, to: String)
    ensures
        ({
            let now = rule_repointed(rule, from, to);
            &&& now.device == rule.device && now.exe_substr == rule.exe_substr
            &&& now.title_substr == rule.title_substr
            &&& rule.profile@ == from@ ==> now.profile == to
            &&& rule.profile@ != from@ ==> now == rule
        }),
{
}

/// A deleted rule leaves the list and its gap is closed; what is sent makes the engine agree with
/// what is left. A place without a rule changes and sends nothing.
pub proof fn deleting_takes_one_rule(
    before: EditSession,
    after: EditSession,
    index: usize,
    r: Seq<ControlMsg>,
    j: int,
)
    requires
        rule_deleted(before, after, index, r),
        0 <= j < before.structure.auto_switch.rules@.len(),
    ensures
        ({
            let (was, now) = (
                before.structure.auto_switch.rules@,
                after.structure.auto_switch.rules@,
            );
            &&& index < was.len() ==> {
                &&& now.len() == was.len() - 1
                &&& j < index ==> now[j] == was[j]
                &&& j > index ==> now[j - 1] == was[j]
                &&& r == reconciling(before.structure.auto_switch_committed@, now)
                &&& after.structure.auto_switch_committed@ == effective(now)
            }
            &&& index >= was.len() ==> after == before && r.len() == 0
        }),
        after.structure.auto_switch.enabled == before.structure.auto_switch.enabled,
        after.structure.profiles == before.structure.profiles,
        after.structure.assignments == before.structure.assignments,
        after.structure.new_profile_name == before.structure.new_profile_name,
        after.mirror == before.mirror && same_surroundings(after, before),
{
}

/// A frame of the rule table deletes a rule where one is to be deleted, else sends a finished edit,
/// else does nothing; it never adds or changes a rule of its own.
pub proof fn frames_delete_or_send(
    before: EditSession,
    after: EditSession,
    delete: Option<usize>,
    commit: bool,
    r: Seq<ControlMsg>,
)
    requires
        rules_finished(before, after, delete, commit, r),
    ensures
        delete matches Some(i) ==> rule_deleted(before, after, i, r),
        delete is None ==> after.structure.auto_switch == before.structure.auto_switch,
        delete is None && commit ==> {
            let live = before.structure.auto_switch.rules@;
            &&& r == reconciling(before.structure.auto_switch_committed@, live)
            &&& after.structure.auto_switch_committed@ == effective(live)
        },
        delete is None && !commit ==> r.len() == 0 && after == before,
        after.structure.profiles == before.structure.profiles,
        after.structure.assignments == before.structure.assignments,
        after.structure.new_profile_name == before.structure.new_profile_name,
        after.mirror == before.mirror && same_surroundings(after, before),
{
}

/// A name that was typed creates its profile, without the white space around it, and is cleared from
/// the input even where the profile is there already; white space alone does nothing.
pub proof fn typed_names_create_profiles(
    before: EditSession,
    after: EditSession,
    r: Option<ControlMsg>,
    other: Seq<char>,
)
    requires
        new_profile_submitted(before, after, r),
    ensures
        ({
            let typed = trimmed(before.structure.new_profile_name@);
            let (was, now) = (before.structure.profiles@, after.structure.profiles@);
            &&& typed.len() == 0 ==> after == before && r is None
            &&& typed.len() > 0 ==> now.contains_key(typed)
                && after.structure.new_profile_name@.len() == 0
            &&& r is Some <==> typed.len() > 0 && !was.contains_key(typed)
            &&& r is Some ==> {
                &&& (r->0 matches ControlMsg::CreateProfile { name } && name@ == typed)
                &&& now[typed].untouched() && now[typed].name@ == typed
            }
            &&& was.contains_key(other) ==> now.contains_key(other) && now[other] == was[other]
            &&& now.contains_key(other) && other != typed ==> was.contains_key(other)
        }),
        after.structure.assignments == before.structure.assignments,
        after.mirror == before.mirror,
        same_rules(after, before) && same_surroundings(after, before),
{
}

/// A typed name asks for a rename where, without the white space around it, it is a name and not
/// the profile's own.
pub proof fn other_names_ask_for_a_rename(id: Seq<char>, typed: Seq<char>)
    ensures
        is_rename(id, typed) ==> trimmed(typed) != id && trimmed(typed).len() > 0,
        trimmed(id) == id ==> !is_rename(id, id),
        is_rename(id, typed) == is_rename(id, trimmed(typed)),
        typed.len() == 1 && is_white(typed[0]) ==> !is_rename(id, typed),
{
    trimming_settles(typed);
    if typed.len() == 1 && is_white(typed[0]) {
        assert(typed.drop_last() =~= Seq::<char>::empty());
        assert(trimmed(typed.drop_last()) == Seq::<char>::empty());
    }
}

/// The last profile may not be deleted, one of several may.
pub proof fn last_profile_stays(count: nat)
    ensures
        !deletion_allowed(1),
        count >= 2 ==> deletion_allowed(count),
{
}

/// A text is imported where it and its name hold more than white space: under the name without the
/// white space around it, the text as it is.
pub proof fn imports_need_a_name_and_a_text(
    typed: Seq<char>,
    toml: Seq<char>,
    r: Option<ControlMsg>,
)
    requires
        is_import(typed, toml, r),
    ensures
        r is None <==> trimmed(typed).len() == 0 || trimmed(toml).len() == 0,
        r is Some ==> (r->0 matches ControlMsg::ImportProfile { name, toml: text } && name@
            == trimmed(typed) && text@ == toml),
{
}

/// The offered name is the typed one as it was typed, or the first copy's name of the active profile
/// where nothing but white space was.
pub proof fn offered_names_are_typed_or_copies(typed: Seq<char>, active: Seq<char>)
    ensures
        trimmed(typed).len() > 0 ==> import_name(typed, active) == typed,
        trimmed(typed).len() == 0 ==> import_name(typed, active) == active + seq![
            ' ',
            'c',
            'o',
            'p',
            'y',
        ],
{
    copies_are_named_after_their_source(active, 0);
}

/// A window is a thousand microseconds for each millisecond, but one millisecond at least and no
/// more than fits.
pub proof fn windows_count_thousands(ms: u32)
    ensures
        window_of_ms(0) == 1000,
        1 <= ms <= 4_294_967 ==> window_of_ms(ms) == 1000 * ms,
        ms > 4_294_967 ==> window_of_ms(ms) == u32::MAX,
{
}

/// Two-stage triggers and those that wait for a harder pull have a light pull of their own, and no
/// others; the gyro moves the mouse when it is always on or held on, and in no other mode.
pub proof fn modes_offer_what_they_have(mode: TriggerMode, gyro: GyroMode)
    ensures
        has_stages(mode) <==> mode is TwoStage || mode is HipFire,
        gyro_can_move(gyro) <==> gyro is AlwaysOn || gyro is TriggerHeld,
{
}

} // verus!

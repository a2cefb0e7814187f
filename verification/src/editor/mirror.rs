//! The editor's copies of what the engine holds.

use vstd::prelude::*;

use crate::config::{clone_rules, AutoSwitchConfig, AutoSwitchRule, HidHideConfig, ThreadConfig};
use crate::editor::message::Stick;
use crate::map::profile::{clone_macros, same_macros, MacroDef, MouseSettings, Profile};
use crate::names::{byte_order_is_strict, precedes, NameMap};
use crate::stick::settings::StickSettings;

verus! {

/// The profile that is used for a device without an assignment.
pub open spec fn fallback_profile() -> Seq<char> {
    "default"@
}

/// The configuration that the engine hands to the editor.
#[derive(Debug)]
pub struct Snapshot {
    /// The device that is driven.
    pub active_device: String,
    pub profiles: NameMap<Profile>,
    /// The known devices.
    pub devices: Vec<String>,
    /// The profile of each device.
    pub assignments: NameMap<String>,
    pub auto_switch: AutoSwitchConfig,
    pub thread: ThreadConfig,
    pub hidhide: HidHideConfig,
}

/// The profile of a device: the assigned one, or the fallback.
pub open spec fn assigned(assignments: Map<Seq<char>, String>, device: Seq<char>) -> Seq<char> {
    if assignments.contains_key(device) {
        assignments[device]@
    } else {
        fallback_profile()
    }
}

/// The profile of a device.
pub fn resolve_profile_id(assignments: &NameMap<String>, device: &str) -> (r: String)
    ensures
        r@ == assigned(assignments@, device@),
{
    match assignments.get(device) {
        Some(id) => id.clone(),
        None => "default".to_owned(),
    }
}

/// The profile being edited.
#[derive(Debug)]
pub struct ProfileMirror {
    /// Name of the profile.
    pub profile: String,
    /// Left stick.
    pub ls: StickSettings,
    /// Right stick.
    pub rs: StickSettings,
    pub mouse: MouseSettings,
    pub macros: Vec<MacroDef>,
}

impl ProfileMirror {
    /// Whether this shows a profile under a name.
    pub open spec fn shows(self, id: Seq<char>, profile: Profile) -> bool {
        &&& self.profile@ == id
        &&& self.ls == profile.ls
        &&& self.rs == profile.rs
        &&& self.mouse == profile.mouse
        &&& same_macros(self.macros@, profile.macros@)
    }

    /// Whether this shows what a tree of profiles has under a name, or an untouched profile where
    /// it has nothing there.
    pub open spec fn shows_entry(self, id: Seq<char>, profiles: Map<Seq<char>, Profile>) -> bool {
        if profiles.contains_key(id) {
            self.shows(id, profiles[id])
        } else {
            exists|fresh: Profile| #[trigger] fresh.untouched() && self.shows(id, fresh)
        }
    }

    /// A mirror of a profile.
    pub fn from_profile(profile_id: &str, profile: &Profile) -> (r: ProfileMirror)
        ensures
            r.shows(profile_id@, *profile),
    {
        ProfileMirror {
            profile: profile_id.to_owned(),
            ls: profile.ls,
            rs: profile.rs,
            mouse: profile.mouse,
            macros: clone_macros(&profile.macros),
        }
    }

    /// A mirror of what a tree of profiles has under a name.
    pub fn from_entry(profile_id: &str, profiles: &NameMap<Profile>) -> (r: ProfileMirror)
        ensures
            r.shows_entry(profile_id@, profiles@),
    {
        match profiles.get(profile_id) {
            Some(profile) => ProfileMirror::from_profile(profile_id, profile),
            None => {
                let fresh: Profile = Profile::default();
                let r: ProfileMirror = ProfileMirror::from_profile(profile_id, &fresh);
                assert(fresh.untouched() && r.shows(profile_id@, fresh));
                r
            },
        }
    }

    /// A mirror of the profile of a device.
    pub fn from_snapshot(snapshot: &Snapshot, device: &str) -> (r: ProfileMirror)
        ensures
            r.shows_entry(assigned(snapshot.assignments@, device@), snapshot.profiles@),
    {
        let id: String = resolve_profile_id(&snapshot.assignments, device);
        ProfileMirror::from_entry(id.as_str(), &snapshot.profiles)
    }

    /// The settings of a stick.
    pub open spec fn stick_spec(self, stick: Stick) -> StickSettings {
        match stick {
            Stick::Left => self.ls,
            Stick::Right => self.rs,
        }
    }

    /// The settings of a stick.
    pub fn stick(&self, stick: Stick) -> (r: &StickSettings)
        ensures
            *r == self.stick_spec(stick),
    {
        match stick {
            Stick::Left => &self.ls,
            Stick::Right => &self.rs,
        }
    }

    /// The settings of a stick, to be changed.
    pub fn stick_mut(&mut self, stick: Stick) -> (r: &mut StickSettings)
        ensures
            *r == old(self).stick_spec(stick),
            *final(self) == (match stick {
                Stick::Left => ProfileMirror { ls: *final(r), ..*old(self) },
                Stick::Right => ProfileMirror { rs: *final(r), ..*old(self) },
            }),
    {
        match stick {
            Stick::Left => &mut self.ls,
            Stick::Right => &mut self.rs,
        }
    }
}

/// The editor's copy of profiles, devices, assignments and switching rules.
#[derive(Debug)]
pub struct StructMirror {
    pub profiles: NameMap<Profile>,
    /// The known devices.
    pub devices: Vec<String>,
    /// The profile of each device.
    pub assignments: NameMap<String>,
    /// The switching rules as they are being edited.
    pub auto_switch: AutoSwitchConfig,
    /// The switching rules as the engine holds them.
    pub auto_switch_committed: Vec<AutoSwitchRule>,
    /// The name typed for a new profile.
    pub new_profile_name: String,
}

impl StructMirror {
    /// A mirror of a configuration.
    pub fn from_snapshot(snapshot: Snapshot) -> (r: StructMirror)
        ensures
            r.profiles@ == snapshot.profiles@,
            r.devices@ == snapshot.devices@,
            r.assignments@ == snapshot.assignments@,
            r.auto_switch == snapshot.auto_switch,
            r.auto_switch_committed@ == snapshot.auto_switch.rules@,
            r.new_profile_name@.len() == 0,
    {
        let committed: Vec<AutoSwitchRule> = clone_rules(&snapshot.auto_switch.rules);
        StructMirror {
            profiles: snapshot.profiles,
            devices: snapshot.devices,
            assignments: snapshot.assignments,
            auto_switch: snapshot.auto_switch,
            auto_switch_committed: committed,
            new_profile_name: String::new(),
        }
    }

    /// The names of the profiles, in byte order and each once.
    pub fn profile_ids(&self) -> (r: Vec<String>)
        ensures
            forall|i: int, j: int|
                #![trigger r@[i], r@[j]]
                0 <= i < j < r@.len() ==> precedes(r@[i]@, r@[j]@),
            forall|n: Seq<char>| #[trigger]
                self.profiles@.contains_key(n) <==> exists|i: int|
                    0 <= i < r@.len() && #[trigger] r@[i]@ == n,
    {
        self.profiles.names()
    }
}

/// Assignments that follow a profile's new name.
pub open spec fn repointed(assignments: Map<Seq<char>, String>, from: String, to: String) -> Map<
    Seq<char>,
    String,
> {
    assignments.map_values(
        |id: String| if id@ == from@ {
            to
        } else {
            id
        },
    )
}

/// Lets assignments follow a profile's new name.
pub fn repoint_assignments(assignments: &mut NameMap<String>, from: &String, to: &String)
    ensures
        final(assignments)@ == repointed(old(assignments)@, *from, *to),
{
    let ghost before: Map<Seq<char>, String> = assignments@;
    let names: Vec<String> = assignments.names();
    let mut i: usize = 0;
    while i < names.len()
        invariant
            i <= names@.len(),
            forall|n: Seq<char>| #[trigger]
                before.contains_key(n) <==> exists|k: int|
                    0 <= k < names@.len() && #[trigger] names@[k]@ == n,
            forall|a: int, b: int|
                #![trigger names@[a], names@[b]]
                0 <= a < b < names@.len() ==> precedes(names@[a]@, names@[b]@),
            forall|n: Seq<char>| #[trigger] assignments@.contains_key(n) <==> before.contains_key(n),
            forall|k: int|
                0 <= k < i ==> assignments@[#[trigger] names@[k]@] == (if before[names@[k]@]@
                    == from@ {
                    *to
                } else {
                    before[names@[k]@]
                }),
            forall|k: int|
                i <= k < names@.len() ==> assignments@[#[trigger] names@[k]@] == before[names@[k]@],
        decreases names@.len() - i,
    {
        let ghost key: Seq<char> = names@[i as int]@;
        assert(before.contains_key(key));
        assert(assignments@.contains_key(key));
        let follows: bool = match assignments.get(names[i].as_str()) {
            Some(id) => *id == *from,
            None => false,
        };
        if follows {
            assignments.insert(names[i].clone(), to.clone());
        }
        proof {
            assert forall|k: int| 0 <= k < names@.len() && k != i implies #[trigger] names@[k]@
                != key by {
                byte_order_is_strict(key, key, key);
                if k < i {
                    assert(precedes(names@[k]@, names@[i as int]@));
                } else {
                    assert(precedes(names@[i as int]@, names@[k]@));
                }
            }
        }
        i = i + 1;
    }
    proof {
        assert forall|n: Seq<char>| assignments@.contains_key(n) implies assignments@[n]
            == repointed(before, *from, *to)[n] by {
            assert(before.contains_key(n));
            let k = choose|k: int| 0 <= k < names@.len() && #[trigger] names@[k]@ == n;
            assert(assignments@[names@[k]@] == assignments@[n]);
        }
        assert(assignments@ =~= repointed(before, *from, *to));
    }
}

/// Assignments without those to one profile.
pub open spec fn without_profile(assignments: Map<Seq<char>, String>, id: Seq<char>) -> Map<
    Seq<char>,
    String,
> {
    assignments.restrict(Set::new(|n: Seq<char>| assignments.contains_key(n) && assignments[n]@ != id))
}

/// Drops the assignments to one profile.
pub fn drop_assignments(assignments: &mut NameMap<String>, id: &String)
    ensures
        final(assignments)@ == without_profile(old(assignments)@, id@),
{
    let ghost before: Map<Seq<char>, String> = assignments@;
    let names: Vec<String> = assignments.names();
    let mut i: usize = 0;
    while i < names.len()
        invariant
            i <= names@.len(),
            forall|n: Seq<char>| #[trigger]
                before.contains_key(n) <==> exists|k: int|
                    0 <= k < names@.len() && #[trigger] names@[k]@ == n,
            forall|a: int, b: int|
                #![trigger names@[a], names@[b]]
                0 <= a < b < names@.len() ==> precedes(names@[a]@, names@[b]@),
            forall|n: Seq<char>| #[trigger]
                assignments@.contains_key(n) ==> before.contains_key(n) && assignments@[n]
                    == before[n],
            forall|k: int|
                0 <= k < i ==> (assignments@.contains_key(#[trigger] names@[k]@)
                    <==> before[names@[k]@]@ != id@),
            forall|k: int|
                i <= k < names@.len() ==> assignments@.contains_key(#[trigger] names@[k]@),
        decreases names@.len() - i,
    {
        let ghost key: Seq<char> = names@[i as int]@;
        assert(assignments@.contains_key(key));
        let drops: bool = match assignments.get(names[i].as_str()) {
            Some(held) => *held == *id,
            None => false,
        };
        if drops {
            assignments.remove(names[i].as_str());
        }
        proof {
            assert forall|k: int| 0 <= k < names@.len() && k != i implies #[trigger] names@[k]@
                != key by {
                byte_order_is_strict(key, key, key);
                if k < i {
                    assert(precedes(names@[k]@, names@[i as int]@));
                } else {
                    assert(precedes(names@[i as int]@, names@[k]@));
                }
            }
        }
        i = i + 1;
    }
    proof {
        assert forall|n: Seq<char>| assignments@.contains_key(n) <==> without_profile(
            before,
            id@,
        ).contains_key(n) by {
            if before.contains_key(n) {
                let k = choose|k: int| 0 <= k < names@.len() && #[trigger] names@[k]@ == n;
                assert(assignments@.contains_key(names@[k]@) <==> before[names@[k]@]@ != id@);
            }
        }
        assert(assignments@ =~= without_profile(before, id@));
    }
}

/// A device has the profile that is assigned to it, and the one called `default` where none is.
pub proof fn devices_have_their_profile(
    assignments: Map<Seq<char>, String>,
    device: Seq<char>,
    other: Seq<char>,
    profile: String,
)
    ensures
        !assignments.contains_key(device) ==> assigned(assignments, device) == seq![
            'd',
            'e',
            'f',
            'a',
            'u',
            'l',
            't',
        ],
        assigned(assignments.insert(device, profile), device) == profile@,
        other != device ==> assigned(assignments.insert(device, profile), other) == assigned(
            assignments,
            other,
        ),
{
    reveal_strlit("default");
    assert("default"@ =~= seq!['d', 'e', 'f', 'a', 'u', 'l', 't']);
}

/// A mirror shows the profile's own sticks, mouse and macros under the profile's name; one of a
/// profile that is not there shows an untouched one.
pub proof fn mirrors_show_the_profile(
    m: ProfileMirror,
    id: Seq<char>,
    profiles: Map<Seq<char>, Profile>,
)
    requires
        m.shows_entry(id, profiles),
    ensures
        m.profile@ == id,
        profiles.contains_key(id) ==> {
            &&& m.ls == profiles[id].ls && m.rs == profiles[id].rs
            &&& m.mouse == profiles[id].mouse
            &&& m.macros@.len() == profiles[id].macros@.len()
            &&& forall|i: int|
                0 <= i < m.macros@.len() ==> (#[trigger] m.macros@[i]).same_as(
                    profiles[id].macros@[i],
                )
        },
        !profiles.contains_key(id) ==> {
            &&& m.ls == StickSettings::default_spec() && m.rs == StickSettings::default_spec()
            &&& m.mouse == MouseSettings::default_spec()
            &&& m.macros@.len() == 0
        },
{
}

/// The left stick has the left stick's settings and the right one the right one's.
pub proof fn sticks_keep_their_sides(m: ProfileMirror)
    ensures
        m.stick_spec(Stick::Left) == m.ls,
        m.stick_spec(Stick::Right) == m.rs,
{
}

/// After a rename each device that had the old name has the new one, every other device what it
/// had, and no device comes or goes.
pub proof fn devices_follow_the_new_name(
    assignments: Map<Seq<char>, String>,
    from: String,
    to: String,
    device: Seq<char>,
)
    ensures
        repointed(assignments, from, to).contains_key(device) <==> assignments.contains_key(device),
        assignments.contains_key(device) && assignments[device]@ == from@ ==> repointed(
            assignments,
            from,
            to,
        )[device] == to,
        assignments.contains_key(device) && assignments[device]@ != from@ ==> repointed(
            assignments,
            from,
            to,
        )[device] == assignments[device],
{
}

/// After a deletion the devices that had the profile have none, and every other device what it had.
pub proof fn devices_lose_the_deleted_profile(
    assignments: Map<Seq<char>, String>,
    id: Seq<char>,
    device: Seq<char>,
)
    ensures
        without_profile(assignments, id).contains_key(device) <==> assignments.contains_key(device)
            && assignments[device]@ != id,
        without_profile(assignments, id).contains_key(device) ==> without_profile(
            assignments,
            id,
        )[device] == assignments[device],
{
}

} // verus!

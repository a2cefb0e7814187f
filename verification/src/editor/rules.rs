//! Editing the rules of the automatic profile switch.
//!
//! The engine knows a rule by its key: device, program text and title text. The editor keeps the
//! list that is being typed and a copy of what the engine holds, and sends what makes the engine
//! agree.

use vstd::prelude::*;

use crate::config::AutoSwitchRule;
use crate::editor::message::ControlMsg;

verus! {

/// What the engine knows a rule by.
pub struct RuleKey {
    pub device: Seq<char>,
    pub exe_substr: Seq<char>,
    pub title_substr: Seq<char>,
}

/// The key of a rule.
pub open spec fn key_of(rule: AutoSwitchRule) -> RuleKey {
    RuleKey {
        device: rule.device@,
        exe_substr: rule.exe_substr@,
        title_substr: rule.title_substr@,
    }
}

/// Whether a rule's key is empty: a row that is not filled in yet.
pub open spec fn is_blank_key(rule: AutoSwitchRule) -> bool {
    rule.device@.len() == 0 && rule.exe_substr@.len() == 0 && rule.title_substr@.len() == 0
}

/// Whether a list has a rule with this key.
pub open spec fn has_key(rules: Seq<AutoSwitchRule>, key: RuleKey) -> bool {
    exists|i: int| 0 <= i < rules.len() && key_of(#[trigger] rules[i]) == key
}

/// The place of the first rule with this key.
pub open spec fn first_with(rules: Seq<AutoSwitchRule>, key: RuleKey) -> int
    decreases rules.len(),
{
    if rules.len() == 0 {
        0
    } else if has_key(rules.drop_last(), key) {
        first_with(rules.drop_last(), key)
    } else {
        rules.len() - 1
    }
}

/// The rules that the engine is to hold: those that are filled in, the first for each key.
pub open spec fn effective(rules: Seq<AutoSwitchRule>) -> Seq<AutoSwitchRule>
    decreases rules.len(),
{
    if rules.len() == 0 {
        Seq::empty()
    } else {
        let before = effective(rules.drop_last());
        let rule = rules.last();
        if is_blank_key(rule) || has_key(before, key_of(rule)) {
            before
        } else {
            before.push(rule)
        }
    }
}

/// The message that takes a rule away.
pub open spec fn deletion(rule: AutoSwitchRule) -> ControlMsg {
    ControlMsg::DeleteAutoSwitchRule {
        device: rule.device,
        exe_substr: rule.exe_substr,
        title_substr: rule.title_substr,
    }
}

/// The messages that take away what is not wanted any more.
pub open spec fn deletions(held: Seq<AutoSwitchRule>, wanted: Seq<AutoSwitchRule>) -> Seq<
    ControlMsg,
>
    decreases held.len(),
{
    if held.len() == 0 {
        Seq::empty()
    } else {
        let before = deletions(held.drop_last(), wanted);
        if has_key(wanted, key_of(held.last())) {
            before
        } else {
            before.push(deletion(held.last()))
        }
    }
}

/// Whether the engine lacks a rule or holds it with another profile.
pub open spec fn needs_upsert(held: Seq<AutoSwitchRule>, rule: AutoSwitchRule) -> bool {
    has_key(held, key_of(rule)) ==> held[first_with(held, key_of(rule))].profile@ != rule.profile@
}

/// The messages that bring in what is new or changed.
pub open spec fn upserts(held: Seq<AutoSwitchRule>, wanted: Seq<AutoSwitchRule>) -> Seq<ControlMsg>
    decreases wanted.len(),
{
    if wanted.len() == 0 {
        Seq::empty()
    } else {
        let before = upserts(held, wanted.drop_last());
        if needs_upsert(held, wanted.last()) {
            before.push(ControlMsg::UpsertAutoSwitchRule { rule: wanted.last() })
        } else {
            before
        }
    }
}

/// The messages that make an engine holding `held` agree with the list `live`.
pub open spec fn reconciling(held: Seq<AutoSwitchRule>, live: Seq<AutoSwitchRule>) -> Seq<
    ControlMsg,
> {
    deletions(held, effective(live)) + upserts(held, effective(live))
}

/// Whether two rules have the same key.
pub fn same_key(a: &AutoSwitchRule, b: &AutoSwitchRule) -> (r: bool)
    ensures
        r == (key_of(*a) == key_of(*b)),
{
    a.device == b.device && a.exe_substr == b.exe_substr && a.title_substr == b.title_substr
}

/// Whether a rule's key is empty.
pub fn has_blank_key(rule: &AutoSwitchRule) -> (r: bool)
    ensures
        r == is_blank_key(*rule),
{
    rule.device.as_str().is_empty() && rule.exe_substr.as_str().is_empty()
        && rule.title_substr.as_str().is_empty()
}

/// What [`first_with`] finds.
pub proof fn first_is_found(rules: Seq<AutoSwitchRule>, key: RuleKey)
    requires
        has_key(rules, key),
    ensures
        0 <= first_with(rules, key) < rules.len(),
        key_of(rules[first_with(rules, key)]) == key,
        forall|k: int| 0 <= k < first_with(rules, key) ==> key_of(#[trigger] rules[k]) != key,
    decreases rules.len(),
{
    let shorter = rules.drop_last();
    if has_key(shorter, key) {
        first_is_found(shorter, key);
        let at = first_with(shorter, key);
        assert(rules[at] == shorter[at]);
        assert forall|k: int| 0 <= k < at implies key_of(#[trigger] rules[k]) != key by {
            assert(shorter[k] == rules[k]);
        }
    } else {
        let i = choose|i: int| 0 <= i < rules.len() && key_of(#[trigger] rules[i]) == key;
        if i < rules.len() - 1 {
            assert(shorter[i] == rules[i]);
        }
        assert forall|k: int| 0 <= k < rules.len() - 1 implies key_of(#[trigger] rules[k]) != key by {
            assert(shorter[k] == rules[k]);
        }
    }
}

/// The place of the first rule with another rule's key, or the length where there is none.
pub fn find_key(rules: &Vec<AutoSwitchRule>, rule: &AutoSwitchRule) -> (r: usize)
    ensures
        r <= rules@.len(),
        r < rules@.len() <==> has_key(rules@, key_of(*rule)),
        r < rules@.len() ==> r == first_with(rules@, key_of(*rule)),
{
    let mut i: usize = 0;
    while i < rules.len()
        invariant
            i <= rules@.len(),
            forall|k: int| 0 <= k < i ==> key_of(#[trigger] rules@[k]) != key_of(*rule),
        decreases rules@.len() - i,
    {
        if same_key(&rules[i], rule) {
            proof {
                first_is_found(rules@, key_of(*rule));
                let at = first_with(rules@, key_of(*rule));
                if at < i {
                    assert(key_of(rules@[at]) != key_of(*rule));
                }
            }
            return i;
        }
        i = i + 1;
    }
    i
}

/// The rules that the engine is to hold.
pub fn effective_rules(live: &Vec<AutoSwitchRule>) -> (r: Vec<AutoSwitchRule>)
    ensures
        r@ == effective(live@),
{
    let mut r: Vec<AutoSwitchRule> = Vec::new();
    let mut i: usize = 0;
    while i < live.len()
        invariant
            i <= live@.len(),
            r@ == effective(live@.subrange(0, i as int)),
        decreases live@.len() - i,
    {
        let rule: &AutoSwitchRule = &live[i];
        let ghost shorter: Seq<AutoSwitchRule> = live@.subrange(0, i as int);
        assert(live@.subrange(0, i + 1).drop_last() =~= shorter);
        assert(live@.subrange(0, i + 1).last() == *rule);
        if !has_blank_key(rule) && find_key(&r, rule) == r.len() {
            r.push(rule.clone());
        }
        i = i + 1;
    }
    assert(live@.subrange(0, i as int) =~= live@);
    r
}

/// Makes the engine agree with the list being edited: gives the messages to send, and takes the
/// wanted rules as what the engine then holds.
pub fn reconcile(live: &Vec<AutoSwitchRule>, held: &mut Vec<AutoSwitchRule>) -> (r: Vec<ControlMsg>)
    ensures
        r@ == reconciling(old(held)@, live@),
        final(held)@ == effective(live@),
{
    let wanted: Vec<AutoSwitchRule> = effective_rules(live);
    let mut out: Vec<ControlMsg> = Vec::new();
    let mut i: usize = 0;
    while i < held.len()
        invariant
            i <= held@.len(),
            out@ == deletions(held@.subrange(0, i as int), wanted@),
        decreases held@.len() - i,
    {
        let was: &AutoSwitchRule = &held[i];
        assert(held@.subrange(0, i + 1).drop_last() =~= held@.subrange(0, i as int));
        assert(held@.subrange(0, i + 1).last() == *was);
        if find_key(&wanted, was) == wanted.len() {
            out.push(
                ControlMsg::DeleteAutoSwitchRule {
                    device: was.device.clone(),
                    exe_substr: was.exe_substr.clone(),
                    title_substr: was.title_substr.clone(),
                },
            );
        }
        i = i + 1;
    }
    assert(held@.subrange(0, i as int) =~= held@);
    let ghost taken_away: Seq<ControlMsg> = out@;
    assert(wanted@.subrange(0, 0) =~= Seq::<AutoSwitchRule>::empty());
    assert(out@ =~= taken_away + upserts(held@, wanted@.subrange(0, 0)));
    let mut j: usize = 0;
    while j < wanted.len()
        invariant
            j <= wanted@.len(),
            out@ == taken_away + upserts(held@, wanted@.subrange(0, j as int)),
        decreases wanted@.len() - j,
    {
        let rule: &AutoSwitchRule = &wanted[j];
        assert(wanted@.subrange(0, j + 1).drop_last() =~= wanted@.subrange(0, j as int));
        assert(wanted@.subrange(0, j + 1).last() == *rule);
        let at: usize = find_key(held, rule);
        let upsert: bool = at == held.len() || held[at].profile != rule.profile;
        if upsert {
            out.push(ControlMsg::UpsertAutoSwitchRule { rule: rule.clone() });
            assert(out@ =~= taken_away + upserts(held@, wanted@.subrange(0, j + 1)));
        }
        j = j + 1;
    }
    assert(wanted@.subrange(0, j as int) =~= wanted@);
    *held = wanted;
    out
}

/// Whether a list has a row that is not filled in yet.
pub open spec fn has_blank(rules: Seq<AutoSwitchRule>) -> bool {
    exists|i: int| 0 <= i < rules.len() && is_blank_key(#[trigger] rules[i])
}

/// Whether `after` is a list with a row to fill in, added where there was none.
pub open spec fn blank_added(before: Seq<AutoSwitchRule>, after: Seq<AutoSwitchRule>) -> bool {
    &&& has_blank(before) ==> after == before
    &&& !has_blank(before) ==> {
        &&& after.len() == before.len() + 1
        &&& after.drop_last() == before
        &&& is_blank_key(after.last())
        &&& after.last().profile@.len() == 0
    }
}

/// Adds a row to fill in, unless there is one already.
pub fn add_blank(live: &mut Vec<AutoSwitchRule>)
    ensures
        blank_added(old(live)@, final(live)@),
{
    let mut i: usize = 0;
    while i < live.len()
        invariant
            i <= live@.len(),
            live@ == old(live)@,
            forall|k: int| 0 <= k < i ==> !is_blank_key(#[trigger] live@[k]),
        decreases live@.len() - i,
    {
        if has_blank_key(&live[i]) {
            assert(is_blank_key(old(live)@[i as int]));
            return;
        }
        i = i + 1;
    }
    live.push(AutoSwitchRule::default());
    assert(live@.drop_last() =~= old(live)@);
}

/// What an engine that knows rules by their keys holds: for each key the first rule's profile.
pub open spec fn as_held(rules: Seq<AutoSwitchRule>) -> Map<RuleKey, Seq<char>> {
    Map::new(
        |key: RuleKey| has_key(rules, key),
        |key: RuleKey| rules[first_with(rules, key)].profile@,
    )
}

/// What such an engine holds after a message.
pub open spec fn after_message(held: Map<RuleKey, Seq<char>>, msg: ControlMsg) -> Map<
    RuleKey,
    Seq<char>,
> {
    match msg {
        ControlMsg::UpsertAutoSwitchRule { rule } => held.insert(key_of(rule), rule.profile@),
        ControlMsg::DeleteAutoSwitchRule { device, exe_substr, title_substr } => held.remove(
            RuleKey {
                device: device@,
                exe_substr: exe_substr@,
                title_substr: title_substr@,
            },
        ),
        _ => held,
    }
}

/// What such an engine holds after a row of messages.
pub open spec fn after_messages(held: Map<RuleKey, Seq<char>>, msgs: Seq<ControlMsg>) -> Map<
    RuleKey,
    Seq<char>,
>
    decreases msgs.len(),
{
    if msgs.len() == 0 {
        held
    } else {
        after_message(after_messages(held, msgs.drop_last()), msgs.last())
    }
}

/// Messages in two rows work as one row.
proof fn messages_compose(held: Map<RuleKey, Seq<char>>, a: Seq<ControlMsg>, b: Seq<ControlMsg>)
    ensures
        after_messages(held, a + b) == after_messages(after_messages(held, a), b),
    decreases b.len(),
{
    if b.len() == 0 {
        assert(a + b =~= a);
    } else {
        assert((a + b).drop_last() =~= a + b.drop_last());
        messages_compose(held, a, b.drop_last());
    }
}

/// After the deletions an engine holds what it held for the wanted keys, and at most those of the
/// rules that were not looked at.
proof fn deletions_remove(
    map: Map<RuleKey, Seq<char>>,
    held: Seq<AutoSwitchRule>,
    wanted: Seq<AutoSwitchRule>,
)
    ensures
        forall|key: RuleKey| #[trigger]
            after_messages(map, deletions(held, wanted)).contains_key(key) <==> map.contains_key(
                key,
            ) && !(has_key(held, key) && !has_key(wanted, key)),
        forall|key: RuleKey| #[trigger]
            after_messages(map, deletions(held, wanted)).contains_key(key) ==> after_messages(
                map,
                deletions(held, wanted),
            )[key] == map[key],
    decreases held.len(),
{
    if held.len() > 0 {
        let shorter = held.drop_last();
        deletions_remove(map, shorter, wanted);
        let last = held.last();
        assert forall|key: RuleKey| has_key(held, key) <==> has_key(shorter, key) || key == key_of(
            last,
        ) by {
            if has_key(shorter, key) {
                let i = choose|i: int|
                    0 <= i < shorter.len() && key_of(#[trigger] shorter[i]) == key;
                assert(key_of(held[i]) == key);
            }
            if key == key_of(last) {
                assert(key_of(held[held.len() - 1]) == key);
            }
            if has_key(held, key) && key != key_of(last) {
                let i = choose|i: int| 0 <= i < held.len() && key_of(#[trigger] held[i]) == key;
                assert(key_of(shorter[i]) == key);
            }
        }
        let before = deletions(shorter, wanted);
        if !has_key(wanted, key_of(last)) {
            assert(deletions(held, wanted).drop_last() =~= before);
            assert(deletions(held, wanted).last() == deletion(last));
            assert(after_messages(map, deletions(held, wanted)) == after_messages(
                map,
                before,
            ).remove(key_of(last)));
        } else {
            assert(deletions(held, wanted) == before);
        }
        assert forall|key: RuleKey| #[trigger]
            after_messages(map, deletions(held, wanted)).contains_key(key) <==> map.contains_key(
                key,
            ) && !(has_key(held, key) && !has_key(wanted, key)) by {
            assert(has_key(held, key) <==> has_key(shorter, key) || key == key_of(last));
            assert(after_messages(map, before).contains_key(key) <==> map.contains_key(key) && !(
            has_key(shorter, key) && !has_key(wanted, key)));
        }
        assert forall|key: RuleKey| #[trigger]
            after_messages(map, deletions(held, wanted)).contains_key(key) implies after_messages(
            map,
            deletions(held, wanted),
        )[key] == map[key] by {
            assert(after_messages(map, before).contains_key(key));
        }
    } else {
        assert(!exists|key: RuleKey| has_key(held, key));
    }
}

/// After the insertions an engine holds the wanted profile for every wanted key that it lacked or
/// held otherwise, and nothing else has changed.
proof fn upserts_insert(
    map: Map<RuleKey, Seq<char>>,
    held: Seq<AutoSwitchRule>,
    wanted: Seq<AutoSwitchRule>,
)
    requires
        forall|i: int, j: int|
            0 <= i < j < wanted.len() ==> key_of(#[trigger] wanted[i]) != key_of(
                #[trigger] wanted[j],
            ),
    ensures
        forall|i: int|
            0 <= i < wanted.len() && needs_upsert(held, #[trigger] wanted[i]) ==> {
                &&& after_messages(map, upserts(held, wanted)).contains_key(key_of(wanted[i]))
                &&& after_messages(map, upserts(held, wanted))[key_of(wanted[i])]
                    == wanted[i].profile@
            },
        forall|key: RuleKey|
            (forall|i: int|
                0 <= i < wanted.len() && needs_upsert(held, #[trigger] wanted[i]) ==> key_of(
                    wanted[i],
                ) != key) ==> {
                &&& (#[trigger] after_messages(map, upserts(held, wanted)).contains_key(key)
                    <==> map.contains_key(key))
                &&& after_messages(map, upserts(held, wanted))[key] == map[key]
            },
    decreases wanted.len(),
{
    if wanted.len() > 0 {
        let shorter = wanted.drop_last();
        assert forall|i: int, j: int| 0 <= i < j < shorter.len() implies key_of(
            #[trigger] shorter[i],
        ) != key_of(#[trigger] shorter[j]) by {
            assert(shorter[i] == wanted[i] && shorter[j] == wanted[j]);
        }
        upserts_insert(map, held, shorter);
        let last = wanted.last();
        let before = upserts(held, shorter);
        let after = upserts(held, wanted);
        if needs_upsert(held, last) {
            assert(after.drop_last() =~= before);
            assert(after.last() == ControlMsg::UpsertAutoSwitchRule { rule: last });
        }
        assert forall|i: int|
            0 <= i < wanted.len() && needs_upsert(held, #[trigger] wanted[i]) implies {
            &&& after_messages(map, after).contains_key(key_of(wanted[i]))
            &&& after_messages(map, after)[key_of(wanted[i])] == wanted[i].profile@
        } by {
            if i < wanted.len() - 1 {
                assert(shorter[i] == wanted[i]);
                assert(key_of(wanted[i]) != key_of(wanted[wanted.len() - 1]));
            }
        }
        assert forall|key: RuleKey|
            (forall|i: int|
                0 <= i < wanted.len() && needs_upsert(held, #[trigger] wanted[i]) ==> key_of(
                    wanted[i],
                ) != key) implies {
            &&& (#[trigger] after_messages(map, after).contains_key(key) <==> map.contains_key(key))
            &&& after_messages(map, after)[key] == map[key]
        } by {
            assert forall|i: int|
                0 <= i < shorter.len() && needs_upsert(held, #[trigger] shorter[i]) implies key_of(
                shorter[i],
            ) != key by {
                assert(shorter[i] == wanted[i]);
            }
            assert(after_messages(map, before).contains_key(key) <==> map.contains_key(key));
            if needs_upsert(held, last) {
                assert(key_of(wanted[wanted.len() - 1]) != key);
            }
        }
    }
}

/// The wanted rules have different keys, none of them empty, and each key that is filled in
/// anywhere in the list is wanted.
pub proof fn wanted_keys_are_distinct(live: Seq<AutoSwitchRule>)
    ensures
        forall|i: int, j: int|
            0 <= i < j < effective(live).len() ==> key_of(#[trigger] effective(live)[i]) != key_of(
                #[trigger] effective(live)[j],
            ),
        forall|i: int| 0 <= i < effective(live).len() ==> !is_blank_key(#[trigger] effective(live)[i]),
        forall|i: int|
            0 <= i < live.len() && !is_blank_key(#[trigger] live[i]) ==> has_key(
                effective(live),
                key_of(live[i]),
            ),
    decreases live.len(),
{
    if live.len() > 0 {
        let shorter = live.drop_last();
        wanted_keys_are_distinct(shorter);
        let before = effective(shorter);
        let after = effective(live);
        let last = live.last();
        assert forall|i: int, j: int| 0 <= i < j < after.len() implies key_of(#[trigger] after[i])
            != key_of(#[trigger] after[j]) by {
            if j < before.len() {
                assert(after[i] == before[i] && after[j] == before[j]);
            } else {
                assert(after[i] == before[i] && after[j] == last);
            }
        }
        assert forall|i: int| 0 <= i < live.len() && !is_blank_key(#[trigger] live[i]) implies has_key(
            after,
            key_of(live[i]),
        ) by {
            let key = key_of(live[i]);
            if i < live.len() - 1 {
                assert(shorter[i] == live[i]);
                let k = choose|k: int| 0 <= k < before.len() && key_of(#[trigger] before[k]) == key;
                assert(key_of(after[k]) == key);
            } else if has_key(before, key) {
                let k = choose|k: int| 0 <= k < before.len() && key_of(#[trigger] before[k]) == key;
                assert(key_of(after[k]) == key);
            } else {
                assert(key_of(after[before.len() as int]) == key);
            }
        }
    }
}

/// After the messages the engine holds exactly the wanted rules, whatever it held before.
pub proof fn reconciling_brings_agreement(held: Seq<AutoSwitchRule>, live: Seq<AutoSwitchRule>)
    ensures
        after_messages(as_held(held), reconciling(held, live)) == as_held(effective(live)),
{
    let wanted = effective(live);
    let d = deletions(held, wanted);
    let u = upserts(held, wanted);
    let start = as_held(held);
    let middle = after_messages(start, d);
    let end = after_messages(middle, u);
    messages_compose(start, d, u);
    wanted_keys_are_distinct(live);
    deletions_remove(start, held, wanted);
    upserts_insert(middle, held, wanted);
    assert forall|key: RuleKey| #[trigger] end.contains_key(key) <==> as_held(
        wanted,
    ).contains_key(key) by {
        key_after_all(held, wanted, key);
    }
    assert forall|key: RuleKey| #[trigger] end.contains_key(key) implies end[key] == as_held(
        wanted,
    )[key] by {
        key_after_all(held, wanted, key);
    }
    assert(end =~= as_held(wanted));
}

/// What becomes of one key.
proof fn key_after_all(held: Seq<AutoSwitchRule>, wanted: Seq<AutoSwitchRule>, key: RuleKey)
    requires
        forall|i: int, j: int|
            0 <= i < j < wanted.len() ==> key_of(#[trigger] wanted[i]) != key_of(
                #[trigger] wanted[j],
            ),
    ensures
        ({
            let end = after_messages(
                after_messages(as_held(held), deletions(held, wanted)),
                upserts(held, wanted),
            );
            &&& end.contains_key(key) <==> has_key(wanted, key)
            &&& end.contains_key(key) ==> end[key] == as_held(wanted)[key]
        }),
{
    let start = as_held(held);
    let middle = after_messages(start, deletions(held, wanted));
    let end = after_messages(middle, upserts(held, wanted));
    deletions_remove(start, held, wanted);
    upserts_insert(middle, held, wanted);
    assert(middle.contains_key(key) <==> start.contains_key(key) && !(has_key(held, key)
        && !has_key(wanted, key)));
    if has_key(wanted, key) {
        first_is_found(wanted, key);
        let at = first_with(wanted, key);
        if needs_upsert(held, wanted[at]) {
            assert(end.contains_key(key));
        } else {
            assert forall|i: int|
                0 <= i < wanted.len() && needs_upsert(held, #[trigger] wanted[i]) implies key_of(
                wanted[i],
            ) != key by {
                if i != at {
                    if i < at {
                        assert(key_of(wanted[i]) != key_of(wanted[at]));
                    } else {
                        assert(key_of(wanted[at]) != key_of(wanted[i]));
                    }
                }
            }
            assert(end.contains_key(key) <==> middle.contains_key(key));
            assert(start[key] == wanted[at].profile@);
        }
    } else {
        assert forall|i: int|
            0 <= i < wanted.len() && needs_upsert(held, #[trigger] wanted[i]) implies key_of(
            wanted[i],
        ) != key by {
            assert(key_of(wanted[i]) != key || has_key(wanted, key));
        }
        assert(end.contains_key(key) <==> middle.contains_key(key));
    }
}

/// Reconciling a list that the engine agrees with already sends nothing.
pub proof fn reconciling_twice_is_silent(live: Seq<AutoSwitchRule>)
    ensures
        reconciling(effective(live), live).len() == 0,
{
    let wanted = effective(live);
    wanted_keys_are_distinct(live);
    nothing_to_delete(wanted, wanted);
    nothing_to_upsert(wanted, wanted);
}

/// Where all keys are wanted nothing is taken away.
proof fn nothing_to_delete(held: Seq<AutoSwitchRule>, wanted: Seq<AutoSwitchRule>)
    requires
        forall|i: int| 0 <= i < held.len() ==> wanted.contains(#[trigger] held[i]),
    ensures
        deletions(held, wanted).len() == 0,
    decreases held.len(),
{
    if held.len() > 0 {
        let shorter = held.drop_last();
        assert forall|i: int| 0 <= i < shorter.len() implies wanted.contains(
            #[trigger] shorter[i],
        ) by {
            assert(shorter[i] == held[i]);
        }
        nothing_to_delete(shorter, wanted);
        assert(wanted.contains(held[held.len() - 1]));
        let k = choose|k: int| 0 <= k < wanted.len() && wanted[k] == held.last();
        assert(key_of(wanted[k]) == key_of(held.last()));
    }
}

/// Where every rule is held as it is wanted nothing is brought in.
proof fn nothing_to_upsert(held: Seq<AutoSwitchRule>, wanted: Seq<AutoSwitchRule>)
    requires
        forall|i: int| 0 <= i < wanted.len() ==> held.contains(#[trigger] wanted[i]),
        forall|i: int, j: int|
            0 <= i < j < held.len() ==> key_of(#[trigger] held[i]) != key_of(#[trigger] held[j]),
    ensures
        upserts(held, wanted).len() == 0,
    decreases wanted.len(),
{
    if wanted.len() > 0 {
        let shorter = wanted.drop_last();
        assert forall|i: int| 0 <= i < shorter.len() implies held.contains(#[trigger] shorter[i]) by {
            assert(shorter[i] == wanted[i]);
        }
        nothing_to_upsert(held, shorter);
        let last = wanted.last();
        assert(held.contains(wanted[wanted.len() - 1]));
        let k = choose|k: int| 0 <= k < held.len() && held[k] == last;
        assert(key_of(held[k]) == key_of(last));
        first_is_found(held, key_of(last));
        let at = first_with(held, key_of(last));
        if at < k {
            assert(key_of(held[at]) != key_of(held[k]));
        } else if k < at {
            assert(key_of(held[k]) != key_of(held[at]));
        }
    }
}

/// Two rules have one key exactly where device, program and title agree, and a key is blank where
/// all three are empty.
pub proof fn keys_are_device_program_and_title(a: AutoSwitchRule, b: AutoSwitchRule)
    ensures
        key_of(a) == key_of(b) <==> a.device@ == b.device@ && a.exe_substr@ == b.exe_substr@
            && a.title_substr@ == b.title_substr@,
        is_blank_key(a) <==> a.device@.len() + a.exe_substr@.len() + a.title_substr@.len() == 0,
{
}

/// A row is wanted where it is filled in and no row above it has its key: such a row comes behind
/// the rows wanted before, and any other changes nothing.
pub proof fn first_rows_are_wanted(live: Seq<AutoSwitchRule>, row: AutoSwitchRule)
    ensures
        effective(Seq::<AutoSwitchRule>::empty()) == Seq::<AutoSwitchRule>::empty(),
        is_blank_key(row) ==> effective(live.push(row)) == effective(live),
        has_key(live, key_of(row)) ==> effective(live.push(row)) == effective(live),
        !is_blank_key(row) && !has_key(live, key_of(row)) ==> effective(live.push(row)) == effective(
            live,
        ).push(row),
{
    assert(live.push(row).drop_last() =~= live);
    wanted_keys_are_distinct(live);
    wanted_rows_are_listed(live);
    let key = key_of(row);
    if has_key(live, key) && !is_blank_key(row) {
        let i = choose|i: int| 0 <= i < live.len() && key_of(#[trigger] live[i]) == key;
        assert(!is_blank_key(live[i]));
        assert(has_key(effective(live), key_of(live[i])));
    }
    if has_key(effective(live), key) {
        let i = choose|i: int|
            0 <= i < effective(live).len() && key_of(#[trigger] effective(live)[i]) == key;
        assert(live.contains(effective(live)[i]));
        let k = choose|k: int| 0 <= k < live.len() && live[k] == effective(live)[i];
        assert(key_of(live[k]) == key);
    }
}

/// Every wanted rule is a row of the list.
proof fn wanted_rows_are_listed(live: Seq<AutoSwitchRule>)
    ensures
        forall|i: int|
            0 <= i < effective(live).len() ==> live.contains(#[trigger] effective(live)[i]),
    decreases live.len(),
{
    if live.len() > 0 {
        let shorter = live.drop_last();
        wanted_rows_are_listed(shorter);
        let before = effective(shorter);
        assert forall|i: int| 0 <= i < effective(live).len() implies live.contains(
            #[trigger] effective(live)[i],
        ) by {
            if i < before.len() {
                assert(effective(live)[i] == before[i]);
                assert(shorter.contains(before[i]));
                let k = choose|k: int| 0 <= k < shorter.len() && shorter[k] == before[i];
                assert(live[k] == before[i]);
            } else {
                assert(live[live.len() - 1] == live.last());
            }
        }
    }
}

/// A list has a row to fill in after one was asked for, one that waits is not doubled, and no row is
/// lost.
pub proof fn one_blank_row_waits(
    before: Seq<AutoSwitchRule>,
    after: Seq<AutoSwitchRule>,
    again: Seq<AutoSwitchRule>,
    i: int,
)
    requires
        blank_added(before, after),
        blank_added(after, again),
    ensures
        has_blank(after),
        again == after,
        0 <= i < before.len() ==> after[i] == before[i],
        has_blank(before) ==> after == before,
        !has_blank(before) ==> {
            let row = after[before.len() as int];
            &&& after.len() == before.len() + 1
            &&& row.device@.len() == 0 && row.exe_substr@.len() == 0
            &&& row.title_substr@.len() == 0 && row.profile@.len() == 0
        },
{
    if !has_blank(before) {
        assert(is_blank_key(after[after.len() - 1]));
        if 0 <= i < before.len() {
            assert(after.drop_last()[i] == after[i]);
        }
    }
}

} // verus!

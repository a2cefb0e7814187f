//! Picking a profile by the foreground window.

use vstd::prelude::*;
use vstd::string::StringSliceAdditionalSpecFns;
use vstd::utf8::encode_utf8;

use crate::config::AutoSwitchRule;
use crate::names::{name_order, NameOrder};

verus! {

/// A byte with an ASCII capital turned small.
pub open spec fn folded(b: u8) -> u8 {
    if 0x41 <= b <= 0x5A {
        (b + 0x20) as u8
    } else {
        b
    }
}

/// Whether `n` stands in `h` from byte `at` on, ASCII case aside.
pub open spec fn stands_at(h: Seq<u8>, n: Seq<u8>, at: int) -> bool {
    &&& 0 <= at
    &&& at + n.len() <= h.len()
    &&& forall|j: int| 0 <= j < n.len() ==> folded(#[trigger] h[at + j]) == folded(n[j])
}

/// Whether `n` stands anywhere in `h`, ASCII case aside.
pub open spec fn holds_ignoring_case(h: Seq<u8>, n: Seq<u8>) -> bool {
    exists|at: int| stands_at(h, n, at)
}

/// Turns an ASCII capital small.
fn fold(b: u8) -> (r: u8)
    ensures
        r == folded(b),
{
    if 0x41 <= b && b <= 0x5A {
        b + 0x20
    } else {
        b
    }
}

/// Whether `n` stands in `h` from byte `at` on, ASCII case aside.
fn is_at(h: &[u8], n: &[u8], at: usize) -> (r: bool)
    requires
        at + n@.len() <= h@.len(),
    ensures
        r == stands_at(h@, n@, at as int),
{
    let end: usize = h.len();
    let mut j: usize = 0;
    while j < n.len()
        invariant
            end == h@.len(),
            at + n@.len() <= end,
            j <= n@.len(),
            forall|k: int| 0 <= k < j ==> folded(#[trigger] h@[at + k]) == folded(n@[k]),
        decreases n@.len() - j,
    {
        if fold(h[at + j]) != fold(n[j]) {
            assert(folded(h@[at + j]) != folded(n@[j as int]));
            return false;
        }
        j = j + 1;
    }
    true
}

/// Whether `needle` occurs in `haystack`, ASCII case aside. Bytes that are not ASCII letters
/// compare as they are; an empty needle occurs everywhere.
pub fn contains_ignore_ascii_case(haystack: &str, needle: &str) -> (r: bool)
    ensures
        r == holds_ignoring_case(haystack.spec_bytes(), needle.spec_bytes()),
{
    let h: &[u8] = haystack.as_bytes();
    let n: &[u8] = needle.as_bytes();
    if n.len() > h.len() {
        return false;
    }
    let last: usize = h.len() - n.len();
    let mut at: usize = 0;
    while at < last
        invariant
            last + n@.len() == h@.len(),
            at <= last,
            forall|k: int| 0 <= k < at ==> !stands_at(h@, n@, k),
            h@ == haystack.spec_bytes(),
            n@ == needle.spec_bytes(),
        decreases last - at,
    {
        if is_at(h, n, at) {
            return true;
        }
        at = at + 1;
    }
    let r: bool = is_at(h, n, at);
    assert(forall|k: int| stands_at(h@, n@, k) ==> 0 <= k <= last);
    r
}

/// Whether a rule fits a window: it names a program or a title, and each of the two that it names
/// occurs in the window's.
pub open spec fn fits(rule: AutoSwitchRule, exe: Seq<char>, title: Seq<char>) -> bool {
    &&& rule.exe_substr@.len() > 0 || rule.title_substr@.len() > 0
    &&& rule.exe_substr@.len() > 0 ==> holds_ignoring_case(
        encode_utf8(exe),
        encode_utf8(rule.exe_substr@),
    )
    &&& rule.title_substr@.len() > 0 ==> holds_ignoring_case(
        encode_utf8(title),
        encode_utf8(rule.title_substr@),
    )
}

/// Whether a rule is for a device.
pub open spec fn is_for(rule: AutoSwitchRule, device: Seq<char>) -> bool {
    rule.device@.len() == 0 || rule.device@ == device
}

/// Whether `r` is the profile of the first rule that fits the window, or none where none does.
pub open spec fn picks(
    rules: Seq<AutoSwitchRule>,
    exe: Seq<char>,
    title: Seq<char>,
    r: Option<Seq<char>>,
) -> bool {
    match r {
        Some(profile) => exists|i: int|
            {
                &&& 0 <= i < rules.len()
                &&& #[trigger] fits(rules[i], exe, title)
                &&& rules[i].profile@ == profile
                &&& forall|k: int| 0 <= k < i ==> !#[trigger] fits(rules[k], exe, title)
            },
        None => forall|k: int| 0 <= k < rules.len() ==> !#[trigger] fits(rules[k], exe, title),
    }
}

/// Whether `r` is the profile of the first rule for the device that fits the window, or none where
/// none does.
pub open spec fn picks_for(
    rules: Seq<AutoSwitchRule>,
    device: Seq<char>,
    exe: Seq<char>,
    title: Seq<char>,
    r: Option<Seq<char>>,
) -> bool {
    match r {
        Some(profile) => exists|i: int|
            {
                &&& 0 <= i < rules.len()
                &&& is_for(rules[i], device)
                &&& #[trigger] fits(rules[i], exe, title)
                &&& rules[i].profile@ == profile
                &&& forall|k: int|
                    0 <= k < i && is_for(rules[k], device) ==> !#[trigger] fits(
                        rules[k],
                        exe,
                        title,
                    )
            },
        None => forall|k: int|
            0 <= k < rules.len() && is_for(rules[k], device) ==> !#[trigger] fits(
                rules[k],
                exe,
                title,
            ),
    }
}

/// Whether a rule fits the window with this program path and this title.
pub fn rule_matches(rule: &AutoSwitchRule, exe: &str, title: &str) -> (r: bool)
    ensures
        r == fits(*rule, exe@, title@),
{
    let has_exe: bool = !rule.exe_substr.as_str().is_empty();
    let has_title: bool = !rule.title_substr.as_str().is_empty();
    if !has_exe && !has_title {
        return false;
    }
    let exe_ok: bool = !has_exe || contains_ignore_ascii_case(exe, rule.exe_substr.as_str());
    let title_ok: bool = !has_title || contains_ignore_ascii_case(
        title,
        rule.title_substr.as_str(),
    );
    exe_ok && title_ok
}

/// The profile of the first rule that fits the window, whatever device the rules are for.
pub fn match_rules<'a>(rules: &'a [AutoSwitchRule], exe: &str, title: &str) -> (r: Option<&'a str>)
    ensures
        picks(rules@, exe@, title@, match r {
            Some(profile) => Some(profile@),
            None => None,
        }),
{
    let mut i: usize = 0;
    while i < rules.len()
        invariant
            i <= rules@.len(),
            forall|k: int| 0 <= k < i ==> !#[trigger] fits(rules@[k], exe@, title@),
        decreases rules@.len() - i,
    {
        if rule_matches(&rules[i], exe, title) {
            return Some(rules[i].profile.as_str());
        }
        i = i + 1;
    }
    None
}

/// The profile of the first rule for the device that fits the window.
pub fn match_rules_for_device<'a>(
    rules: &'a [AutoSwitchRule],
    device: &str,
    exe: &str,
    title: &str,
) -> (r: Option<&'a str>)
    ensures
        picks_for(rules@, device@, exe@, title@, match r {
            Some(profile) => Some(profile@),
            None => None,
        }),
{
    let mut i: usize = 0;
    while i < rules.len()
        invariant
            i <= rules@.len(),
            forall|k: int|
                0 <= k < i && is_for(rules@[k], device@) ==> !#[trigger] fits(
                    rules@[k],
                    exe@,
                    title@,
                ),
        decreases rules@.len() - i,
    {
        let rule: &AutoSwitchRule = &rules[i];
        let scoped: bool = rule.device.as_str().is_empty() || name_order(
            rule.device.as_str(),
            device,
        ) == NameOrder::Same;
        if scoped && rule_matches(rule, exe, title) {
            return Some(rule.profile.as_str());
        }
        i = i + 1;
    }
    None
}

/// A rule that names neither a program nor a title fits no window.
pub proof fn blank_rule_is_inert(rule: AutoSwitchRule, exe: Seq<char>, title: Seq<char>)
    requires
        rule.exe_substr@.len() == 0,
        rule.title_substr@.len() == 0,
    ensures
        !fits(rule, exe, title),
{
}

/// Whether two byte strings differ in ASCII case at most.
pub open spec fn same_ignoring_case(a: Seq<u8>, b: Seq<u8>) -> bool {
    &&& a.len() == b.len()
    &&& forall|i: int| 0 <= i < a.len() ==> folded(#[trigger] a[i]) == folded(b[i])
}

/// Matching looks through ASCII case: two texts that differ in case at most match alike.
pub proof fn case_never_decides(h: Seq<u8>, h2: Seq<u8>, n: Seq<u8>, n2: Seq<u8>)
    requires
        same_ignoring_case(h, h2),
        same_ignoring_case(n, n2),
    ensures
        holds_ignoring_case(h, n) == holds_ignoring_case(h2, n2),
{
    case_is_dropped(h, h2, n, n2);
    case_is_dropped(h2, h, n2, n);
}

/// One direction of [`case_never_decides`].
proof fn case_is_dropped(h: Seq<u8>, h2: Seq<u8>, n: Seq<u8>, n2: Seq<u8>)
    requires
        h.len() == h2.len(),
        forall|i: int| 0 <= i < h.len() ==> folded(#[trigger] h[i]) == folded(h2[i]),
        n.len() == n2.len(),
        forall|i: int| 0 <= i < n.len() ==> folded(#[trigger] n[i]) == folded(n2[i]),
    ensures
        holds_ignoring_case(h, n) ==> holds_ignoring_case(h2, n2),
{
    if holds_ignoring_case(h, n) {
        let at = choose|at: int| stands_at(h, n, at);
        assert forall|j: int| 0 <= j < n2.len() implies folded(#[trigger] h2[at + j]) == folded(
            n2[j],
        ) by {
            assert(folded(h[at + j]) == folded(n[j]));
        }
        assert(stands_at(h2, n2, at));
    }
}

/// Case is dropped from the 26 ASCII letters and from nothing else: two bytes count as one where
/// they are equal, or where one is a capital and the other its small letter.
pub proof fn only_letters_have_case(a: u8, b: u8)
    ensures
        folded(a) == folded(b) <==> a == b || 0x41 <= a <= 0x5A && b == a + 0x20 || 0x41 <= b <= 0x5A
            && a == b + 0x20,
{
}

/// A text occurs wherever it stands between two others, an empty one everywhere, and a longer one
/// in no shorter.
pub proof fn texts_are_found_where_they_stand(before: Seq<u8>, n: Seq<u8>, after: Seq<u8>)
    ensures
        holds_ignoring_case(before + n + after, n),
        holds_ignoring_case(before, Seq::<u8>::empty()),
        n.len() > before.len() ==> !holds_ignoring_case(before, n),
{
    let h = before + n + after;
    assert forall|j: int| 0 <= j < n.len() implies folded(#[trigger] h[before.len() + j]) == folded(
        n[j],
    ) by {
        assert(h[before.len() + j] == n[j]);
    }
    assert(stands_at(h, n, before.len() as int));
    assert(stands_at(before, Seq::<u8>::empty(), 0));
}

/// A text that occurs has its every byte, case aside, in a row in the other.
pub proof fn found_texts_stand_in_a_row(h: Seq<u8>, n: Seq<u8>)
    requires
        holds_ignoring_case(h, n),
    ensures
        exists|at: int|
            0 <= at && at + n.len() <= h.len() && #[trigger] same_ignoring_case(
                h.subrange(at, at + n.len()),
                n,
            ),
{
    let at = choose|at: int| stands_at(h, n, at);
    let part = h.subrange(at, at + n.len());
    assert forall|i: int| 0 <= i < part.len() implies folded(#[trigger] part[i]) == folded(n[i]) by {
        assert(part[i] == h[at + i]);
    }
    assert(same_ignoring_case(h.subrange(at, at + n.len()), n));
}

/// A rule that names a program alone goes by the program, one that names a title alone by the
/// title, and one that names both fits where each alone would.
pub proof fn rules_ask_for_all_they_name(
    rule: AutoSwitchRule,
    exe: Seq<char>,
    title: Seq<char>,
    other: Seq<char>,
)
    ensures
        ({
            let by_exe = holds_ignoring_case(encode_utf8(exe), encode_utf8(rule.exe_substr@));
            let by_title = holds_ignoring_case(encode_utf8(title), encode_utf8(rule.title_substr@));
            let (has_exe, has_title) = (rule.exe_substr@.len() > 0, rule.title_substr@.len() > 0);
            &&& has_exe && !has_title ==> (fits(rule, exe, title) <==> by_exe)
            &&& has_title && !has_exe ==> (fits(rule, exe, title) <==> by_title)
            &&& has_exe && has_title ==> (fits(rule, exe, title) <==> by_exe && by_title)
            &&& !has_exe && !has_title ==> !fits(rule, exe, title)
            &&& !has_title ==> fits(rule, exe, title) == fits(rule, exe, other)
            &&& !has_exe ==> fits(rule, exe, title) == fits(rule, other, title)
        }),
{
}

/// A rule without a device is for every device, one with a device for that one alone.
pub proof fn rules_are_for_their_device(rule: AutoSwitchRule, a: Seq<char>, b: Seq<char>)
    ensures
        rule.device@.len() == 0 ==> is_for(rule, a),
        is_for(rule, rule.device@),
        is_for(rule, a) && is_for(rule, b) && a != b ==> rule.device@.len() == 0,
{
}

/// The first rule decides where it fits, and where it does not the rest are asked; no rules pick
/// nothing.
pub proof fn first_rule_decides(
    rules: Seq<AutoSwitchRule>,
    exe: Seq<char>,
    title: Seq<char>,
    r: Option<Seq<char>>,
)
    requires
        picks(rules, exe, title, r),
    ensures
        rules.len() == 0 ==> r is None,
        rules.len() > 0 && fits(rules[0], exe, title) ==> r == Some(rules[0].profile@),
        rules.len() > 0 && !fits(rules[0], exe, title) ==> picks(rules.drop_first(), exe, title, r),
{
    if rules.len() > 0 && !fits(rules[0], exe, title) {
        let rest = rules.drop_first();
        if r is Some {
            let i = choose|i: int|
                {
                    &&& 0 <= i < rules.len()
                    &&& #[trigger] fits(rules[i], exe, title)
                    &&& rules[i].profile@ == r->0
                    &&& forall|k: int| 0 <= k < i ==> !#[trigger] fits(rules[k], exe, title)
                };
            assert(rest[i - 1] == rules[i]);
            assert forall|k: int| 0 <= k < i - 1 implies !#[trigger] fits(rest[k], exe, title) by {
                assert(rest[k] == rules[k + 1]);
                assert(!fits(rules[k + 1], exe, title));
            }
            assert(fits(rest[i - 1], exe, title));
        } else {
            assert forall|k: int| 0 <= k < rest.len() implies !#[trigger] fits(rest[k], exe, title) by {
                assert(rest[k] == rules[k + 1]);
                assert(!fits(rules[k + 1], exe, title));
            }
        }
    }
}

/// A rule for another device is passed over as if it were not there, and a rule for this one
/// decides where it fits.
pub proof fn rules_of_other_devices_are_passed_over(
    rules: Seq<AutoSwitchRule>,
    device: Seq<char>,
    exe: Seq<char>,
    title: Seq<char>,
    r: Option<Seq<char>>,
)
    requires
        picks_for(rules, device, exe, title, r),
    ensures
        rules.len() == 0 ==> r is None,
        rules.len() > 0 && is_for(rules[0], device) && fits(rules[0], exe, title) ==> r == Some(
            rules[0].profile@,
        ),
        rules.len() > 0 && !(is_for(rules[0], device) && fits(rules[0], exe, title)) ==> picks_for(
            rules.drop_first(),
            device,
            exe,
            title,
            r,
        ),
{
    if rules.len() > 0 && !(is_for(rules[0], device) && fits(rules[0], exe, title)) {
        let rest = rules.drop_first();
        if r is Some {
            let i = choose|i: int|
                {
                    &&& 0 <= i < rules.len()
                    &&& is_for(rules[i], device)
                    &&& #[trigger] fits(rules[i], exe, title)
                    &&& rules[i].profile@ == r->0
                    &&& forall|k: int|
                        0 <= k < i && is_for(rules[k], device) ==> !#[trigger] fits(
                            rules[k],
                            exe,
                            title,
                        )
                };
            assert(rest[i - 1] == rules[i]);
            assert forall|k: int| 0 <= k < i - 1 && is_for(rest[k], device) implies !#[trigger] fits(
                rest[k],
                exe,
                title,
            ) by {
                assert(rest[k] == rules[k + 1]);
                assert(!fits(rules[k + 1], exe, title));
            }
            assert(fits(rest[i - 1], exe, title));
        } else {
            assert forall|k: int|
                0 <= k < rest.len() && is_for(rest[k], device) implies !#[trigger] fits(
                rest[k],
                exe,
                title,
            ) by {
                assert(rest[k] == rules[k + 1]);
                assert(!fits(rules[k + 1], exe, title));
            }
        }
    }
}

} // verus!

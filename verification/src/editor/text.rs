//! Numbers and names as text.

use vstd::prelude::*;

verus! {

/// The character of a decimal digit.
pub open spec fn digit(d: int) -> char {
    (48 + d) as char
}

/// A number in decimal, without leading zeros.
pub open spec fn digits(n: nat) -> Seq<char>
    decreases n,
{
    if n < 10 {
        seq![digit(n as int)]
    } else {
        digits(n / 10).push(digit((n % 10) as int))
    }
}

/// The number that a text of decimal digits stands for.
pub open spec fn value_of(s: Seq<char>) -> int
    decreases s.len(),
{
    if s.len() == 0 {
        0
    } else {
        value_of(s.drop_last()) * 10 + (s.last() as int - 48)
    }
}

/// Reading a number's decimal text gives the number back.
pub proof fn decimal_reads_back(n: nat)
    ensures
        value_of(digits(n)) == n,
        digits(n).len() > 0,
    decreases n,
{
    if n < 10 {
        assert(digits(n).drop_last() =~= Seq::<char>::empty());
        assert(value_of(Seq::<char>::empty()) == 0);
    } else {
        decimal_reads_back(n / 10);
        assert(digits(n).drop_last() =~= digits(n / 10));
        assert(digits(n).last() == digit((n % 10) as int));
    }
}

/// The text of one digit.
fn digit_text(d: u32) -> (r: &'static str)
    requires
        d < 10,
    ensures
        r@ == seq![digit(d as int)],
{
    proof {
        reveal_strlit("0");
        reveal_strlit("1");
        reveal_strlit("2");
        reveal_strlit("3");
        reveal_strlit("4");
        reveal_strlit("5");
        reveal_strlit("6");
        reveal_strlit("7");
        reveal_strlit("8");
        reveal_strlit("9");
    }
    let r: &'static str = match d {
        0 => "0",
        1 => "1",
        2 => "2",
        3 => "3",
        4 => "4",
        5 => "5",
        6 => "6",
        7 => "7",
        8 => "8",
        _ => "9",
    };
    assert(r@ =~= seq![digit(d as int)]);
    r
}

/// Writes a number in decimal behind a text.
pub fn append_decimal(text: &mut String, n: u32)
    ensures
        final(text)@ == old(text)@ + digits(n as nat),
    decreases n,
{
    if n >= 10 {
        append_decimal(text, n / 10);
    }
    text.append(digit_text(n % 10));
    assert(text@ =~= old(text)@ + digits(n as nat));
}

/// The name of the first copy of a profile.
pub open spec fn copy_name(src: Seq<char>) -> Seq<char> {
    src + " copy"@
}

/// The name of a further copy.
pub open spec fn numbered_copy(src: Seq<char>, n: nat) -> Seq<char> {
    copy_name(src) + " "@ + digits(n)
}

/// Whether a name is among those in use.
pub open spec fn in_use(ids: Seq<String>, name: Seq<char>) -> bool {
    exists|i: int| 0 <= i < ids.len() && (#[trigger] ids[i])@ == name
}

/// Two further copies with the same name have the same number.
pub proof fn numbered_copies_differ(src: Seq<char>, m: nat, n: nat)
    ensures
        numbered_copy(src, m) == numbered_copy(src, n) ==> m == n,
{
    let head: Seq<char> = copy_name(src) + " "@;
    if numbered_copy(src, m) == numbered_copy(src, n) {
        assert(numbered_copy(src, m).skip(head.len() as int) =~= digits(m));
        assert(numbered_copy(src, n).skip(head.len() as int) =~= digits(n));
        decimal_reads_back(m);
        decimal_reads_back(n);
    }
}

/// Only so many names can be in use: where the copies from 2 to `n - 1` all are, there are at
/// least `n - 2` names.
proof fn names_run_out(ids: Seq<String>, src: Seq<char>, n: nat)
    requires
        n >= 2,
        forall|m: nat| 2 <= m < n ==> #[trigger] in_use(ids, numbered_copy(src, m)),
    ensures
        n - 2 <= ids.len(),
{
    let used: Set<Seq<char>> = ids.map_values(|s: String| s@).to_set();
    let numbers: Set<int> = vstd::set_lib::set_int_range(2, n as int);
    let name_of = |m: int| numbered_copy(src, m as nat);
    vstd::set_lib::lemma_int_range(2, n as int);
    let copies: Set<Seq<char>> = numbers.map(name_of);
    assert forall|x: Seq<char>| copies.contains(x) implies used.contains(x) by {
        let m = choose|m: int| numbers.contains(m) && x == name_of(m);
        assert(in_use(ids, numbered_copy(src, m as nat)));
        let i = choose|i: int| 0 <= i < ids.len() && (#[trigger] ids[i])@ == x;
        assert(ids.map_values(|s: String| s@)[i] == x);
    }
    assert forall|a: int, b: int|
        numbers.contains(a) && numbers.contains(b) && #[trigger] name_of(a) == #[trigger] name_of(
            b,
        ) implies a == b by {
        numbered_copies_differ(src, a as nat, b as nat);
    }
    vstd::set_lib::lemma_map_size(numbers, copies, name_of);
    vstd::seq_lib::seq_to_set_is_finite(ids.map_values(|s: String| s@));
    ids.map_values(|s: String| s@).lemma_cardinality_of_set();
    vstd::set_lib::lemma_len_subset(copies, used);
}

/// Whether a name is among those in use.
pub fn is_in_use(ids: &[String], name: &String) -> (r: bool)
    ensures
        r == in_use(ids@, name@),
{
    let mut i: usize = 0;
    while i < ids.len()
        invariant
            i <= ids@.len(),
            forall|k: int| 0 <= k < i ==> (#[trigger] ids@[k])@ != name@,
        decreases ids@.len() - i,
    {
        if ids[i] == *name {
            return true;
        }
        i = i + 1;
    }
    false
}

/// Whether `r` is the first name for a copy of `src` that is not in use.
pub open spec fn is_free_copy(ids: Seq<String>, src: Seq<char>, r: Seq<char>) -> bool {
    &&& !in_use(ids, r)
    &&& !in_use(ids, copy_name(src)) ==> r == copy_name(src)
    &&& in_use(ids, copy_name(src)) ==> exists|n: nat|
        {
            &&& n >= 2
            &&& r == #[trigger] numbered_copy(src, n)
            &&& forall|m: nat| 2 <= m < n ==> #[trigger] in_use(ids, numbered_copy(src, m))
        }
}

/// A name for a copy of `src` that is not in use: the plain copy's name if it is free, else the
/// further copy with the smallest number.
pub fn unique_copy_name(ids: &[String], src: &str) -> (r: String)
    requires
        ids@.len() < 0xFFFF_FFFD,
    ensures
        is_free_copy(ids@, src@, r@),
{
    let mut base: String = src.to_owned();
    base.append(" copy");
    if !is_in_use(ids, &base) {
        return base;
    }
    let mut n: u32 = 2;
    loop
        invariant
            ids@.len() < 0xFFFF_FFFD,
            base@ == copy_name(src@),
            in_use(ids@, copy_name(src@)),
            2 <= n,
            forall|m: nat| 2 <= m < n ==> #[trigger] in_use(ids@, numbered_copy(src@, m)),
        decreases 0xFFFF_FFFF - n,
    {
        let mut candidate: String = base.clone();
        candidate.append(" ");
        append_decimal(&mut candidate, n);
        assert(candidate@ == numbered_copy(src@, n as nat));
        if !is_in_use(ids, &candidate) {
            return candidate;
        }
        proof {
            assert forall|m: nat| 2 <= m < n + 1 implies #[trigger] in_use(
                ids@,
                numbered_copy(src@, m),
            ) by {
                if m == n {
                }
            }
            names_run_out(ids@, src@, (n + 1) as nat);
        }
        n = n + 1;
    }
}

/// Whether a character is white space: the characters with the Unicode property of that name.
pub open spec fn is_white(c: char) -> bool {
    let n = c as u32;
    ||| 0x09 <= n <= 0x0D
    ||| n == 0x20
    ||| n == 0x85
    ||| n == 0xA0
    ||| n == 0x1680
    ||| 0x2000 <= n <= 0x200A
    ||| n == 0x2028
    ||| n == 0x2029
    ||| n == 0x202F
    ||| n == 0x205F
    ||| n == 0x3000
}

/// Whether a character is white space.
fn white(c: char) -> (r: bool)
    ensures
        r == is_white(c),
{
    let n: u32 = c as u32;
    (0x09 <= n && n <= 0x0D) || n == 0x20 || n == 0x85 || n == 0xA0 || n == 0x1680 || (0x2000 <= n
        && n <= 0x200A) || n == 0x2028 || n == 0x2029 || n == 0x202F || n == 0x205F || n == 0x3000
}

/// A text without the white space at its start.
pub open spec fn trimmed_start(s: Seq<char>) -> Seq<char>
    decreases s.len(),
{
    if s.len() > 0 && is_white(s[0]) {
        trimmed_start(s.drop_first())
    } else {
        s
    }
}

/// A text without the white space at its ends.
pub open spec fn trimmed(s: Seq<char>) -> Seq<char>
    decreases s.len(),
{
    if s.len() > 0 && is_white(s.last()) {
        trimmed(s.drop_last())
    } else {
        trimmed_start(s)
    }
}

/// Taking white space off the start leaves a text that starts with none and ends as before.
proof fn start_is_bare(s: Seq<char>)
    ensures
        trimmed_start(s).len() > 0 ==> !is_white(trimmed_start(s)[0]),
        trimmed_start(s).len() > 0 ==> trimmed_start(s).last() == s.last(),
        trimmed_start(s).len() <= s.len(),
    decreases s.len(),
{
    if s.len() > 0 && is_white(s[0]) {
        start_is_bare(s.drop_first());
    }
}

/// Trimming leaves no white space at either end, and trimming again changes nothing.
pub proof fn trimming_settles(s: Seq<char>)
    ensures
        trimmed(s).len() > 0 ==> !is_white(trimmed(s)[0]) && !is_white(trimmed(s).last()),
        trimmed(trimmed(s)) == trimmed(s),
    decreases s.len(),
{
    if s.len() > 0 && is_white(s.last()) {
        trimming_settles(s.drop_last());
    } else {
        start_is_bare(s);
    }
}

/// A text without the white space at its ends.
pub fn trim(s: &str) -> (r: String)
    ensures
        r@ == trimmed(s@),
{
    let mut b: usize = s.unicode_len();
    assert(s@.subrange(0, b as int) =~= s@);
    while b > 0 && white(s.get_char(b - 1))
        invariant
            b <= s@.len(),
            trimmed(s@) == trimmed(s@.subrange(0, b as int)),
        decreases b,
    {
        assert(s@.subrange(0, b as int).drop_last() =~= s@.subrange(0, b - 1));
        assert(s@.subrange(0, b as int).last() == s@[b - 1]);
        b = b - 1;
    }
    proof {
        if b > 0 {
            assert(s@.subrange(0, b as int).last() == s@[b - 1]);
        }
    }
    let mut a: usize = 0;
    while a < b && white(s.get_char(a))
        invariant
            a <= b <= s@.len(),
            trimmed(s@) == trimmed_start(s@.subrange(a as int, b as int)),
        decreases b - a,
    {
        assert(s@.subrange(a as int, b as int).drop_first() =~= s@.subrange(a + 1, b as int));
        assert(s@.subrange(a as int, b as int)[0] == s@[a as int]);
        a = a + 1;
    }
    proof {
        if a < b {
            assert(s@.subrange(a as int, b as int)[0] == s@[a as int]);
        }
    }
    s.substring_char(a, b).to_owned()
}

/// Decimal text is made of the figures 0 to 9 and starts with a zero for the number zero alone.
pub proof fn decimal_is_plain(n: nat)
    ensures
        forall|i: int| 0 <= i < digits(n).len() ==> '0' <= #[trigger] digits(n)[i] <= '9',
        digits(n)[0] == '0' ==> n == 0,
        n < 10 ==> digits(n).len() == 1,
    decreases n,
{
    if n >= 10 {
        decimal_is_plain(n / 10);
        decimal_reads_back(n / 10);
        let shorter = digits(n / 10);
        assert forall|i: int| 0 <= i < digits(n).len() implies '0' <= #[trigger] digits(n)[i]
            <= '9' by {
            if i < shorter.len() {
                assert(digits(n)[i] == shorter[i]);
            }
        }
    }
}

/// A copy's name is the source's with ` copy` behind it, and a further copy's has its number behind
/// that.
pub proof fn copies_are_named_after_their_source(src: Seq<char>, n: nat)
    ensures
        copy_name(src) == src + seq![' ', 'c', 'o', 'p', 'y'],
        numbered_copy(src, n) == src + seq![' ', 'c', 'o', 'p', 'y', ' '] + digits(n),
{
    reveal_strlit(" copy");
    reveal_strlit(" ");
    assert(copy_name(src) =~= src + seq![' ', 'c', 'o', 'p', 'y']);
    assert(numbered_copy(src, n) =~= src + seq![' ', 'c', 'o', 'p', 'y', ' '] + digits(n));
}

/// A free copy's name is in use by nobody. It is the plain one where that is free, else the second
/// copy's where that is, and never one after a free number; there is one such name.
pub proof fn free_copies_come_first(
    ids: Seq<String>,
    src: Seq<char>,
    a: Seq<char>,
    b: Seq<char>,
    k: nat,
)
    requires
        is_free_copy(ids, src, a),
    ensures
        !in_use(ids, a),
        !in_use(ids, copy_name(src)) ==> a == copy_name(src),
        in_use(ids, copy_name(src)) && !in_use(ids, numbered_copy(src, 2)) ==> a == numbered_copy(
            src,
            2,
        ),
        in_use(ids, copy_name(src)) && k >= 2 && !in_use(ids, numbered_copy(src, k)) ==> exists|n: nat|
            2 <= n <= k && a == #[trigger] numbered_copy(src, n),
        is_free_copy(ids, src, b) ==> a == b,
{
    if in_use(ids, copy_name(src)) {
        let n = choose|n: nat|
            {
                &&& n >= 2
                &&& a == #[trigger] numbered_copy(src, n)
                &&& forall|m: nat| 2 <= m < n ==> #[trigger] in_use(ids, numbered_copy(src, m))
            };
        if n > 2 {
            assert(in_use(ids, numbered_copy(src, 2)));
        }
        if k >= 2 && !in_use(ids, numbered_copy(src, k)) {
            if k < n {
                assert(in_use(ids, numbered_copy(src, k)));
            }
            assert(a == numbered_copy(src, n));
        }
        if is_free_copy(ids, src, b) {
            let m = choose|m: nat|
                {
                    &&& m >= 2
                    &&& b == #[trigger] numbered_copy(src, m)
                    &&& forall|j: nat| 2 <= j < m ==> #[trigger] in_use(ids, numbered_copy(src, j))
                };
            if m < n {
                assert(in_use(ids, numbered_copy(src, m)));
            } else if n < m {
                assert(in_use(ids, numbered_copy(src, n)));
            }
        }
    }
}

/// The white characters are those that Unicode calls so: the five from tab to carriage return, the
/// space, the next line, the two wide families of spaces and the separators among them.
pub proof fn white_is_what_unicode_calls_so(c: char)
    ensures
        (c as u32) < 0x80 ==> (is_white(c) <==> c == '\t' || c == '\n' || c as u32 == 11 || c as u32
            == 12 || c == '\r' || c == ' '),
        0x80 <= c as u32 && (c as u32) < 0x2000 ==> (is_white(c) <==> c as u32 == 133 || c as u32
            == 160 || c as u32 == 5760),
        c as u32 >= 0x2000 ==> (is_white(c) <==> c as u32 <= 8202 || c as u32 == 8232 || c as u32
            == 8233 || c as u32 == 8239 || c as u32 == 8287 || c as u32 == 12288),
{
}

/// Whether every character of a text is white.
pub open spec fn all_white(s: Seq<char>) -> bool {
    forall|i: int| 0 <= i < s.len() ==> is_white(#[trigger] s[i])
}

/// White space around a text that starts and ends with none is what trimming takes away, and all
/// that it does; a text of nothing else is taken away whole.
pub proof fn trimming_takes_the_white_ends(before: Seq<char>, core: Seq<char>, after: Seq<char>)
    requires
        all_white(before),
        all_white(after),
        core.len() > 0 ==> !is_white(core[0]) && !is_white(core.last()),
    ensures
        trimmed(before + core + after) == core,
    decreases before.len() + after.len(),
{
    let s = before + core + after;
    if after.len() > 0 {
        let shorter = after.drop_last();
        assert(is_white(after[after.len() - 1]));
        assert forall|i: int| 0 <= i < shorter.len() implies is_white(#[trigger] shorter[i]) by {
            assert(shorter[i] == after[i]);
        }
        assert(s.last() == after.last());
        assert(s.drop_last() =~= before + core + shorter);
        trimming_takes_the_white_ends(before, core, shorter);
    } else if core.len() > 0 {
        assert(s.last() == core.last());
        assert(s =~= before + core);
        white_start_is_taken(before, core);
    } else if before.len() > 0 {
        let shorter = before.drop_last();
        assert(is_white(before[before.len() - 1]));
        assert forall|i: int| 0 <= i < shorter.len() implies is_white(#[trigger] shorter[i]) by {
            assert(shorter[i] == before[i]);
        }
        assert(s.last() == before.last());
        assert(s.drop_last() =~= shorter + core + after);
        trimming_takes_the_white_ends(shorter, core, after);
    } else {
        assert(s =~= core);
        assert(trimmed_start(s) == s);
        assert(trimmed(s) =~= core);
    }
}

/// White space at the start of a text that starts with none is taken away.
proof fn white_start_is_taken(before: Seq<char>, core: Seq<char>)
    requires
        all_white(before),
        core.len() > 0,
        !is_white(core[0]),
    ensures
        trimmed_start(before + core) == core,
    decreases before.len(),
{
    let s = before + core;
    if before.len() > 0 {
        let shorter = before.drop_first();
        assert(is_white(before[0]));
        assert forall|i: int| 0 <= i < shorter.len() implies is_white(#[trigger] shorter[i]) by {
            assert(shorter[i] == before[i + 1]);
        }
        assert(s[0] == before[0]);
        assert(s.drop_first() =~= shorter + core);
        white_start_is_taken(shorter, core);
    } else {
        assert(s =~= core);
    }
}

} // verus!

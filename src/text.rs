//! Text the tool reads and writes: decimal numbers, the paths of the
//! per-policy governor files, and governor names read back from them.

use vstd::prelude::*;

verus! {

/// The decimal digit `d` as text.
pub open spec fn digit_text(d: nat) -> Seq<char> {
    if d == 0 {
        "0"@
    } else if d == 1 {
        "1"@
    } else if d == 2 {
        "2"@
    } else if d == 3 {
        "3"@
    } else if d == 4 {
        "4"@
    } else if d == 5 {
        "5"@
    } else if d == 6 {
        "6"@
    } else if d == 7 {
        "7"@
    } else if d == 8 {
        "8"@
    } else {
        "9"@
    }
}

/// `n` written in decimal, without leading zeros.
pub open spec fn decimal(n: nat) -> Seq<char>
    decreases n,
{
    if n < 10 {
        digit_text(n)
    } else {
        decimal(n / 10) + digit_text(n % 10)
    }
}

pub(crate) fn digit_str(d: u64) -> (r: &'static str)
    requires
        d < 10,
    ensures
        r@ == digit_text(d as nat),
{
    if d == 0 {
        "0"
    } else if d == 1 {
        "1"
    } else if d == 2 {
        "2"
    } else if d == 3 {
        "3"
    } else if d == 4 {
        "4"
    } else if d == 5 {
        "5"
    } else if d == 6 {
        "6"
    } else if d == 7 {
        "7"
    } else if d == 8 {
        "8"
    } else {
        "9"
    }
}

/// Appends `n` in decimal to `out`.
pub fn append_decimal(out: &mut String, n: u64)
    ensures
        final(out)@ == old(out)@ + decimal(n as nat),
    decreases n,
{
    if n >= 10 {
        append_decimal(out, n / 10);
        out.append(digit_str(n % 10));
        assert(final(out)@ =~= old(out)@ + decimal(n as nat));
    } else {
        out.append(digit_str(n));
    }
}

/// `n` in decimal.
pub fn decimal_string(n: u64) -> (r: String)
    ensures
        r@ == decimal(n as nat),
{
    let mut out = String::new();
    append_decimal(&mut out, n);
    assert(out@ =~= decimal(n as nat));
    out
}

/// The path of the governor file of the CPU policy with index `policy`.
pub open spec fn policy_governor_path_spec(policy: nat) -> Seq<char> {
    "/sys/devices/system/cpu/cpufreq/policy"@ + decimal(policy) + "/scaling_governor"@
}

/// The path of the governor file of the CPU policy with index `policy`,
/// such as `/sys/devices/system/cpu/cpufreq/policy3/scaling_governor`.
pub fn policy_governor_path(policy: u32) -> (r: String)
    ensures
        r@ == policy_governor_path_spec(policy as nat),
{
    let mut out = String::from_str("/sys/devices/system/cpu/cpufreq/policy");
    append_decimal(&mut out, policy as u64);
    out.append("/scaling_governor");
    out
}

/// `c` has the Unicode White_Space property: the characters that `trim`
/// removes.
pub open spec fn is_white_space(c: char) -> bool {
    let u = c as u32;
    ||| 0x9 <= u <= 0xd
    ||| u == 0x20
    ||| u == 0x85
    ||| u == 0xa0
    ||| u == 0x1680
    ||| 0x2000 <= u <= 0x200a
    ||| u == 0x2028
    ||| u == 0x2029
    ||| u == 0x202f
    ||| u == 0x205f
    ||| u == 0x3000
}

/// Whether `c` is a white space character.
pub fn white_space(c: char) -> (r: bool)
    ensures
        r == is_white_space(c),
{
    let u = c as u32;
    (0x9 <= u && u <= 0xd) || u == 0x20 || u == 0x85 || u == 0xa0 || u == 0x1680 || (0x2000 <= u
        && u <= 0x200a) || u == 0x2028 || u == 0x2029 || u == 0x202f || u == 0x205f || u == 0x3000
}

/// `s` without its leading white space.
pub open spec fn trim_start(s: Seq<char>) -> Seq<char>
    decreases s.len(),
{
    if s.len() > 0 && is_white_space(s[0]) {
        trim_start(s.drop_first())
    } else {
        s
    }
}

/// `s` without its trailing white space.
pub open spec fn trim_end(s: Seq<char>) -> Seq<char>
    decreases s.len(),
{
    if s.len() > 0 && is_white_space(s.last()) {
        trim_end(s.drop_last())
    } else {
        s
    }
}

/// `s` without leading and trailing white space.
pub open spec fn trim(s: Seq<char>) -> Seq<char> {
    trim_end(trim_start(s))
}

/// The governor name held by the contents of a governor file: the
/// contents without the surrounding white space (the kernel ends them with
/// a newline).
pub fn governor_from_contents(contents: &str) -> (r: String)
    ensures
        r@ == trim(contents@),
{
    let ghost s = contents@;
    let len = contents.unicode_len();
    let mut start: usize = 0;
    assert(s.subrange(0, len as int) =~= s);
    while start < len && white_space(contents.get_char(start))
        invariant
            len == s.len(),
            start <= len,
            contents@ == s,
            trim_start(s) == trim_start(s.subrange(start as int, len as int)),
        decreases len - start,
    {
        let ghost rest = s.subrange(start as int, len as int);
        assert(rest.drop_first() =~= s.subrange(start + 1, len as int));
        start = start + 1;
    }
    let ghost front = s.subrange(start as int, len as int);
    assert(trim_start(s) == front);
    let mut end: usize = len;
    assert(s.subrange(start as int, end as int) =~= front);
    while end > start && white_space(contents.get_char(end - 1))
        invariant
            len == s.len(),
            start <= end <= len,
            contents@ == s,
            trim_end(front) == trim_end(s.subrange(start as int, end as int)),
        decreases end - start,
    {
        let ghost cur = s.subrange(start as int, end as int);
        assert(cur.drop_last() =~= s.subrange(start as int, end - 1));
        end = end - 1;
    }
    let kept = contents.substring_char(start, end);
    String::from_str(kept)
}

} // verus!

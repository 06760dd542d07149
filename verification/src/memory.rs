//! The resident set size the kernel reports for the process.
use vstd::prelude::*;
use crate::numbers::{
    all_digits, decimal_value, is_digit, option_u64, parse_unsigned, parse_unsigned_spec,
};
use crate::text::{
    chars_of, is_blank, is_white_space, is_white_space_char, lacks_char, occurs_at, occurs_at_exec,
    skip_white, skip_white_exec,
};

verus! {

/// The position of the line break that ends the line holding position `i`,
/// or the length of `s` when that line is the last.
pub open spec fn line_end(s: Seq<char>, i: int) -> int
    decreases s.len() - i,
{
    if i >= s.len() {
        s.len() as int
    } else if s[i] == '\n' {
        i
    } else {
        line_end(s, i + 1)
    }
}

/// The first position from `i` on, before `e`, that holds white space.
pub open spec fn word_end(s: Seq<char>, i: int, e: int) -> int
    decreases e - i,
{
    if i >= e || is_white_space(s[i]) {
        i
    } else {
        word_end(s, i + 1, e)
    }
}

pub open spec fn vm_rss_key() -> Seq<char> {
    seq!['V', 'm', 'R', 'S', 'S', ':']
}

/// The value on the first line, from the line that starts at `p` on, that
/// starts with `VmRSS:`: its first word read as a `u64`. Nothing when no line
/// starts so, or when that line's first word is missing or no number.
pub open spec fn vm_rss_from(s: Seq<char>, p: int) -> Option<nat>
    decreases s.len() - p,
{
    let e = line_end(s, p);
    if occurs_at(s, vm_rss_key(), p) {
        let a = skip_white(s, p + 6, e);
        let b = word_end(s, a, e);
        if a == b {
            None
        } else {
            parse_unsigned_spec(s.subrange(a, b), u64::MAX as nat)
        }
    } else if p <= e && e < s.len() {
        vm_rss_from(s, e + 1)
    } else {
        None
    }
}

/// The resident set size, in KiB, that `/proc/<pid>/status` text reports on
/// its `VmRSS:` line.
pub open spec fn vm_rss_spec(status: Seq<char>) -> Option<nat> {
    vm_rss_from(status, 0)
}

/// Reads the resident set size, in KiB, from the text of
/// `/proc/self/status`: the first word after `VmRSS:` on the first line that
/// starts with it.
pub fn parse_vm_rss_kib(status: &str) -> (r: Option<u64>)
    ensures
        r == option_u64(vm_rss_spec(status@)),
{
    let v = chars_of(status);
    let key = chars_of("VmRSS:");
    proof {
        reveal_strlit("VmRSS:");
    }
    assert(key@ =~= vm_rss_key());
    let ghost s = v@;
    let mut p: usize = 0;
    while p <= v.len()
        invariant
            s == v@,
            s == status@,
            key@ == vm_rss_key(),
            p <= v.len(),
            vm_rss_from(s, 0) == vm_rss_from(s, p as int),
        decreases v.len() - p,
    {
        let mut e = p;
        while e < v.len() && v[e] != '\n'
            invariant
                s == v@,
                p <= e <= v.len(),
                line_end(s, p as int) == line_end(s, e as int),
            decreases v.len() - e,
        {
            e = e + 1;
        }
        assert(line_end(s, p as int) == e);
        if occurs_at_exec(&v, &key, p) {
            let a = if p + 6 <= e {
                skip_white_exec(&v, p + 6, e)
            } else {
                p + 6
            };
            let mut b = a;
            while b < e && !is_white_space_char(v[b])
                invariant
                    s == v@,
                    a <= b,
                    e <= v.len(),
                    b <= e || b == a,
                    word_end(s, a as int, e as int) == word_end(s, b as int, e as int),
                decreases e - b,
            {
                b = b + 1;
            }
            if a == b {
                return None;
            }
            return parse_unsigned(&v, a, b, u64::MAX);
        }
        if e >= v.len() {
            return None;
        }
        p = e + 1;
    }
    None
}

/// Position `i` of `s` starts a line.
pub open spec fn starts_line(s: Seq<char>, i: int) -> bool {
    0 <= i <= s.len() && (i == 0 || s[i - 1] == '\n')
}

/// No line of `s` starts with `VmRSS:`.
pub open spec fn lacks_vm_rss_line(s: Seq<char>) -> bool {
    forall|i: int| #[trigger] starts_line(s, i) ==> !occurs_at(s, vm_rss_key(), i)
}

/// The line `VmRSS:<pad><digits> kB` and its line break, as the kernel
/// writes it (`pad` is a tab and the spaces that align the number).
pub open spec fn vm_rss_line(pad: Seq<char>, digits: Seq<char>) -> Seq<char> {
    vm_rss_key() + pad + digits + seq![' ', 'k', 'B', '\n']
}

proof fn lemma_line_end_at_least(s: Seq<char>, i: int)
    requires
        0 <= i <= s.len(),
    ensures
        i <= line_end(s, i) <= s.len(),
    decreases s.len() - i,
{
    if i < s.len() && s[i] != '\n' {
        lemma_line_end_at_least(s, i + 1);
    }
}

/// A line that holds no break between `i` and `j` ends at `j` or later.
proof fn lemma_line_end_after(s: Seq<char>, i: int, j: int)
    requires
        0 <= i <= j <= s.len(),
        forall|k: int| i <= k < j ==> s[k] != '\n',
    ensures
        line_end(s, i) >= j,
    decreases j - i,
{
    if i == j {
        lemma_line_end_at_least(s, i);
    } else {
        lemma_line_end_after(s, i + 1, j);
    }
}

/// In a text that starts with `x`, and `x` ends with a line break, a line
/// that starts in `x` ends where it ends in `x`, on a break of `x`.
proof fn lemma_line_end_within(s: Seq<char>, x: Seq<char>, i: int)
    requires
        x.len() > 0,
        x.last() == '\n',
        x.len() <= s.len(),
        s.subrange(0, x.len() as int) == x,
        0 <= i < x.len(),
    ensures
        line_end(s, i) == line_end(x, i),
        i <= line_end(x, i) < x.len(),
        x[line_end(x, i)] == '\n',
    decreases x.len() - i,
{
    assert(s[i] == s.subrange(0, x.len() as int)[i]);
    if x[i] != '\n' {
        lemma_line_end_within(s, x, i + 1);
    }
}

/// From a line start of `x` on, the lines of `x` are skipped: none starts
/// with `VmRSS:`, and none runs on past `x`.
proof fn lemma_skip_lines(s: Seq<char>, x: Seq<char>, p: int)
    requires
        lacks_vm_rss_line(x),
        x.len() == 0 || x.last() == '\n',
        x.len() <= s.len(),
        s.subrange(0, x.len() as int) == x,
        starts_line(x, p),
    ensures
        vm_rss_from(s, p) == vm_rss_from(s, x.len() as int),
    decreases x.len() - p,
{
    if p < x.len() {
        assert(!occurs_at(x, vm_rss_key(), p));
        if occurs_at(s, vm_rss_key(), p) {
            let sub = s.subrange(p, p + 6);
            if p + 6 <= x.len() {
                assert(x.subrange(p, p + 6) =~= sub);
            } else {
                let j = x.len() - 1 - p;
                assert(sub[j] == s[x.len() - 1]);
                assert(s[x.len() - 1] == s.subrange(0, x.len() as int)[x.len() - 1]);
                assert(vm_rss_key()[j] != '\n');
            }
        }
        lemma_line_end_within(s, x, p);
        let e = line_end(x, p);
        assert(starts_line(x, e + 1));
        lemma_skip_lines(s, x, e + 1);
    }
}

/// The first position from `i` on, before `e`, that holds white space is
/// `j`, when nothing before `j` is white space.
proof fn lemma_word_end(s: Seq<char>, i: int, j: int, e: int)
    requires
        0 <= i <= j < e <= s.len(),
        is_white_space(s[j]),
        forall|k: int| i <= k < j ==> !is_white_space(#[trigger] s[k]),
    ensures
        word_end(s, i, e) == j,
    decreases j - i,
{
    if i < j {
        lemma_word_end(s, i + 1, j, e);
    }
}

/// White space from `i` up to `j`, then none at `j`: skipping white space
/// from `i` stops at `j`.
proof fn lemma_skip_white_to(s: Seq<char>, i: int, j: int, e: int)
    requires
        0 <= i <= j < e <= s.len(),
        !is_white_space(s[j]),
        forall|k: int| i <= k < j ==> is_white_space(#[trigger] s[k]),
    ensures
        skip_white(s, i, e) == j,
    decreases j - i,
{
    if i < j {
        lemma_skip_white_to(s, i + 1, j, e);
    }
}

/// Lines before the `VmRSS:` line are skipped, whatever they hold: after any
/// lines none of which starts with `VmRSS:` (`VmPeak:` and `VmSize:` among
/// them), the line `VmRSS:` with its padding, its digits and `kB` gives the
/// number the digits write, whatever follows.
pub proof fn law_vm_rss_skips_other_lines(
    x: Seq<char>,
    pad: Seq<char>,
    digits: Seq<char>,
    rest: Seq<char>,
)
    requires
        lacks_vm_rss_line(x),
        x.len() == 0 || x.last() == '\n',
        is_blank(pad),
        lacks_char(pad, '\n'),
        digits.len() > 0,
        all_digits(digits),
        decimal_value(digits) <= u64::MAX,
    ensures
        vm_rss_spec(x + vm_rss_line(pad, digits) + rest) == Some(decimal_value(digits)),
{
    let line = vm_rss_line(pad, digits);
    let s = x + line + rest;
    let p = x.len() as int;
    let m = pad.len() as int;
    let n = digits.len() as int;
    assert(s.subrange(0, p) =~= x);
    assert(starts_line(x, 0));
    lemma_skip_lines(s, x, 0);
    assert(s.subrange(p, p + 6) =~= vm_rss_key());
    assert(occurs_at(s, vm_rss_key(), p));
    assert forall|k: int| p <= k < p + 7 + m + n implies s[k] != '\n' by {
        assert(s[k] == line[k - p]);
        if k >= p + 6 && k < p + 6 + m {
            assert(line[k - p] == pad[k - p - 6]);
        }
        if k >= p + 6 + m && k < p + 6 + m + n {
            assert(line[k - p] == digits[k - p - 6 - m]);
            assert(is_digit(digits[k - p - 6 - m]));
        }
    }
    lemma_line_end_after(s, p, p + 7 + m + n);
    lemma_line_end_at_least(s, p);
    let e = line_end(s, p);
    let a = p + 6 + m;
    assert forall|k: int| p + 6 <= k < a implies is_white_space(#[trigger] s[k]) by {
        assert(s[k] == pad[k - p - 6]);
    }
    assert(s[a] == digits[0]);
    assert(is_digit(digits[0]));
    assert(!is_white_space(s[a]));
    lemma_skip_white_to(s, p + 6, a, e);
    assert(s[a + n] == ' ');
    assert forall|k: int| a <= k < a + n implies !is_white_space(#[trigger] s[k]) by {
        assert(s[k] == digits[k - a]);
        assert(is_digit(digits[k - a]));
    }
    lemma_word_end(s, a, a + n, e);
    assert(s.subrange(a, a + n) =~= digits);
}

/// The resident set size, in KiB, from the answer to a task-information
/// request: the size in bytes divided by 1024, rounded down, when the request
/// wrote the whole record (`written` equals `expected`); nothing otherwise.
pub fn rss_kib_from_task_info(written: i32, expected: i32, resident_bytes: u64) -> (r: Option<u64>)
    ensures
        r == (if written == expected {
            Some(resident_bytes / 1024)
        } else {
            None::<u64>
        }),
{
    if written != expected {
        return None;
    }
    Some(resident_bytes / 1024)
}

} // verus!

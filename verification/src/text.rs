//! Characters and strings: the character classes the library relies on, and
//! the few string primitives the other modules build on.
use vstd::prelude::*;

verus! {

/// The Unicode `White_Space` property, the set `char::is_whitespace` and
/// `str::trim` use.
pub open spec fn is_white_space(c: char) -> bool {
    let n = c as u32;
    ||| 0x09 <= n <= 0x0D
    ||| n == 0x20
    ||| n == 0x85
    ||| n == 0xA0
    ||| n == 0x1680
    ||| 0x2000 <= n <= 0x200A
    ||| n == 0x2028
    ||| n == 0x2029
    ||| n == 0x202F
    ||| n == 0x205F
    ||| n == 0x3000
}

/// The Unicode general category `Cc`, the set `char::is_control` uses.
pub open spec fn is_control(c: char) -> bool {
    let n = c as u32;
    n <= 0x1F || (0x7F <= n && n <= 0x9F)
}

/// A text is blank when every character in it is white space (so an empty
/// text is blank): exactly when `str::trim` leaves nothing.
pub open spec fn is_blank(s: Seq<char>) -> bool {
    forall|i: int| 0 <= i < s.len() ==> is_white_space(#[trigger] s[i])
}

/// Whether `s` holds no occurrence of the character `c`.
pub open spec fn lacks_char(s: Seq<char>, c: char) -> bool {
    forall|i: int| 0 <= i < s.len() ==> #[trigger] s[i] != c
}

/// The first position from `i` on, before `e`, that holds no white space.
pub open spec fn skip_white(s: Seq<char>, i: int, e: int) -> int
    decreases e - i,
{
    if i >= e || !is_white_space(s[i]) {
        i
    } else {
        skip_white(s, i + 1, e)
    }
}

/// `needle` occurs in `s` starting at position `at`.
pub open spec fn occurs_at(s: Seq<char>, needle: Seq<char>, at: int) -> bool {
    &&& 0 <= at
    &&& at + needle.len() <= s.len()
    &&& s.subrange(at, at + needle.len()) == needle
}

/// `needle` occurs somewhere in `s`, as `str::contains` asks.
pub open spec fn contains_text(s: Seq<char>, needle: Seq<char>) -> bool {
    exists|at: int| occurs_at(s, needle, at)
}

pub fn is_white_space_char(c: char) -> (r: bool)
    ensures
        r == is_white_space(c),
{
    let n = c as u32;
    (0x09 <= n && n <= 0x0D) || n == 0x20 || n == 0x85 || n == 0xA0 || n == 0x1680 || (0x2000
        <= n && n <= 0x200A) || n == 0x2028 || n == 0x2029 || n == 0x202F || n == 0x205F || n
        == 0x3000
}

pub fn is_control_char(c: char) -> (r: bool)
    ensures
        r == is_control(c),
{
    let n = c as u32;
    n <= 0x1F || (0x7F <= n && n <= 0x9F)
}

/// Calls `String::push`, which appends one character to the string.
#[verifier::external_body]
pub(crate) fn push_char(s: &mut String, c: char)
    ensures
        final(s)@ == old(s)@.push(c),
{
    s.push(c);
}

/// Appends `t` to `out`.
pub(crate) fn push_text(out: &mut String, t: &str)
    ensures
        final(out)@ == old(out)@ + t@,
{
    out.append(t);
}

/// The characters of `s`, in order.
pub fn chars_of(s: &str) -> (v: Vec<char>)
    ensures
        v@ == s@,
{
    broadcast use vstd::string::group_string_axioms;

    let mut v: Vec<char> = Vec::new();
    for c in it: s.chars()
        invariant
            it.seq() == s@,
            v@ == it.seq().take(it.index() as int),
    {
        v.push(c);
        assert(v@ =~= it.seq().take(it.index() + 1));
    }
    assert(s@.take(s@.len() as int) =~= s@);
    v
}

/// Whether two character vectors hold the same characters.
pub fn chars_equal(a: &Vec<char>, b: &Vec<char>) -> (r: bool)
    ensures
        r == (a@ == b@),
{
    if a.len() != b.len() {
        return false;
    }
    let mut i: usize = 0;
    while i < a.len()
        invariant
            a.len() == b.len(),
            i <= a.len(),
            forall|j: int| 0 <= j < i ==> a@[j] == b@[j],
        decreases a.len() - i,
    {
        if a[i] != b[i] {
            return false;
        }
        i = i + 1;
    }
    assert(a@ =~= b@);
    true
}

/// Whether two texts are equal, character by character.
pub fn text_equal(a: &str, b: &str) -> (r: bool)
    ensures
        r == (a@ == b@),
{
    let va = chars_of(a);
    let vb = chars_of(b);
    chars_equal(&va, &vb)
}

/// Whether the text is blank (empty or white space only).
pub fn text_is_blank(s: &str) -> (r: bool)
    ensures
        r == is_blank(s@),
{
    let v = chars_of(s);
    let mut i: usize = 0;
    while i < v.len()
        invariant
            v@ == s@,
            i <= v.len(),
            forall|j: int| 0 <= j < i ==> is_white_space(#[trigger] v@[j]),
        decreases v.len() - i,
    {
        if !is_white_space_char(v[i]) {
            return false;
        }
        i = i + 1;
    }
    true
}

/// Whether `needle` occurs in `hay` starting at position `at`.
pub fn occurs_at_exec(hay: &Vec<char>, needle: &Vec<char>, at: usize) -> (r: bool)
    ensures
        r == occurs_at(hay@, needle@, at as int),
{
    if at > hay.len() || needle.len() > hay.len() - at {
        return false;
    }
    let mut k: usize = 0;
    while k < needle.len()
        invariant
            at + needle.len() <= hay.len(),
            k <= needle.len(),
            forall|j: int| 0 <= j < k ==> hay@[at + j] == needle@[j],
        decreases needle.len() - k,
    {
        if hay[at + k] != needle[k] {
            assert(hay@.subrange(at as int, at + needle.len())[k as int] != needle@[k as int]);
            return false;
        }
        k = k + 1;
    }
    assert(hay@.subrange(at as int, at + needle.len()) =~= needle@);
    true
}

/// Whether `needle` occurs anywhere in `hay`.
pub fn contains_exec(hay: &Vec<char>, needle: &Vec<char>) -> (r: bool)
    ensures
        r == contains_text(hay@, needle@),
{
    let mut at: usize = 0;
    while at < hay.len()
        invariant
            at <= hay.len(),
            forall|j: int| 0 <= j < at ==> !occurs_at(hay@, needle@, j),
        decreases hay.len() - at,
    {
        if occurs_at_exec(hay, needle, at) {
            return true;
        }
        at = at + 1;
    }
    if occurs_at_exec(hay, needle, at) {
        return true;
    }
    assert forall|j: int| !occurs_at(hay@, needle@, j) by {
        if 0 <= j && j <= at {
        } else if j > hay@.len() {
        }
    }
    false
}

/// The first position from `i` on, before `e`, that holds no white space.
pub fn skip_white_exec(v: &Vec<char>, i: usize, e: usize) -> (r: usize)
    requires
        i <= e <= v.len(),
    ensures
        r == skip_white(v@, i as int, e as int),
        i <= r <= e,
{
    let mut a = i;
    while a < e && is_white_space_char(v[a])
        invariant
            i <= a <= e <= v.len(),
            skip_white(v@, i as int, e as int) == skip_white(v@, a as int, e as int),
        decreases e - a,
    {
        a = a + 1;
    }
    a
}

/// How many times `w` occurs in `s`, overlapping occurrences included.
pub open spec fn occurrences(s: Seq<char>, w: Seq<char>) -> nat
    decreases s.len(),
{
    if s.len() == 0 {
        0
    } else {
        (if occurs_at(s, w, 0) {
            1nat
        } else {
            0nat
        }) + occurrences(s.drop_first(), w)
    }
}

/// `x` ends with `y`.
pub open spec fn ends_with(x: Seq<char>, y: Seq<char>) -> bool {
    y.len() <= x.len() && x.subrange(x.len() - y.len(), x.len() as int) == y
}

/// No beginning of `w`, shorter than `w` and not empty, ends `x`: an
/// occurrence of `w` that starts in `x` also ends in `x`, whatever follows.
pub open spec fn no_open_prefix(x: Seq<char>, w: Seq<char>) -> bool {
    forall|k: int| 1 <= k < w.len() ==> !#[trigger] ends_with(x, w.take(k))
}

/// With nothing of `w` left open at the end of `a`, the occurrences in
/// `a + b` are those in `a` and those in `b`.
pub proof fn lemma_occurrences_concat(a: Seq<char>, b: Seq<char>, w: Seq<char>)
    requires
        w.len() > 0,
        no_open_prefix(a, w),
    ensures
        occurrences(a + b, w) == occurrences(a, w) + occurrences(b, w),
    decreases a.len(),
{
    if a.len() == 0 {
        assert(a + b =~= b);
    } else {
        let s = a + b;
        assert(s.drop_first() =~= a.drop_first() + b);
        if a.len() >= w.len() {
            assert(s.subrange(0, w.len() as int) =~= a.subrange(0, w.len() as int));
        } else if occurs_at(s, w, 0) {
            let k = a.len() as int;
            assert(a =~= w.take(k)) by {
                assert forall|i: int| 0 <= i < k implies a[i] == w.take(k)[i] by {
                    assert(s.subrange(0, w.len() as int)[i] == w[i]);
                    assert(s[i] == a[i]);
                }
            }
            assert(a.subrange(0, k) =~= a);
            assert(ends_with(a, w.take(k)));
        }
        assert forall|k: int| 1 <= k < w.len() implies !#[trigger] ends_with(
            a.drop_first(),
            w.take(k),
        ) by {
            let d = a.drop_first();
            if ends_with(d, w.take(k)) {
                assert(a.subrange(a.len() - k, a.len() as int) =~= d.subrange(
                    d.len() - k,
                    d.len() as int,
                ));
                assert(ends_with(a, w.take(k)));
            }
        }
        lemma_occurrences_concat(a.drop_first(), b, w);
    }
}

/// Nothing of `w` is left open at the end of `a + b` when nothing is at the
/// end of `a` nor at the end of `b`.
pub proof fn lemma_no_open_prefix_concat(a: Seq<char>, b: Seq<char>, w: Seq<char>)
    requires
        no_open_prefix(a, w),
        no_open_prefix(b, w),
    ensures
        no_open_prefix(a + b, w),
{
    let s = a + b;
    assert forall|k: int| 1 <= k < w.len() implies !#[trigger] ends_with(s, w.take(k)) by {
        if ends_with(s, w.take(k)) {
            if k <= b.len() {
                assert(b.subrange(b.len() - k, b.len() as int) =~= s.subrange(
                    s.len() - k,
                    s.len() as int,
                ));
                assert(ends_with(b, w.take(k)));
            } else {
                let j = k - b.len();
                assert(a.subrange(a.len() - j, a.len() as int) =~= w.take(j)) by {
                    assert forall|i: int| 0 <= i < j implies a.subrange(
                        a.len() - j,
                        a.len() as int,
                    )[i] == w.take(j)[i] by {
                        assert(s.subrange(s.len() - k, s.len() as int)[i] == w.take(k)[i]);
                        assert(s[s.len() - k + i] == a[a.len() - j + i]);
                    }
                }
                assert(ends_with(a, w.take(j)));
            }
        }
    }
}

/// Nothing of `w` is left open at the end of `a + b` when `b`, at least as
/// long as `w`, leaves nothing open.
pub proof fn lemma_no_open_prefix_long_tail(a: Seq<char>, b: Seq<char>, w: Seq<char>)
    requires
        no_open_prefix(b, w),
        b.len() >= w.len(),
    ensures
        no_open_prefix(a + b, w),
{
    let s = a + b;
    assert forall|k: int| 1 <= k < w.len() implies !#[trigger] ends_with(s, w.take(k)) by {
        if ends_with(s, w.take(k)) {
            assert(b.subrange(b.len() - k, b.len() as int) =~= s.subrange(
                s.len() - k,
                s.len() as int,
            ));
            assert(ends_with(b, w.take(k)));
        }
    }
}

/// A text without the first character of `w` holds no occurrence of `w` and
/// leaves nothing of it open.
pub proof fn lemma_lacking_first_char(v: Seq<char>, w: Seq<char>)
    requires
        w.len() > 0,
        lacks_char(v, w[0]),
    ensures
        occurrences(v, w) == 0,
        no_open_prefix(v, w),
    decreases v.len(),
{
    if v.len() > 0 {
        if occurs_at(v, w, 0) {
            assert(v.subrange(0, w.len() as int)[0] == v[0]);
        }
        assert(lacks_char(v.drop_first(), w[0])) by {
            assert forall|i: int| 0 <= i < v.drop_first().len() implies #[trigger] v.drop_first()[i]
                != w[0] by {
                assert(v.drop_first()[i] == v[i + 1]);
            }
        }
        lemma_lacking_first_char(v.drop_first(), w);
    }
    assert forall|k: int| 1 <= k < w.len() implies !#[trigger] ends_with(v, w.take(k)) by {
        if ends_with(v, w.take(k)) {
            assert(v.subrange(v.len() - k, v.len() as int)[0] == w.take(k)[0]);
            assert(v[v.len() - k] == w[0]);
        }
    }
}

/// A text in which `w` occurs nowhere has no occurrence of it.
pub proof fn lemma_no_occurrence(v: Seq<char>, w: Seq<char>)
    requires
        forall|i: int| !occurs_at(v, w, i),
    ensures
        occurrences(v, w) == 0,
    decreases v.len(),
{
    if v.len() > 0 {
        assert forall|i: int| !occurs_at(v.drop_first(), w, i) by {
            if occurs_at(v.drop_first(), w, i) {
                assert(v.subrange(i + 1, i + 1 + w.len()) =~= v.drop_first().subrange(
                    i,
                    i + w.len(),
                ));
                assert(occurs_at(v, w, i + 1));
            }
        }
        lemma_no_occurrence(v.drop_first(), w);
    }
}

} // verus!

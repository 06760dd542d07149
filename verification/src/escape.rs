//! Escaping of text for the two places the editor page embeds it: HTML
//! (element text and attribute values) and JavaScript string literals inside
//! a `<script>` element.
use vstd::prelude::*;
use crate::text::{is_control, lacks_char, occurs_at, push_char, push_text};

verus! {

/// The text made of `f(c)` for each character `c` of `s`, in order.
pub open spec fn map_chars(s: Seq<char>, f: spec_fn(char) -> Seq<char>) -> Seq<char>
    decreases s.len(),
{
    if s.len() == 0 {
        Seq::empty()
    } else {
        map_chars(s.drop_last(), f) + f(s.last())
    }
}

/// How one character is written in HTML: the four characters with a meaning
/// in markup and attributes become entities.
pub open spec fn html_escape_char(c: char) -> Seq<char> {
    if c == '&' {
        seq!['&', 'a', 'm', 'p', ';']
    } else if c == '<' {
        seq!['&', 'l', 't', ';']
    } else if c == '>' {
        seq!['&', 'g', 't', ';']
    } else if c == '"' {
        seq!['&', 'q', 'u', 'o', 't', ';']
    } else {
        seq![c]
    }
}

pub open spec fn html_escaped(s: Seq<char>) -> Seq<char> {
    map_chars(s, |c: char| html_escape_char(c))
}

/// The uppercase hexadecimal digit for `d` (below 16).
pub open spec fn hex_digit(d: nat) -> char {
    if d < 10 {
        (d + 48) as char
    } else {
        (d + 55) as char
    }
}

/// `\uXXXX`: the JavaScript escape of the code point `n`, four uppercase
/// hexadecimal digits.
pub open spec fn unicode_escape(n: nat) -> Seq<char> {
    seq![
        '\\',
        'u',
        hex_digit((n / 4096) % 16),
        hex_digit((n / 256) % 16),
        hex_digit((n / 16) % 16),
        hex_digit(n % 16),
    ]
}

/// How one character is written inside a double-quoted JavaScript string
/// literal that stands in a `<script>` element.
pub open spec fn js_escape_char(c: char) -> Seq<char> {
    if c == '\\' {
        seq!['\\', '\\']
    } else if c == '"' {
        seq!['\\', '"']
    } else if c == '\n' {
        seq!['\\', 'n']
    } else if c == '\r' {
        seq!['\\', 'r']
    } else if c == '\t' {
        seq!['\\', 't']
    } else if c == '<' {
        seq!['\\', 'u', '0', '0', '3', 'C']
    } else if c == '>' {
        seq!['\\', 'u', '0', '0', '3', 'E']
    } else if c == '&' {
        seq!['\\', 'u', '0', '0', '2', '6']
    } else if c == '\u{2028}' {
        seq!['\\', 'u', '2', '0', '2', '8']
    } else if c == '\u{2029}' {
        seq!['\\', 'u', '2', '0', '2', '9']
    } else if is_control(c) {
        unicode_escape((c as u32) as nat)
    } else {
        seq![c]
    }
}

pub open spec fn js_escaped(s: Seq<char>) -> Seq<char> {
    map_chars(s, |c: char| js_escape_char(c))
}

fn hex_digit_exec(d: u32) -> (c: char)
    requires
        d < 16,
    ensures
        c == hex_digit(d as nat),
{
    if d < 10 {
        ((d + 48) as u8) as char
    } else {
        ((d + 55) as u8) as char
    }
}

/// Escapes `s` for HTML text and attribute values: `&`, `<`, `>` and `"`
/// become `&amp;`, `&lt;`, `&gt;` and `&quot;`; every other character stays.
pub fn escape_html(s: &str) -> (r: String)
    ensures
        r@ == html_escaped(s@),
{
    broadcast use vstd::string::group_string_axioms;

    let ghost f = |c: char| html_escape_char(c);
    let mut out = String::new();
    for c in it: s.chars()
        invariant
            it.seq() == s@,
            f == (|c: char| html_escape_char(c)),
            out@ == map_chars(it.seq().take(it.index() as int), f),
    {
        let ghost done = it.seq().take(it.index() as int);
        assert(it.seq().take(it.index() + 1).drop_last() =~= done);
        if c == '&' {
            push_text(&mut out, "&amp;");
            proof {
                reveal_strlit("&amp;");
            }
            assert("&amp;"@ =~= seq!['&', 'a', 'm', 'p', ';']);
        } else if c == '<' {
            push_text(&mut out, "&lt;");
            proof {
                reveal_strlit("&lt;");
            }
            assert("&lt;"@ =~= seq!['&', 'l', 't', ';']);
        } else if c == '>' {
            push_text(&mut out, "&gt;");
            proof {
                reveal_strlit("&gt;");
            }
            assert("&gt;"@ =~= seq!['&', 'g', 't', ';']);
        } else if c == '"' {
            push_text(&mut out, "&quot;");
            proof {
                reveal_strlit("&quot;");
            }
            assert("&quot;"@ =~= seq!['&', 'q', 'u', 'o', 't', ';']);
        } else {
            push_char(&mut out, c);
        }
    }
    assert(s@.take(s@.len() as int) =~= s@);
    out
}

/// Escapes `s` for a double-quoted JavaScript string literal inside a
/// `<script>` element: backslash, quote and the line breaks get their short
/// escapes; `<`, `>`, `&`, U+2028, U+2029 and every other control character
/// get a `\uXXXX` escape, so the result can neither end the literal nor the
/// script element.
pub fn escape_js_string(s: &str) -> (r: String)
    ensures
        r@ == js_escaped(s@),
{
    broadcast use vstd::string::group_string_axioms;

    let ghost f = |c: char| js_escape_char(c);
    let mut out = String::new();
    for c in it: s.chars()
        invariant
            it.seq() == s@,
            f == (|c: char| js_escape_char(c)),
            out@ == map_chars(it.seq().take(it.index() as int), f),
    {
        let ghost done = it.seq().take(it.index() as int);
        assert(it.seq().take(it.index() + 1).drop_last() =~= done);
        if c == '\\' {
            push_text(&mut out, "\\\\");
            proof {
                reveal_strlit("\\\\");
            }
            assert("\\\\"@ =~= seq!['\\', '\\']);
        } else if c == '"' {
            push_text(&mut out, "\\\"");
            proof {
                reveal_strlit("\\\"");
            }
            assert("\\\""@ =~= seq!['\\', '"']);
        } else if c == '\n' {
            push_text(&mut out, "\\n");
            proof {
                reveal_strlit("\\n");
            }
            assert("\\n"@ =~= seq!['\\', 'n']);
        } else if c == '\r' {
            push_text(&mut out, "\\r");
            proof {
                reveal_strlit("\\r");
            }
            assert("\\r"@ =~= seq!['\\', 'r']);
        } else if c == '\t' {
            push_text(&mut out, "\\t");
            proof {
                reveal_strlit("\\t");
            }
            assert("\\t"@ =~= seq!['\\', 't']);
        } else if c == '<' {
            push_text(&mut out, "\\u003C");
            proof {
                reveal_strlit("\\u003C");
            }
            assert("\\u003C"@ =~= seq!['\\', 'u', '0', '0', '3', 'C']);
        } else if c == '>' {
            push_text(&mut out, "\\u003E");
            proof {
                reveal_strlit("\\u003E");
            }
            assert("\\u003E"@ =~= seq!['\\', 'u', '0', '0', '3', 'E']);
        } else if c == '&' {
            push_text(&mut out, "\\u0026");
            proof {
                reveal_strlit("\\u0026");
            }
            assert("\\u0026"@ =~= seq!['\\', 'u', '0', '0', '2', '6']);
        } else if c == '\u{2028}' {
            push_text(&mut out, "\\u2028");
            proof {
                reveal_strlit("\\u2028");
            }
            assert("\\u2028"@ =~= seq!['\\', 'u', '2', '0', '2', '8']);
        } else if c == '\u{2029}' {
            push_text(&mut out, "\\u2029");
            proof {
                reveal_strlit("\\u2029");
            }
            assert("\\u2029"@ =~= seq!['\\', 'u', '2', '0', '2', '9']);
        } else if crate::text::is_control_char(c) {
            let n = c as u32;
            let d3 = hex_digit_exec((n / 4096) % 16);
            let d2 = hex_digit_exec((n / 256) % 16);
            let d1 = hex_digit_exec((n / 16) % 16);
            let d0 = hex_digit_exec(n % 16);
            push_char(&mut out, '\\');
            push_char(&mut out, 'u');
            push_char(&mut out, d3);
            push_char(&mut out, d2);
            push_char(&mut out, d1);
            push_char(&mut out, d0);
            assert(seq!['\\', 'u', d3, d2, d1, d0] =~= unicode_escape((c as u32) as nat));
        } else {
            push_char(&mut out, c);
            assert(f(c) == seq![c]);
        }
    }
    assert(s@.take(s@.len() as int) =~= s@);
    out
}

/// If every character of every piece satisfies `p`, so does every character
/// of a text made of pieces.
pub proof fn lemma_map_chars_all(s: Seq<char>, f: spec_fn(char) -> Seq<char>, p: spec_fn(char) -> bool)
    requires
        forall|c: char, i: int| 0 <= i < f(c).len() ==> p(#[trigger] f(c)[i]),
    ensures
        forall|i: int| 0 <= i < map_chars(s, f).len() ==> p(#[trigger] map_chars(s, f)[i]),
    decreases s.len(),
{
    if s.len() > 0 {
        lemma_map_chars_all(s.drop_last(), f, p);
        let a = map_chars(s.drop_last(), f);
        let b = f(s.last());
        assert forall|i: int| 0 <= i < (a + b).len() implies p(#[trigger] (a + b)[i]) by {
            if i < a.len() {
                assert((a + b)[i] == a[i]);
            } else {
                assert((a + b)[i] == b[i - a.len()]);
            }
        }
    }
}

/// Text escaped for HTML holds no `<`, `>` or `"`: whatever a title or a
/// page's content holds, it cannot open a tag or end an attribute value.
pub proof fn law_html_escape_leaves_no_markup(s: Seq<char>)
    ensures
        lacks_char(html_escaped(s), '<'),
        lacks_char(html_escaped(s), '>'),
        lacks_char(html_escaped(s), '"'),
{
    let f = |c: char| html_escape_char(c);
    let p = |c: char| c != '<' && c != '>' && c != '"';
    assert forall|c: char, i: int| 0 <= i < f(c).len() implies p(#[trigger] f(c)[i]) by {}
    lemma_map_chars_all(s, f, p);
    assert forall|i: int| 0 <= i < html_escaped(s).len() implies #[trigger] html_escaped(s)[i] != '<'
        && html_escaped(s)[i] != '>' && html_escaped(s)[i] != '"' by {
        assert(p(map_chars(s, f)[i]));
    }
}

/// Text escaped for a script string holds no `<`, `>` or `&`, no control
/// character (so no line break) and neither U+2028 nor U+2029: it can end
/// neither the string literal's line nor the `<script>` element.
pub proof fn law_js_escape_is_script_safe(s: Seq<char>)
    ensures
        lacks_char(js_escaped(s), '<'),
        lacks_char(js_escaped(s), '>'),
        lacks_char(js_escaped(s), '&'),
        lacks_char(js_escaped(s), '\u{2028}'),
        lacks_char(js_escaped(s), '\u{2029}'),
        forall|i: int| 0 <= i < js_escaped(s).len() ==> !is_control(#[trigger] js_escaped(s)[i]),
{
    let f = |c: char| js_escape_char(c);
    let p = |c: char|
        c != '<' && c != '>' && c != '&' && c != '\u{2028}' && c != '\u{2029}' && !is_control(c);
    assert forall|c: char, i: int| 0 <= i < f(c).len() implies p(#[trigger] f(c)[i]) by {
        if is_control(c) && c != '\\' && c != '"' && c != '\n' && c != '\r' && c != '\t' {
            let n = (c as u32) as nat;
            assert(n / 4096 % 16 < 16 && n / 256 % 16 < 16 && n / 16 % 16 < 16 && n % 16 < 16);
        }
    }
    lemma_map_chars_all(s, f, p);
    assert forall|i: int| 0 <= i < js_escaped(s).len() implies p(#[trigger] js_escaped(s)[i]) by {
        assert(p(map_chars(s, f)[i]));
    }
}

/// Mapping a text made of two parts maps each part.
pub proof fn lemma_map_chars_concat(a: Seq<char>, b: Seq<char>, f: spec_fn(char) -> Seq<char>)
    ensures
        map_chars(a + b, f) == map_chars(a, f) + map_chars(b, f),
    decreases b.len(),
{
    if b.len() == 0 {
        assert(a + b =~= a);
        assert(map_chars(a, f) + map_chars(b, f) =~= map_chars(a, f));
    } else {
        assert((a + b).drop_last() =~= a + b.drop_last());
        assert((a + b).last() == b.last());
        lemma_map_chars_concat(a, b.drop_last(), f);
        assert(map_chars(a + b, f) =~= map_chars(a, f) + map_chars(b, f));
    }
}

/// Mapping a text maps its first character, then the rest.
pub proof fn lemma_map_chars_front(s: Seq<char>, f: spec_fn(char) -> Seq<char>)
    requires
        s.len() > 0,
    ensures
        map_chars(s, f) == f(s[0]) + map_chars(s.drop_first(), f),
{
    assert(s =~= seq![s[0]] + s.drop_first());
    lemma_map_chars_concat(seq![s[0]], s.drop_first(), f);
    let one = seq![s[0]];
    assert(one.drop_last() =~= Seq::<char>::empty());
    assert(one.last() == s[0]);
    assert(map_chars(Seq::<char>::empty(), f) == Seq::<char>::empty());
    assert(map_chars(one, f) == map_chars(one.drop_last(), f) + f(one.last()));
    assert(map_chars(one, f) =~= f(s[0]));
}

/// Escaping for HTML escapes each part of a text on its own: the escape of
/// a concatenation is the concatenation of the escapes, and the empty text
/// stays empty.
pub proof fn law_html_escape_is_piecewise(a: Seq<char>, b: Seq<char>)
    ensures
        html_escaped(a + b) == html_escaped(a) + html_escaped(b),
        html_escaped(Seq::empty()) == Seq::<char>::empty(),
{
    lemma_map_chars_concat(a, b, |c: char| html_escape_char(c));
}

/// Escaping for a script escapes each part of a text on its own: the escape
/// of a concatenation is the concatenation of the escapes, and the empty
/// text stays empty.
pub proof fn law_js_escape_is_piecewise(a: Seq<char>, b: Seq<char>)
    ensures
        js_escaped(a + b) == js_escaped(a) + js_escaped(b),
        js_escaped(Seq::empty()) == Seq::<char>::empty(),
{
    lemma_map_chars_concat(a, b, |c: char| js_escape_char(c));
}

/// Decodes the four entities `escape_html` writes, in one pass from left to
/// right, as a browser reads text and attribute values; every other
/// character stands for itself.
pub open spec fn html_unescape(s: Seq<char>) -> Seq<char>
    decreases s.len(),
{
    if s.len() == 0 {
        Seq::empty()
    } else if s.len() >= 5 && s.subrange(0, 5) == seq!['&', 'a', 'm', 'p', ';'] {
        seq!['&'] + html_unescape(s.skip(5))
    } else if s.len() >= 4 && s.subrange(0, 4) == seq!['&', 'l', 't', ';'] {
        seq!['<'] + html_unescape(s.skip(4))
    } else if s.len() >= 4 && s.subrange(0, 4) == seq!['&', 'g', 't', ';'] {
        seq!['>'] + html_unescape(s.skip(4))
    } else if s.len() >= 6 && s.subrange(0, 6) == seq!['&', 'q', 'u', 'o', 't', ';'] {
        seq!['"'] + html_unescape(s.skip(6))
    } else {
        seq![s[0]] + html_unescape(s.drop_first())
    }
}

proof fn lemma_html_unescape_step(c: char, r: Seq<char>)
    ensures
        html_unescape(html_escape_char(c) + r) == seq![c] + html_unescape(r),
{
    let e = html_escape_char(c);
    let s = e + r;
    assert(s.len() > 0);
    if c == '&' {
        assert(s.subrange(0, 5) =~= e);
        assert(s.skip(5) =~= r);
    } else if c == '<' {
        assert(s.subrange(0, 4) =~= e);
        assert(s.skip(4) =~= r);
        assert(s[1] == 'l');
    } else if c == '>' {
        assert(s.subrange(0, 4) =~= e);
        assert(s.skip(4) =~= r);
        assert(s[1] == 'g');
    } else if c == '"' {
        assert(s.subrange(0, 6) =~= e);
        assert(s.skip(6) =~= r);
        assert(s[1] == 'q');
    } else {
        assert(s[0] == c);
        assert(s.len() >= 5 ==> s.subrange(0, 5)[0] == c);
        assert(s.len() >= 4 ==> s.subrange(0, 4)[0] == c);
        assert(s.len() >= 6 ==> s.subrange(0, 6)[0] == c);
        assert(s.drop_first() =~= r);
    }
}

/// Decoding the entities of text escaped for HTML gives the text back:
/// escaping loses nothing.
pub proof fn law_html_unescape_inverts_escape(s: Seq<char>)
    ensures
        html_unescape(html_escaped(s)) == s,
    decreases s.len(),
{
    if s.len() == 0 {
    } else {
        let f = |c: char| html_escape_char(c);
        lemma_map_chars_front(s, f);
        lemma_html_unescape_step(s[0], html_escaped(s.drop_first()));
        law_html_unescape_inverts_escape(s.drop_first());
        assert(s =~= seq![s[0]] + s.drop_first());
    }
}

/// The value of an ASCII hexadecimal digit, either case.
pub open spec fn hex_value(c: char) -> Option<nat> {
    if '0' <= c && c <= '9' {
        Some((c as u32 - 48) as nat)
    } else if 'A' <= c && c <= 'F' {
        Some((c as u32 - 55) as nat)
    } else if 'a' <= c && c <= 'f' {
        Some((c as u32 - 87) as nat)
    } else {
        None
    }
}

/// `c` before the text `rest` stands for, if it stands for one.
pub open spec fn prepend(c: char, rest: Option<Seq<char>>) -> Option<Seq<char>> {
    match rest {
        Some(r) => Some(seq![c] + r),
        None => None,
    }
}

/// The value of the text between the quotes of a JSON string (also a
/// JavaScript string literal): `None` when the text is no valid string
/// body, with a bare quote, a bare character below U+0020 or an unknown
/// escape. `\uXXXX` escapes of surrogates, which only pairs may use, are
/// refused too; the escaping here never writes them.
pub open spec fn json_string_value(s: Seq<char>) -> Option<Seq<char>>
    decreases s.len(),
{
    if s.len() == 0 {
        Some(Seq::empty())
    } else if s[0] == '"' || (s[0] as u32) < 0x20 {
        None
    } else if s[0] != '\\' {
        prepend(s[0], json_string_value(s.drop_first()))
    } else if s.len() < 2 {
        None
    } else if s[1] == '"' || s[1] == '\\' || s[1] == '/' {
        prepend(s[1], json_string_value(s.skip(2)))
    } else if s[1] == 'b' {
        prepend('\u{8}', json_string_value(s.skip(2)))
    } else if s[1] == 'f' {
        prepend('\u{c}', json_string_value(s.skip(2)))
    } else if s[1] == 'n' {
        prepend('\n', json_string_value(s.skip(2)))
    } else if s[1] == 'r' {
        prepend('\r', json_string_value(s.skip(2)))
    } else if s[1] == 't' {
        prepend('\t', json_string_value(s.skip(2)))
    } else if s[1] == 'u' && s.len() >= 6 && hex_value(s[2]) is Some && hex_value(s[3]) is Some
        && hex_value(s[4]) is Some && hex_value(s[5]) is Some {
        let n = hex_value(s[2])->0 * 4096 + hex_value(s[3])->0 * 256 + hex_value(s[4])->0 * 16
            + hex_value(s[5])->0;
        if 0xD800 <= n && n <= 0xDFFF {
            None
        } else {
            prepend(n as char, json_string_value(s.skip(6)))
        }
    } else {
        None
    }
}

proof fn lemma_hex_digit_value(d: nat)
    requires
        d < 16,
    ensures
        hex_value(hex_digit(d)) == Some(d),
{
}

proof fn lemma_json_unicode_escape(c: char, r: Seq<char>, n: nat)
    requires
        n == (c as u32) as nat,
        n < 0x1000,
        !(0xD800 <= n && n <= 0xDFFF),
    ensures
        json_string_value(unicode_escape(n) + r) == prepend(c, json_string_value(r)),
{
    let s = unicode_escape(n) + r;
    lemma_hex_digit_value((n / 4096) % 16);
    lemma_hex_digit_value((n / 256) % 16);
    lemma_hex_digit_value((n / 16) % 16);
    lemma_hex_digit_value(n % 16);
    assert(s[0] == '\\' && s[1] == 'u');
    assert(s[2] == hex_digit((n / 4096) % 16));
    assert(s[3] == hex_digit((n / 256) % 16));
    assert(s[4] == hex_digit((n / 16) % 16));
    assert(s[5] == hex_digit(n % 16));
    assert(((n / 4096) % 16) * 4096 + ((n / 256) % 16) * 256 + ((n / 16) % 16) * 16 + n % 16 == n)
        by (nonlinear_arith)
        requires
            n < 0x1000,
    ;
    assert(s.skip(6) =~= r);
    assert((n as char) == c);
}

proof fn lemma_json_step(c: char, r: Seq<char>)
    ensures
        json_string_value(js_escape_char(c) + r) == prepend(c, json_string_value(r)),
{
    let e = js_escape_char(c);
    let s = e + r;
    if c == '\\' || c == '"' || c == '\n' || c == '\r' || c == '\t' {
        assert(s[0] == '\\');
        assert(s[1] == e[1]);
        assert(s.skip(2) =~= r);
    } else if c == '<' {
        lemma_json_unicode_escape(c, r, 0x3C);
        assert(e =~= unicode_escape(0x3C));
    } else if c == '>' {
        lemma_json_unicode_escape(c, r, 0x3E);
        assert(e =~= unicode_escape(0x3E));
    } else if c == '&' {
        lemma_json_unicode_escape(c, r, 0x26);
        assert(e =~= unicode_escape(0x26));
    } else if c == '\u{2028}' {
        assert(e =~= seq!['\\', 'u', '2', '0', '2', '8']);
        assert(s[0] == '\\' && s[1] == 'u' && s[2] == '2' && s[3] == '0' && s[4] == '2' && s[5] == '8');
        assert(s.skip(6) =~= r);
        assert((0x2028nat as char) == c);
    } else if c == '\u{2029}' {
        assert(e =~= seq!['\\', 'u', '2', '0', '2', '9']);
        assert(s[0] == '\\' && s[1] == 'u' && s[2] == '2' && s[3] == '0' && s[4] == '2' && s[5] == '9');
        assert(s.skip(6) =~= r);
        assert((0x2029nat as char) == c);
    } else if is_control(c) {
        lemma_json_unicode_escape(c, r, (c as u32) as nat);
    } else {
        assert(s[0] == c);
        assert(s.drop_first() =~= r);
    }
}

/// Text escaped for a script, put between double quotes, is a JSON (and
/// JavaScript) string literal whose value is exactly the text.
pub proof fn law_js_escape_reads_back_as_json_string(s: Seq<char>)
    ensures
        json_string_value(js_escaped(s)) == Some(s),
    decreases s.len(),
{
    if s.len() > 0 {
        let f = |c: char| js_escape_char(c);
        lemma_map_chars_front(s, f);
        lemma_json_step(s[0], js_escaped(s.drop_first()));
        law_js_escape_reads_back_as_json_string(s.drop_first());
        assert(s =~= seq![s[0]] + s.drop_first());
    }
}

/// One of the four entities `escape_html` writes starts at position `i` of `r`.
pub open spec fn starts_entity(r: Seq<char>, i: int) -> bool {
    ||| occurs_at(r, seq!['&', 'a', 'm', 'p', ';'], i)
    ||| occurs_at(r, seq!['&', 'l', 't', ';'], i)
    ||| occurs_at(r, seq!['&', 'g', 't', ';'], i)
    ||| occurs_at(r, seq!['&', 'q', 'u', 'o', 't', ';'], i)
}

proof fn lemma_starts_entity_extends(a: Seq<char>, b: Seq<char>, i: int)
    requires
        starts_entity(a, i),
    ensures
        starts_entity(a + b, i),
{
    let s = a + b;
    assert forall|e: Seq<char>| occurs_at(a, e, i) implies #[trigger] occurs_at(s, e, i) by {
        assert(s.subrange(i, i + e.len()) =~= a.subrange(i, i + e.len()));
    }
}

/// Every `&` in text escaped for HTML starts one of the four entities: the
/// escape leaves no bare ampersand for a browser to misread.
pub proof fn law_html_escape_ampersands_start_entities(s: Seq<char>)
    ensures
        forall|i: int|
            0 <= i < html_escaped(s).len() && #[trigger] html_escaped(s)[i] == '&' ==> starts_entity(
                html_escaped(s),
                i,
            ),
    decreases s.len(),
{
    if s.len() > 0 {
        let init = s.drop_last();
        law_html_escape_ampersands_start_entities(init);
        let a = html_escaped(init);
        let b = html_escape_char(s.last());
        assert(html_escaped(s) == a + b);
        assert forall|i: int| 0 <= i < (a + b).len() && #[trigger] (a + b)[i] == '&' implies starts_entity(
            a + b,
            i,
        ) by {
            if i < a.len() {
                assert((a + b)[i] == a[i]);
                lemma_starts_entity_extends(a, b, i);
            } else {
                let j = i - a.len();
                assert((a + b)[i] == b[j]);
                assert((a + b).subrange(i, i + b.len()) =~= b);
                let c = s.last();
                if c == '&' {
                    assert(occurs_at(a + b, seq!['&', 'a', 'm', 'p', ';'], i));
                } else if c == '<' {
                    assert(occurs_at(a + b, seq!['&', 'l', 't', ';'], i));
                } else if c == '>' {
                    assert(occurs_at(a + b, seq!['&', 'g', 't', ';'], i));
                } else if c == '"' {
                    assert(occurs_at(a + b, seq!['&', 'q', 'u', 'o', 't', ';'], i));
                } else {
                    assert(b == seq![c]);
                }
            }
        }
    }
}

} // verus!

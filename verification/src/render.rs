//! The editor page: the sidebar with the list of pages, the page index the
//! preview script reads, and the whole HTML document.
use vstd::prelude::*;
use crate::escape::{
    escape_html, escape_js_string, html_escaped, js_escaped, json_string_value,
    law_html_escape_leaves_no_markup, law_js_escape_is_script_safe,
    law_js_escape_reads_back_as_json_string,
};
use crate::template::{
    DELETE_FORM_OPEN, EDITOR_OPEN, HINT_INDENT, LEGACY_HINT, PAGE_BEFORE_CONTENT,
    PAGE_BEFORE_DELETE_ID, PAGE_BEFORE_LEGACY_HINT, PAGE_BEFORE_MARKED_SCRIPT, PAGE_BEFORE_PAGE_ID,
    PAGE_BEFORE_PAGE_INDEX, PAGE_BEFORE_SIDEBAR, PAGE_BEFORE_TITLE_VALUE, PAGE_HEAD,
    PAGE_ID_DECLARATION, PAGE_INDEX_DECLARATION, PAGE_TAIL, SCRIPT_OPEN, SIDEBAR_INDENT,
    TITLE_INPUT_OPEN, TITLE_OPEN,
};
use crate::text::{
    chars_of, contains_exec, contains_text, ends_with, is_blank, is_white_space, lacks_char,
    lemma_lacking_first_char, lemma_no_occurrence, lemma_no_open_prefix_concat,
    lemma_no_open_prefix_long_tail, lemma_occurrences_concat, no_open_prefix, occurrences,
    occurs_at, push_char, push_text, skip_white, skip_white_exec, text_equal,
};

verus! {

/// A page as the sidebar and the page index show it.
pub struct PageMeta {
    pub id: String,
    pub title: String,
}

/// The items, with `sep` between each two of them.
pub open spec fn joined(items: Seq<Seq<char>>, sep: Seq<char>) -> Seq<char>
    decreases items.len(),
{
    if items.len() == 0 {
        Seq::empty()
    } else if items.len() == 1 {
        items[0]
    } else {
        joined(items.drop_last(), sep) + sep + items.last()
    }
}

/// Opening a link in the sidebar, up to the page id.
pub const SIDEBAR_LINK_OPEN: &'static str = r#"<a href="/page/"#;

/// After the id, up to the class that marks the current page.
pub const SIDEBAR_LINK_CLASS: &'static str = r#"" class="page-item"#;

/// The class that marks the current page.
pub const SIDEBAR_ACTIVE: &'static str = " active";

/// After the class, up to the title.
pub const SIDEBAR_LINK_TITLE: &'static str = r#""><span class="page-icon" aria-hidden="true"></span><span class="page-title">"#;

/// After the title.
pub const SIDEBAR_LINK_CLOSE: &'static str = "</span></a>";

/// One sidebar link: to the page `id`, marked active when it is the page
/// `current`, showing `title`.
pub open spec fn sidebar_link(id: Seq<char>, title: Seq<char>, current: Seq<char>) -> Seq<char> {
    SIDEBAR_LINK_OPEN@ + html_escaped(id) + SIDEBAR_LINK_CLASS@ + (if id == current {
        SIDEBAR_ACTIVE@
    } else {
        Seq::empty()
    }) + SIDEBAR_LINK_TITLE@ + html_escaped(title) + SIDEBAR_LINK_CLOSE@
}

pub open spec fn sidebar_links(current: Seq<char>, pages: Seq<PageMeta>) -> Seq<Seq<char>> {
    pages.map_values(|p: PageMeta| sidebar_link(p.id@, p.title@, current))
}

/// The sidebar: one link per page, in order, one per line.
pub open spec fn sidebar_spec(current: Seq<char>, pages: Seq<PageMeta>) -> Seq<char> {
    joined(sidebar_links(current, pages), seq!['\n'])
}

/// Opening a page index entry, up to the id.
pub const INDEX_ENTRY_OPEN: &'static str = r#"{"id":""#;

/// Between the id and the title.
pub const INDEX_ENTRY_TITLE: &'static str = r#"","title":""#;

/// After the title.
pub const INDEX_ENTRY_CLOSE: &'static str = r#""}"#;

/// One entry of the page index: an object with the page's id and title.
pub open spec fn index_entry(id: Seq<char>, title: Seq<char>) -> Seq<char> {
    INDEX_ENTRY_OPEN@ + js_escaped(id) + INDEX_ENTRY_TITLE@ + js_escaped(title) + INDEX_ENTRY_CLOSE@
}

pub open spec fn index_entries(pages: Seq<PageMeta>) -> Seq<Seq<char>> {
    pages.map_values(|p: PageMeta| index_entry(p.id@, p.title@))
}

/// The page index: a JSON array of one entry per page, in order.
pub open spec fn page_index_spec(pages: Seq<PageMeta>) -> Seq<char> {
    seq!['['] + joined(index_entries(pages), seq![',']) + seq![']']
}

/// Whether a page's content looks like HTML from the editor's earlier format:
/// after leading white space it starts with `<`, or it holds `<p>` or `<h1`.
pub open spec fn legacy_html_spec(s: Seq<char>) -> bool {
    let t = s.skip(skip_white(s, 0, s.len() as int));
    ||| (t.len() > 0 && t[0] == '<')
    ||| contains_text(t, seq!['<', 'p', '>'])
    ||| contains_text(t, seq!['<', 'h', '1'])
}

/// The editor page for the page `page_id` with `title` and `content`, the
/// list of all `pages`, and `marked_js`, the Markdown renderer's script.
pub open spec fn html_page_spec(
    page_id: Seq<char>,
    title: Seq<char>,
    content: Seq<char>,
    pages: Seq<PageMeta>,
    marked_js: Seq<char>,
) -> Seq<char> {
    PAGE_HEAD@ + TITLE_OPEN@ + html_escaped(title) + PAGE_BEFORE_SIDEBAR@ + SIDEBAR_INDENT@
        + sidebar_spec(page_id, pages) + PAGE_BEFORE_DELETE_ID@ + DELETE_FORM_OPEN@
        + html_escaped(page_id) + PAGE_BEFORE_TITLE_VALUE@ + TITLE_INPUT_OPEN@ + html_escaped(title)
        + PAGE_BEFORE_LEGACY_HINT@ + HINT_INDENT@ + legacy_hint_spec(content) + PAGE_BEFORE_CONTENT@
        + EDITOR_OPEN@ + html_escaped(content) + PAGE_BEFORE_MARKED_SCRIPT@ + SCRIPT_OPEN@
        + marked_js + PAGE_BEFORE_PAGE_INDEX@ + PAGE_INDEX_DECLARATION@ + page_index_spec(pages)
        + PAGE_BEFORE_PAGE_ID@ + PAGE_ID_DECLARATION@ + html_escaped(page_id) + PAGE_TAIL@
}

/// The old-format hint when `content` is HTML of the earlier format, nothing
/// otherwise.
pub open spec fn legacy_hint_spec(content: Seq<char>) -> Seq<char> {
    if legacy_html_spec(content) {
        LEGACY_HINT@
    } else {
        Seq::empty()
    }
}

/// Whether a page's content is HTML from the editor's earlier format, which
/// the Markdown preview does not show right.
pub fn is_legacy_html(s: &str) -> (r: bool)
    ensures
        r == legacy_html_spec(s@),
{
    let v = chars_of(s);
    let start = skip_white_exec(&v, 0, v.len());
    let ghost t = v@.skip(start as int);
    let mut rest: Vec<char> = Vec::new();
    let mut i = start;
    while i < v.len()
        invariant
            start <= i <= v.len(),
            rest@ == v@.subrange(start as int, i as int),
        decreases v.len() - i,
    {
        rest.push(v[i]);
        i = i + 1;
        assert(rest@ =~= v@.subrange(start as int, i as int));
    }
    assert(rest@ =~= t);
    if rest.len() > 0 && rest[0] == '<' {
        return true;
    }
    let para = chars_of("<p>");
    let heading = chars_of("<h1");
    proof {
        reveal_strlit("<p>");
        reveal_strlit("<h1");
    }
    assert(para@ =~= seq!['<', 'p', '>']);
    assert(heading@ =~= seq!['<', 'h', '1']);
    contains_exec(&rest, &para) || contains_exec(&rest, &heading)
}

/// The sidebar's list of links, one per page, the page `current_id` marked
/// active.
pub fn render_sidebar(current_id: &str, pages: &[PageMeta]) -> (r: String)
    ensures
        r@ == sidebar_spec(current_id@, pages@),
{
    let ghost items = sidebar_links(current_id@, pages@);
    let mut out = String::new();
    let mut i: usize = 0;
    while i < pages.len()
        invariant
            i <= pages.len(),
            items == sidebar_links(current_id@, pages@),
            items.len() == pages@.len(),
            out@ == joined(items.take(i as int), seq!['\n']),
        decreases pages.len() - i,
    {
        let p = &pages[i];
        if i > 0 {
            push_char(&mut out, '\n');
        }
        push_text(&mut out, SIDEBAR_LINK_OPEN);
        let id = escape_html(p.id.as_str());
        push_text(&mut out, id.as_str());
        push_text(&mut out, SIDEBAR_LINK_CLASS);
        if text_equal(p.id.as_str(), current_id) {
            push_text(&mut out, SIDEBAR_ACTIVE);
        }
        push_text(&mut out, SIDEBAR_LINK_TITLE);
        let title = escape_html(p.title.as_str());
        push_text(&mut out, title.as_str());
        push_text(&mut out, SIDEBAR_LINK_CLOSE);
        proof {
            let prefix = items.take(i as int);
            let next = items.take(i + 1);
            assert(next.drop_last() =~= prefix);
            assert(items[i as int] == sidebar_link(p.id@, p.title@, current_id@));
            if i > 0 {
                assert(out@ =~= joined(prefix, seq!['\n']) + seq!['\n'] + items[i as int]);
            } else {
                assert(out@ =~= items[i as int]);
            }
        }
        i = i + 1;
    }
    assert(items.take(pages.len() as int) =~= items);
    out
}

/// The page index the preview script reads to resolve `[[title]]` links: a
/// JSON array of `{"id":…,"title":…}` objects, one per page, with ids and
/// titles escaped for a script.
pub fn render_page_index_json(pages: &[PageMeta]) -> (r: String)
    ensures
        r@ == page_index_spec(pages@),
{
    let ghost items = index_entries(pages@);
    let mut out = String::new();
    push_char(&mut out, '[');
    let mut i: usize = 0;
    while i < pages.len()
        invariant
            i <= pages.len(),
            items == index_entries(pages@),
            items.len() == pages@.len(),
            out@ == seq!['['] + joined(items.take(i as int), seq![',']),
        decreases pages.len() - i,
    {
        let p = &pages[i];
        if i > 0 {
            push_char(&mut out, ',');
        }
        push_text(&mut out, INDEX_ENTRY_OPEN);
        let id = escape_js_string(p.id.as_str());
        push_text(&mut out, id.as_str());
        push_text(&mut out, INDEX_ENTRY_TITLE);
        let title = escape_js_string(p.title.as_str());
        push_text(&mut out, title.as_str());
        push_text(&mut out, INDEX_ENTRY_CLOSE);
        proof {
            let prefix = items.take(i as int);
            let next = items.take(i + 1);
            assert(next.drop_last() =~= prefix);
            assert(items[i as int] == index_entry(p.id@, p.title@));
            if i > 0 {
                assert(out@ =~= seq!['['] + (joined(prefix, seq![',']) + seq![','] + items[i as int]));
            } else {
                assert(out@ =~= seq!['['] + items[i as int]);
            }
        }
        i = i + 1;
    }
    assert(items.take(pages.len() as int) =~= items);
    push_char(&mut out, ']');
    assert(out@ =~= page_index_spec(pages@));
    out
}

/// The editor page for the page `page_id`, titled `title`, holding
/// `content`, with the sidebar of all `pages` and `marked_js`, the source of
/// the Markdown renderer, inlined.
pub fn get_html_template(
    page_id: &str,
    title: &str,
    content: &str,
    pages: &[PageMeta],
    marked_js: &str,
) -> (r: String)
    ensures
        r@ == html_page_spec(page_id@, title@, content@, pages@, marked_js@),
{
    let sidebar = render_sidebar(page_id, pages);
    let page_index = render_page_index_json(pages);
    let legacy = is_legacy_html(content);
    let title_html = escape_html(title);
    let id_html = escape_html(page_id);
    let content_html = escape_html(content);
    let mut out = String::new();
    push_text(&mut out, PAGE_HEAD);
    push_text(&mut out, TITLE_OPEN);
    push_text(&mut out, title_html.as_str());
    push_text(&mut out, PAGE_BEFORE_SIDEBAR);
    push_text(&mut out, SIDEBAR_INDENT);
    push_text(&mut out, sidebar.as_str());
    push_text(&mut out, PAGE_BEFORE_DELETE_ID);
    push_text(&mut out, DELETE_FORM_OPEN);
    push_text(&mut out, id_html.as_str());
    push_text(&mut out, PAGE_BEFORE_TITLE_VALUE);
    push_text(&mut out, TITLE_INPUT_OPEN);
    push_text(&mut out, title_html.as_str());
    push_text(&mut out, PAGE_BEFORE_LEGACY_HINT);
    push_text(&mut out, HINT_INDENT);
    if legacy {
        push_text(&mut out, LEGACY_HINT);
    }
    push_text(&mut out, PAGE_BEFORE_CONTENT);
    push_text(&mut out, EDITOR_OPEN);
    push_text(&mut out, content_html.as_str());
    push_text(&mut out, PAGE_BEFORE_MARKED_SCRIPT);
    push_text(&mut out, SCRIPT_OPEN);
    push_text(&mut out, marked_js);
    push_text(&mut out, PAGE_BEFORE_PAGE_INDEX);
    push_text(&mut out, PAGE_INDEX_DECLARATION);
    push_text(&mut out, page_index.as_str());
    push_text(&mut out, PAGE_BEFORE_PAGE_ID);
    push_text(&mut out, PAGE_ID_DECLARATION);
    push_text(&mut out, id_html.as_str());
    push_text(&mut out, PAGE_TAIL);
    assert(out@ =~= html_page_spec(page_id@, title@, content@, pages@, marked_js@));
    out
}

/// Where a sidebar link for the page `id` has its class attribute's end:
/// right after `class="page-item`.
pub open spec fn link_class_end(id: Seq<char>) -> int {
    (SIDEBAR_LINK_OPEN@ + html_escaped(id) + SIDEBAR_LINK_CLASS@).len() as int
}

/// A sidebar link carries the class that marks the current page exactly when
/// its page's id is the current page's id: right after `class="page-item`
/// comes ` active` for that page, and the attribute's closing `"` for every
/// other, whatever the ids have in common.
pub proof fn law_link_is_active_exactly_for_current_page(
    id: Seq<char>,
    title: Seq<char>,
    current: Seq<char>,
)
    ensures
        occurs_at(sidebar_link(id, title, current), SIDEBAR_ACTIVE@, link_class_end(id)) <==> id
            == current,
        occurs_at(sidebar_link(id, title, current), seq!['"'], link_class_end(id)) <==> id
            != current,
{
    reveal_strlit(r#" active"#);
    reveal_strlit(r#""><span class="page-icon" aria-hidden="true"></span><span class="page-title">"#);
    let head = SIDEBAR_LINK_OPEN@ + html_escaped(id) + SIDEBAR_LINK_CLASS@;
    let tail = SIDEBAR_LINK_TITLE@ + html_escaped(title) + SIDEBAR_LINK_CLOSE@;
    let link = sidebar_link(id, title, current);
    let k = link_class_end(id);
    if id == current {
        assert(link =~= head + (SIDEBAR_ACTIVE@ + tail));
        assert(link.subrange(k, k + 7) =~= SIDEBAR_ACTIVE@);
        assert(link[k] == ' ');
        assert(link.subrange(k, k + 1)[0] == link[k]);
    } else {
        assert(link =~= head + tail);
        assert(link[k] == '"');
        assert(link.subrange(k, k + 1) =~= seq!['"']);
        if occurs_at(link, SIDEBAR_ACTIVE@, k) {
            assert(link.subrange(k, k + 7)[0] == link[k]);
        }
    }
}

/// In the sidebar, the link of each page is marked active exactly when the
/// page's id is the current one.
pub proof fn law_sidebar_marks_only_the_current_page(current: Seq<char>, pages: Seq<PageMeta>)
    ensures
        sidebar_links(current, pages).len() == pages.len(),
        forall|i: int|
            0 <= i < pages.len() ==> (occurs_at(
                #[trigger] sidebar_links(current, pages)[i],
                SIDEBAR_ACTIVE@,
                link_class_end(pages[i].id@),
            ) <==> pages[i].id@ == current),
{
    assert forall|i: int| 0 <= i < pages.len() implies (occurs_at(
        #[trigger] sidebar_links(current, pages)[i],
        SIDEBAR_ACTIVE@,
        link_class_end(pages[i].id@),
    ) <==> pages[i].id@ == current) by {
        law_link_is_active_exactly_for_current_page(pages[i].id@, pages[i].title@, current);
    }
}

/// Joining two non-empty lists one after the other puts the separator
/// between them: after the last item of the first and before the first item
/// of the second, as between any two items.
pub proof fn law_joined_concat(a: Seq<Seq<char>>, b: Seq<Seq<char>>, sep: Seq<char>)
    requires
        a.len() > 0,
        b.len() > 0,
    ensures
        joined(a + b, sep) == joined(a, sep) + sep + joined(b, sep),
    decreases b.len(),
{
    let ab = a + b;
    if b.len() == 1 {
        assert(ab.drop_last() =~= a);
        assert(ab.last() == b[0]);
    } else {
        assert(ab.drop_last() =~= a + b.drop_last());
        assert(ab.last() == b.last());
        law_joined_concat(a, b.drop_last(), sep);
        assert(joined(ab, sep) =~= joined(a, sep) + sep + (joined(b.drop_last(), sep) + sep
            + b.last()));
    }
}

/// The page index of two non-empty lists of pages, one after the other, is
/// the first list's entries, a comma, then the second list's: every two
/// entries stand apart by a comma.
pub proof fn law_page_index_concat(a: Seq<PageMeta>, b: Seq<PageMeta>)
    requires
        a.len() > 0,
        b.len() > 0,
    ensures
        page_index_spec(a + b) == page_index_spec(a).drop_last() + seq![','] + page_index_spec(
            b,
        ).drop_first(),
{
    assert(index_entries(a + b) =~= index_entries(a) + index_entries(b));
    law_joined_concat(index_entries(a), index_entries(b), seq![',']);
    let ja = joined(index_entries(a), seq![',']);
    let jb = joined(index_entries(b), seq![',']);
    assert(page_index_spec(a).drop_last() =~= seq!['['] + ja);
    assert(page_index_spec(b).drop_first() =~= jb + seq![']']);
    assert(page_index_spec(a + b) =~= seq!['['] + ja + seq![','] + (jb + seq![']']));
}

/// The sidebar of two non-empty lists of pages, one after the other, is the
/// first list's links, a line break, then the second list's.
pub proof fn law_sidebar_concat(current: Seq<char>, a: Seq<PageMeta>, b: Seq<PageMeta>)
    requires
        a.len() > 0,
        b.len() > 0,
    ensures
        sidebar_spec(current, a + b) == sidebar_spec(current, a) + seq!['\n'] + sidebar_spec(
            current,
            b,
        ),
{
    assert(sidebar_links(current, a + b) =~= sidebar_links(current, a) + sidebar_links(current, b));
    law_joined_concat(sidebar_links(current, a), sidebar_links(current, b), seq!['\n']);
}

proof fn lemma_concat_lacks(a: Seq<char>, b: Seq<char>, x: char)
    requires
        lacks_char(a, x),
        lacks_char(b, x),
    ensures
        lacks_char(a + b, x),
{
    assert forall|i: int| 0 <= i < (a + b).len() implies #[trigger] (a + b)[i] != x by {
        if i < a.len() {
            assert((a + b)[i] == a[i]);
        } else {
            assert((a + b)[i] == b[i - a.len()]);
        }
    }
}

proof fn lemma_joined_lacks(items: Seq<Seq<char>>, sep: Seq<char>, x: char)
    requires
        lacks_char(sep, x),
        forall|i: int| 0 <= i < items.len() ==> lacks_char(#[trigger] items[i], x),
    ensures
        lacks_char(joined(items, sep), x),
    decreases items.len(),
{
    if items.len() == 1 {
        assert(lacks_char(items[0], x));
    } else if items.len() > 1 {
        let init = items.drop_last();
        assert forall|i: int| 0 <= i < init.len() implies lacks_char(#[trigger] init[i], x) by {
            assert(init[i] == items[i]);
        }
        lemma_joined_lacks(init, sep, x);
        lemma_concat_lacks(joined(init, sep), sep, x);
        assert(lacks_char(items[items.len() - 1], x));
        lemma_concat_lacks(joined(init, sep) + sep, items.last(), x);
    }
}

/// The page index lacks `x`, one of the characters that escaping for a
/// script removes and that the index's own punctuation does not use.
proof fn lemma_page_index_lacks(pages: Seq<PageMeta>, x: char)
    requires
        x == '<' || x == '>' || x == '&' || x == '\u{2028}' || x == '\u{2029}',
    ensures
        lacks_char(page_index_spec(pages), x),
{
    reveal_strlit("{\"id\":\"");
    reveal_strlit("\",\"title\":\"");
    reveal_strlit("\"}");
    let items = index_entries(pages);
    assert forall|i: int| 0 <= i < items.len() implies lacks_char(#[trigger] items[i], x) by {
        let p = pages[i];
        law_js_escape_is_script_safe(p.id@);
        law_js_escape_is_script_safe(p.title@);
        lemma_concat_lacks(INDEX_ENTRY_OPEN@, js_escaped(p.id@), x);
        lemma_concat_lacks(INDEX_ENTRY_OPEN@ + js_escaped(p.id@), INDEX_ENTRY_TITLE@, x);
        lemma_concat_lacks(
            INDEX_ENTRY_OPEN@ + js_escaped(p.id@) + INDEX_ENTRY_TITLE@,
            js_escaped(p.title@),
            x,
        );
        lemma_concat_lacks(
            INDEX_ENTRY_OPEN@ + js_escaped(p.id@) + INDEX_ENTRY_TITLE@ + js_escaped(p.title@),
            INDEX_ENTRY_CLOSE@,
            x,
        );
    }
    lemma_joined_lacks(items, seq![','], x);
    lemma_concat_lacks(seq!['['], joined(items, seq![',']), x);
    lemma_concat_lacks(seq!['['] + joined(items, seq![',']), seq![']'], x);
}

/// The page index holds no `<`, `>` or `&`, and neither U+2028 nor U+2029,
/// whatever the pages' ids and titles are: in particular no `</script>`, so
/// it cannot end the script it stands in.
pub proof fn law_page_index_cannot_close_script(pages: Seq<PageMeta>)
    ensures
        lacks_char(page_index_spec(pages), '<'),
        lacks_char(page_index_spec(pages), '>'),
        lacks_char(page_index_spec(pages), '&'),
        lacks_char(page_index_spec(pages), '\u{2028}'),
        lacks_char(page_index_spec(pages), '\u{2029}'),
{
    lemma_page_index_lacks(pages, '<');
    lemma_page_index_lacks(pages, '>');
    lemma_page_index_lacks(pages, '&');
    lemma_page_index_lacks(pages, '\u{2028}');
    lemma_page_index_lacks(pages, '\u{2029}');
}

/// The page index is a JSON array with one object per page, in the pages'
/// order: `{"id":…,"title":…}`, whose two strings read back as the page's id
/// and title.
pub proof fn law_page_index_is_json_array_of_pages(pages: Seq<PageMeta>)
    ensures
        page_index_spec(pages) == seq!['['] + joined(index_entries(pages), seq![',']) + seq![']'],
        index_entries(pages).len() == pages.len(),
        INDEX_ENTRY_OPEN@ == seq!['{', '"', 'i', 'd', '"', ':', '"'],
        INDEX_ENTRY_TITLE@ == seq!['"', ',', '"', 't', 'i', 't', 'l', 'e', '"', ':', '"'],
        INDEX_ENTRY_CLOSE@ == seq!['"', '}'],
        forall|i: int|
            0 <= i < pages.len() ==> #[trigger] index_entries(pages)[i] == INDEX_ENTRY_OPEN@
                + js_escaped(pages[i].id@) + INDEX_ENTRY_TITLE@ + js_escaped(pages[i].title@)
                + INDEX_ENTRY_CLOSE@,
        forall|i: int|
            0 <= i < pages.len() ==> json_string_value(js_escaped(#[trigger] pages[i].id@)) == Some(
                pages[i].id@,
            ) && json_string_value(js_escaped(pages[i].title@)) == Some(pages[i].title@),
{
    reveal_strlit("{\"id\":\"");
    reveal_strlit("\",\"title\":\"");
    reveal_strlit("\"}");
    assert(INDEX_ENTRY_OPEN@ =~= seq!['{', '"', 'i', 'd', '"', ':', '"']);
    assert(INDEX_ENTRY_TITLE@ =~= seq!['"', ',', '"', 't', 'i', 't', 'l', 'e', '"', ':', '"']);
    assert(INDEX_ENTRY_CLOSE@ =~= seq!['"', '}']);
    assert forall|i: int| 0 <= i < pages.len() implies json_string_value(
        js_escaped(#[trigger] pages[i].id@),
    ) == Some(pages[i].id@) && json_string_value(js_escaped(pages[i].title@)) == Some(
        pages[i].title@,
    ) by {
        law_js_escape_reads_back_as_json_string(pages[i].id@);
        law_js_escape_reads_back_as_json_string(pages[i].title@);
    }
}

proof fn lemma_skip_white_bounds(s: Seq<char>, i: int, e: int)
    requires
        i <= e,
    ensures
        i <= skip_white(s, i, e) <= e,
    decreases e - i,
{
    if i < e && is_white_space(s[i]) {
        lemma_skip_white_bounds(s, i + 1, e);
    }
}

proof fn lemma_skip_white_after_blank(w: Seq<char>, s: Seq<char>, j: int)
    requires
        0 <= j <= s.len(),
    ensures
        skip_white(w + s, w.len() + j, (w + s).len() as int) == w.len() + skip_white(
            s,
            j,
            s.len() as int,
        ),
    decreases s.len() - j,
{
    if j < s.len() {
        assert((w + s)[w.len() + j] == s[j]);
        lemma_skip_white_after_blank(w, s, j + 1);
    }
}

proof fn lemma_skip_white_over_blank(w: Seq<char>, s: Seq<char>, i: int)
    requires
        is_blank(w),
        0 <= i <= w.len(),
    ensures
        skip_white(w + s, i, (w + s).len() as int) == skip_white(
            w + s,
            w.len() as int,
            (w + s).len() as int,
        ),
    decreases w.len() - i,
{
    if i < w.len() {
        assert((w + s)[i] == w[i]);
        lemma_skip_white_over_blank(w, s, i + 1);
    }
}

/// White space before a page's content does not change whether it counts
/// as HTML of the earlier format.
pub proof fn law_leading_white_space_keeps_legacy_answer(w: Seq<char>, s: Seq<char>)
    requires
        is_blank(w),
    ensures
        legacy_html_spec(w + s) == legacy_html_spec(s),
{
    let t = w + s;
    lemma_skip_white_over_blank(w, s, 0);
    lemma_skip_white_after_blank(w, s, 0);
    let k = skip_white(s, 0, s.len() as int);
    lemma_skip_white_bounds(s, 0, s.len() as int);
    assert(t.skip(w.len() + k) =~= s.skip(k));
}

proof fn lemma_skip_white_stops_by(s: Seq<char>, i: int, j: int, e: int)
    requires
        0 <= i <= j < e <= s.len(),
        !is_white_space(s[j]),
    ensures
        skip_white(s, i, e) <= j,
    decreases j - i,
{
    if i < j && is_white_space(s[i]) {
        lemma_skip_white_stops_by(s, i + 1, j, e);
    }
}

/// `m` occurs in the content after its leading white space whenever it
/// occurs in the content and starts with `<`.
proof fn lemma_marker_survives_trim(a: Seq<char>, m: Seq<char>, b: Seq<char>)
    requires
        m.len() > 0,
        m[0] == '<',
    ensures
        ({
            let s = a + m + b;
            contains_text(s.skip(skip_white(s, 0, s.len() as int)), m)
        }),
{
    let s = a + m + b;
    let k = skip_white(s, 0, s.len() as int);
    let j = a.len() as int;
    assert(s[j] == m[0]);
    assert(!is_white_space(s[j]));
    lemma_skip_white_stops_by(s, 0, j, s.len() as int);
    lemma_skip_white_bounds(s, 0, s.len() as int);
    let t = s.skip(k);
    assert(t.subrange(j - k, j - k + m.len()) =~= m);
    assert(occurs_at(t, m, j - k));
}

/// What makes content HTML of the earlier format: `<p>` or `<h1` anywhere in
/// it, or `<` as its first character after white space. Content with no `<`
/// at all is never of that format.
pub proof fn law_legacy_html_markers(w: Seq<char>, a: Seq<char>, b: Seq<char>)
    ensures
        legacy_html_spec(a + seq!['<', 'p', '>'] + b),
        legacy_html_spec(a + seq!['<', 'h', '1'] + b),
        is_blank(w) ==> legacy_html_spec(w + (seq!['<'] + b)),
        lacks_char(a, '<') ==> !legacy_html_spec(a),
{
    lemma_marker_survives_trim(a, seq!['<', 'p', '>'], b);
    lemma_marker_survives_trim(a, seq!['<', 'h', '1'], b);
    let s = seq!['<'] + b;
    assert(s[0] == '<');
    assert(!is_white_space(s[0]));
    assert(skip_white(s, 0, s.len() as int) == 0);
    assert(s.skip(0) =~= s);
    if is_blank(w) {
        law_leading_white_space_keeps_legacy_answer(w, s);
    }
    if lacks_char(a, '<') {
        let k = skip_white(a, 0, a.len() as int);
        lemma_skip_white_bounds(a, 0, a.len() as int);
        let t = a.skip(k);
        assert forall|i: int| 0 <= i < t.len() implies #[trigger] t[i] != '<' by {
            assert(t[i] == a[k + i]);
        }
        if t.len() > 0 {
            assert(t[0] != '<');
        }
        assert forall|i: int| !occurs_at(t, seq!['<', 'p', '>'], i) by {
            if occurs_at(t, seq!['<', 'p', '>'], i) {
                assert(t.subrange(i, i + 3)[0] == t[i]);
            }
        }
        assert forall|i: int| !occurs_at(t, seq!['<', 'h', '1'], i) by {
            if occurs_at(t, seq!['<', 'h', '1'], i) {
                assert(t.subrange(i, i + 3)[0] == t[i]);
            }
        }
    }
}

/// `</script>`, the tag that ends a script element.
pub open spec fn script_end_tag() -> Seq<char> {
    seq!['<', '/', 's', 'c', 'r', 'i', 'p', 't', '>']
}

/// `</textarea>`, the tag that ends the editor's text.
pub open spec fn textarea_end_tag() -> Seq<char> {
    seq!['<', '/', 't', 'e', 'x', 't', 'a', 'r', 'e', 'a', '>']
}

pub open spec fn is_end_tag(w: Seq<char>) -> bool {
    w == script_end_tag() || w == textarea_end_tag()
}

/// The last two characters of `x` are not the last two of the first `k`
/// characters of `w`.
spec fn ends_unlike(x: Seq<char>, w: Seq<char>, k: int) -> bool {
    x[x.len() - 1] != w[k - 1] || (k >= 2 && x[x.len() - 2] != w[k - 2])
}

proof fn lemma_closed_by_last_two(x: Seq<char>, w: Seq<char>)
    requires
        x.len() >= 2,
        is_end_tag(w),
        forall|k: int| 1 <= k < w.len() ==> #[trigger] ends_unlike(x, w, k),
    ensures
        no_open_prefix(x, w),
{
    assert forall|k: int| 1 <= k < w.len() implies !#[trigger] ends_with(x, w.take(k)) by {
        assert(ends_unlike(x, w, k));
        if ends_with(x, w.take(k)) {
            assert(x.subrange(x.len() - k, x.len() as int)[k - 1] == w.take(k)[k - 1]);
            if k >= 2 {
                assert(x.subrange(x.len() - k, x.len() as int)[k - 2] == w.take(k)[k - 2]);
            }
        }
    }
}

/// `x` ends with no beginning of `w`, checked on its last two characters.
proof fn lemma_closed(x: Seq<char>, w: Seq<char>)
    requires
        x.len() >= 2,
        is_end_tag(w),
        x[x.len() - 1] != '<',
        !(x[x.len() - 2] == '<' && x[x.len() - 1] == '/'),
        (x[x.len() - 1] == 's' || x[x.len() - 1] == 'c' || x[x.len() - 1] == 'r'
            || x[x.len() - 1] == 'i' || x[x.len() - 1] == 'p' || x[x.len() - 1] == 't'
            || x[x.len() - 1] == 'e' || x[x.len() - 1] == 'x' || x[x.len() - 1] == 'a') ==> (
        x[x.len() - 2] != '/' && x[x.len() - 2] != 's' && x[x.len() - 2] != 'c' && x[x.len() - 2]
            != 'r' && x[x.len() - 2] != 'i' && x[x.len() - 2] != 'p' && x[x.len() - 2] != 't' && x[x.len() - 2] != 'e'
            && x[x.len() - 2] != 'x' && x[x.len() - 2] != 'a'),
    ensures
        no_open_prefix(x, w),
{
    assert forall|k: int| 1 <= k < w.len() implies #[trigger] ends_unlike(x, w, k) by {
        if w == script_end_tag() {
        } else {
        }
    }
    lemma_closed_by_last_two(x, w);
}

/// No end tag like `w` starts at position `i` of `x`: its first four
/// characters differ.
spec fn no_tag_start(x: Seq<char>, w: Seq<char>, i: int) -> bool {
    0 <= i && i + 4 <= x.len() ==> !(x[i] == w[0] && x[i + 1] == w[1] && x[i + 2] == w[2] && x[i
        + 3] == w[3])
}

proof fn lemma_no_end_tag_in(x: Seq<char>, w: Seq<char>)
    requires
        is_end_tag(w),
        forall|i: int| #[trigger] no_tag_start(x, w, i),
    ensures
        occurrences(x, w) == 0,
{
    assert forall|i: int| !occurs_at(x, w, i) by {
        assert(no_tag_start(x, w, i));
        if occurs_at(x, w, i) {
            let sub = x.subrange(i, i + w.len());
            assert(sub[0] == x[i] && sub[1] == x[i + 1] && sub[2] == x[i + 2] && sub[3] == x[i + 3]);
        }
    }
    lemma_no_occurrence(x, w);
}

proof fn lemma_join_step(x: Seq<char>, y: Seq<char>, w: Seq<char>)
    requires
        w.len() > 0,
        no_open_prefix(x, w),
        no_open_prefix(y, w),
    ensures
        occurrences(x + y, w) == occurrences(x, w) + occurrences(y, w),
        no_open_prefix(x + y, w),
{
    lemma_occurrences_concat(x, y, w);
    lemma_no_open_prefix_concat(x, y, w);
}

proof fn lemma_text_without_tags(v: Seq<char>, w: Seq<char>)
    requires
        is_end_tag(w),
        lacks_char(v, '<'),
    ensures
        occurrences(v, w) == 0,
        no_open_prefix(v, w),
{
    lemma_lacking_first_char(v, w);
}

/// The fixed pieces of a sidebar link hold no end tag and leave none open.
proof fn lemma_sidebar_pieces(w: Seq<char>)
    requires
        is_end_tag(w),
    ensures
        occurrences(SIDEBAR_LINK_OPEN@, w) == 0 && no_open_prefix(SIDEBAR_LINK_OPEN@, w),
        occurrences(SIDEBAR_LINK_CLASS@, w) == 0 && no_open_prefix(SIDEBAR_LINK_CLASS@, w),
        occurrences(SIDEBAR_ACTIVE@, w) == 0 && no_open_prefix(SIDEBAR_ACTIVE@, w),
        occurrences(SIDEBAR_LINK_TITLE@, w) == 0 && no_open_prefix(SIDEBAR_LINK_TITLE@, w),
        occurrences(SIDEBAR_LINK_CLOSE@, w) == 0 && no_open_prefix(SIDEBAR_LINK_CLOSE@, w),
{
    reveal_strlit(r#"<a href="/page/"#);
    reveal_strlit(r#"" class="page-item"#);
    reveal_strlit(r#" active"#);
    reveal_strlit(r#""><span class="page-icon" aria-hidden="true"></span><span class="page-title">"#);
    reveal_strlit(r#"</span></a>"#);
    lemma_closed(SIDEBAR_LINK_OPEN@, w);
    lemma_closed(SIDEBAR_LINK_CLASS@, w);
    lemma_closed(SIDEBAR_ACTIVE@, w);
    lemma_closed(SIDEBAR_LINK_TITLE@, w);
    lemma_closed(SIDEBAR_LINK_CLOSE@, w);
    assert forall|i: int| #[trigger] no_tag_start(SIDEBAR_LINK_OPEN@, w, i) by {}
    lemma_no_end_tag_in(SIDEBAR_LINK_OPEN@, w);
    assert forall|i: int| #[trigger] no_tag_start(SIDEBAR_LINK_CLASS@, w, i) by {}
    lemma_no_end_tag_in(SIDEBAR_LINK_CLASS@, w);
    assert forall|i: int| #[trigger] no_tag_start(SIDEBAR_ACTIVE@, w, i) by {}
    lemma_no_end_tag_in(SIDEBAR_ACTIVE@, w);
    assert forall|i: int| #[trigger] no_tag_start(SIDEBAR_LINK_TITLE@, w, i) by {}
    lemma_no_end_tag_in(SIDEBAR_LINK_TITLE@, w);
    assert forall|i: int| #[trigger] no_tag_start(SIDEBAR_LINK_CLOSE@, w, i) by {}
    lemma_no_end_tag_in(SIDEBAR_LINK_CLOSE@, w);
}

/// A sidebar link holds no end tag and leaves none open.
proof fn lemma_sidebar_link(id: Seq<char>, title: Seq<char>, current: Seq<char>, w: Seq<char>)
    requires
        is_end_tag(w),
    ensures
        occurrences(sidebar_link(id, title, current), w) == 0,
        no_open_prefix(sidebar_link(id, title, current), w),
{
    lemma_sidebar_pieces(w);
    law_html_escape_leaves_no_markup(id);
    law_html_escape_leaves_no_markup(title);
    lemma_text_without_tags(html_escaped(id), w);
    lemma_text_without_tags(html_escaped(title), w);
    let active = if id == current {
        SIDEBAR_ACTIVE@
    } else {
        Seq::empty()
    };
    assert(occurrences(Seq::<char>::empty(), w) == 0);
    assert(no_open_prefix(Seq::<char>::empty(), w));
    let x1 = SIDEBAR_LINK_OPEN@ + html_escaped(id);
    lemma_join_step(SIDEBAR_LINK_OPEN@, html_escaped(id), w);
    let x2 = x1 + SIDEBAR_LINK_CLASS@;
    lemma_join_step(x1, SIDEBAR_LINK_CLASS@, w);
    let x3 = x2 + active;
    lemma_join_step(x2, active, w);
    let x4 = x3 + SIDEBAR_LINK_TITLE@;
    lemma_join_step(x3, SIDEBAR_LINK_TITLE@, w);
    let x5 = x4 + html_escaped(title);
    lemma_join_step(x4, html_escaped(title), w);
    lemma_join_step(x5, SIDEBAR_LINK_CLOSE@, w);
}

/// The sidebar holds no end tag and leaves none open.
proof fn lemma_sidebar(items: Seq<Seq<char>>, w: Seq<char>)
    requires
        is_end_tag(w),
        forall|i: int|
            0 <= i < items.len() ==> occurrences(#[trigger] items[i], w) == 0 && no_open_prefix(
                items[i],
                w,
            ),
    ensures
        occurrences(joined(items, seq!['\n']), w) == 0,
        no_open_prefix(joined(items, seq!['\n']), w),
    decreases items.len(),
{
    if items.len() == 0 {
        assert(occurrences(Seq::<char>::empty(), w) == 0);
        assert(no_open_prefix(Seq::<char>::empty(), w));
    } else if items.len() == 1 {
        assert(occurrences(items[0], w) == 0);
    } else {
        let init = items.drop_last();
        assert forall|i: int| 0 <= i < init.len() implies occurrences(#[trigger] init[i], w) == 0
            && no_open_prefix(init[i], w) by {
            assert(init[i] == items[i]);
        }
        lemma_sidebar(init, w);
        assert(lacks_char(seq!['\n'], '<'));
        lemma_text_without_tags(seq!['\n'], w);
        lemma_join_step(joined(init, seq!['\n']), seq!['\n'], w);
        assert(occurrences(items[items.len() - 1], w) == 0);
        lemma_join_step(joined(init, seq!['\n']) + seq!['\n'], items.last(), w);
    }
}

/// The pieces of the page that follow a value leave no end tag open: each
/// ends with a line of its own, at least as long as the tags.
proof fn lemma_page_lines(w: Seq<char>)
    requires
        is_end_tag(w),
    ensures
        no_open_prefix(TITLE_OPEN@, w) && TITLE_OPEN@.len() >= w.len(),
        no_open_prefix(SIDEBAR_INDENT@, w) && SIDEBAR_INDENT@.len() >= w.len(),
        no_open_prefix(DELETE_FORM_OPEN@, w) && DELETE_FORM_OPEN@.len() >= w.len(),
        no_open_prefix(TITLE_INPUT_OPEN@, w) && TITLE_INPUT_OPEN@.len() >= w.len(),
        no_open_prefix(HINT_INDENT@, w) && HINT_INDENT@.len() >= w.len(),
        no_open_prefix(EDITOR_OPEN@, w) && EDITOR_OPEN@.len() >= w.len(),
        no_open_prefix(SCRIPT_OPEN@, w) && SCRIPT_OPEN@.len() >= w.len(),
        no_open_prefix(PAGE_INDEX_DECLARATION@, w) && PAGE_INDEX_DECLARATION@.len() >= w.len(),
        no_open_prefix(PAGE_ID_DECLARATION@, w) && PAGE_ID_DECLARATION@.len() >= w.len(),
{
    reveal_strlit(r#"
    <title>"#);
    reveal_strlit(r#"
                "#);
    reveal_strlit(r#"
                <form class="delete-form" method="POST" action="/pages/"#);
    reveal_strlit(r#"
                    <input id="title" type="text" value=""#);
    reveal_strlit(r#"
                "#);
    reveal_strlit(r#"
                        <textarea id="md-editor" spellcheck="false" placeholder="ここから入力…  # 見出し、- [ ] タスク、[[ページ名]] など">"#);
    reveal_strlit(r#"
    <script>"#);
    reveal_strlit(r#"
        const PAGE_INDEX = "#);
    reveal_strlit(r#"
        const PAGE_ID = ""#);
    lemma_closed(TITLE_OPEN@, w);
    assert(TITLE_OPEN@.len() >= w.len());
    lemma_closed(SIDEBAR_INDENT@, w);
    assert(SIDEBAR_INDENT@.len() >= w.len());
    lemma_closed(DELETE_FORM_OPEN@, w);
    assert(DELETE_FORM_OPEN@.len() >= w.len());
    lemma_closed(TITLE_INPUT_OPEN@, w);
    assert(TITLE_INPUT_OPEN@.len() >= w.len());
    lemma_closed(HINT_INDENT@, w);
    assert(HINT_INDENT@.len() >= w.len());
    lemma_closed(EDITOR_OPEN@, w);
    assert(EDITOR_OPEN@.len() >= w.len());
    lemma_closed(SCRIPT_OPEN@, w);
    assert(SCRIPT_OPEN@.len() >= w.len());
    lemma_closed(PAGE_INDEX_DECLARATION@, w);
    assert(PAGE_INDEX_DECLARATION@.len() >= w.len());
    lemma_closed(PAGE_ID_DECLARATION@, w);
    assert(PAGE_ID_DECLARATION@.len() >= w.len());
}

/// The old-format hint holds no end tag and leaves none open.
proof fn lemma_legacy_hint(content: Seq<char>, w: Seq<char>)
    requires
        is_end_tag(w),
    ensures
        occurrences(legacy_hint_spec(content), w) == 0,
        no_open_prefix(legacy_hint_spec(content), w),
{
    reveal_strlit(r#"<p class="hint hint-legacy">このページは旧 HTML 形式です。Markdown に書き直すとプレビューが正しく表示されます。</p>"#);
    lemma_closed(LEGACY_HINT@, w);
    assert forall|i: int| #[trigger] no_tag_start(LEGACY_HINT@, w, i) by {}
    lemma_no_end_tag_in(LEGACY_HINT@, w);
    assert(occurrences(Seq::<char>::empty(), w) == 0);
    assert(no_open_prefix(Seq::<char>::empty(), w));
}

/// The page, seen as the fixed text between its values: what each piece of
/// fixed text holds, the renderer's script taken as fixed.
pub open spec fn fixed_page_pieces(marked_js: Seq<char>) -> Seq<Seq<char>> {
    seq![
        PAGE_HEAD@ + TITLE_OPEN@,
        PAGE_BEFORE_SIDEBAR@ + SIDEBAR_INDENT@,
        PAGE_BEFORE_DELETE_ID@ + DELETE_FORM_OPEN@,
        PAGE_BEFORE_TITLE_VALUE@ + TITLE_INPUT_OPEN@,
        PAGE_BEFORE_LEGACY_HINT@ + HINT_INDENT@,
        PAGE_BEFORE_CONTENT@ + EDITOR_OPEN@,
        PAGE_BEFORE_MARKED_SCRIPT@ + SCRIPT_OPEN@ + marked_js + PAGE_BEFORE_PAGE_INDEX@
            + PAGE_INDEX_DECLARATION@,
        PAGE_BEFORE_PAGE_ID@ + PAGE_ID_DECLARATION@,
        PAGE_TAIL@,
    ]
}

/// How often `w` occurs in the fixed text of the page, piece by piece.
pub open spec fn fixed_occurrences(marked_js: Seq<char>, w: Seq<char>) -> nat {
    let p = fixed_page_pieces(marked_js);
    occurrences(p[0], w) + occurrences(p[1], w) + occurrences(p[2], w) + occurrences(p[3], w)
        + occurrences(p[4], w) + occurrences(p[5], w) + occurrences(p[6], w) + occurrences(p[7], w)
        + occurrences(p[8], w)
}

/// The page as its fixed pieces with the values between them.
proof fn lemma_page_grouping(
    page_id: Seq<char>,
    title: Seq<char>,
    content: Seq<char>,
    pages: Seq<PageMeta>,
    marked_js: Seq<char>,
)
    ensures
        ({
            let p = fixed_page_pieces(marked_js);
            let ht = html_escaped(title);
            let hi = html_escaped(page_id);
            html_page_spec(page_id, title, content, pages, marked_js) == p[0] + ht + p[1]
                + sidebar_spec(page_id, pages) + p[2] + hi + p[3] + ht + p[4] + legacy_hint_spec(
                content,
            ) + p[5] + html_escaped(content) + p[6] + page_index_spec(pages) + p[7] + hi + p[8]
        }),
{
    let p = fixed_page_pieces(marked_js);
    assert(html_page_spec(page_id, title, content, pages, marked_js) =~= p[0] + html_escaped(title)
        + p[1] + sidebar_spec(page_id, pages) + p[2] + html_escaped(page_id) + p[3] + html_escaped(
        title,
    ) + p[4] + legacy_hint_spec(content) + p[5] + html_escaped(content) + p[6] + page_index_spec(
        pages,
    ) + p[7] + html_escaped(page_id) + p[8]);
}

/// Every `</script>` or `</textarea>` of the page comes from its fixed text:
/// however often one occurs there, no page id, title, content or list of
/// pages adds one.
proof fn lemma_page_end_tags(
    page_id: Seq<char>,
    title: Seq<char>,
    content: Seq<char>,
    pages: Seq<PageMeta>,
    marked_js: Seq<char>,
    w: Seq<char>,
)
    requires
        is_end_tag(w),
    ensures
        occurrences(html_page_spec(page_id, title, content, pages, marked_js), w)
            == fixed_occurrences(marked_js, w),
{
    let p = fixed_page_pieces(marked_js);
    lemma_page_lines(w);
    lemma_no_open_prefix_long_tail(PAGE_HEAD@, TITLE_OPEN@, w);
    lemma_no_open_prefix_long_tail(PAGE_BEFORE_SIDEBAR@, SIDEBAR_INDENT@, w);
    lemma_no_open_prefix_long_tail(PAGE_BEFORE_DELETE_ID@, DELETE_FORM_OPEN@, w);
    lemma_no_open_prefix_long_tail(PAGE_BEFORE_TITLE_VALUE@, TITLE_INPUT_OPEN@, w);
    lemma_no_open_prefix_long_tail(PAGE_BEFORE_LEGACY_HINT@, HINT_INDENT@, w);
    lemma_no_open_prefix_long_tail(PAGE_BEFORE_CONTENT@, EDITOR_OPEN@, w);
    lemma_no_open_prefix_long_tail(
        PAGE_BEFORE_MARKED_SCRIPT@ + SCRIPT_OPEN@ + marked_js + PAGE_BEFORE_PAGE_INDEX@,
        PAGE_INDEX_DECLARATION@,
        w,
    );
    lemma_no_open_prefix_long_tail(PAGE_BEFORE_PAGE_ID@, PAGE_ID_DECLARATION@, w);

    let ht = html_escaped(title);
    let hi = html_escaped(page_id);
    let hc = html_escaped(content);
    let side = sidebar_spec(page_id, pages);
    let hint = legacy_hint_spec(content);
    let index = page_index_spec(pages);
    law_html_escape_leaves_no_markup(title);
    law_html_escape_leaves_no_markup(page_id);
    law_html_escape_leaves_no_markup(content);
    lemma_text_without_tags(ht, w);
    lemma_text_without_tags(hi, w);
    lemma_text_without_tags(hc, w);
    law_page_index_cannot_close_script(pages);
    lemma_text_without_tags(index, w);
    lemma_legacy_hint(content, w);
    let items = sidebar_links(page_id, pages);
    assert forall|i: int| 0 <= i < items.len() implies occurrences(#[trigger] items[i], w) == 0
        && no_open_prefix(items[i], w) by {
        lemma_sidebar_link(pages[i].id@, pages[i].title@, page_id, w);
    }
    lemma_sidebar(items, w);

    let x0 = p[0];
    let x1 = x0 + ht;
    lemma_join_step(x0, ht, w);
    let x2 = x1 + p[1];
    lemma_join_step(x1, p[1], w);
    let x3 = x2 + side;
    lemma_join_step(x2, side, w);
    let x4 = x3 + p[2];
    lemma_join_step(x3, p[2], w);
    let x5 = x4 + hi;
    lemma_join_step(x4, hi, w);
    let x6 = x5 + p[3];
    lemma_join_step(x5, p[3], w);
    let x7 = x6 + ht;
    lemma_join_step(x6, ht, w);
    let x8 = x7 + p[4];
    lemma_join_step(x7, p[4], w);
    let x9 = x8 + hint;
    lemma_join_step(x8, hint, w);
    let x10 = x9 + p[5];
    lemma_join_step(x9, p[5], w);
    let x11 = x10 + hc;
    lemma_join_step(x10, hc, w);
    let x12 = x11 + p[6];
    lemma_join_step(x11, p[6], w);
    let x13 = x12 + index;
    lemma_join_step(x12, index, w);
    let x14 = x13 + p[7];
    lemma_join_step(x13, p[7], w);
    let x15 = x14 + hi;
    lemma_join_step(x14, hi, w);
    let x16 = x15 + p[8];
    lemma_occurrences_concat(x15, p[8], w);
    lemma_page_grouping(page_id, title, content, pages, marked_js);
}

/// No argument can end the page's scripts or its editor early: for a given
/// Markdown renderer script, every page holds `</script>` and `</textarea>`
/// equally often, whatever its id, title, content and list of pages.
pub proof fn law_values_cannot_end_script_or_editor(
    page_id_a: Seq<char>,
    title_a: Seq<char>,
    content_a: Seq<char>,
    pages_a: Seq<PageMeta>,
    page_id_b: Seq<char>,
    title_b: Seq<char>,
    content_b: Seq<char>,
    pages_b: Seq<PageMeta>,
    marked_js: Seq<char>,
)
    ensures
        occurrences(html_page_spec(page_id_a, title_a, content_a, pages_a, marked_js), script_end_tag())
            == occurrences(
            html_page_spec(page_id_b, title_b, content_b, pages_b, marked_js),
            script_end_tag(),
        ),
        occurrences(
            html_page_spec(page_id_a, title_a, content_a, pages_a, marked_js),
            textarea_end_tag(),
        ) == occurrences(
            html_page_spec(page_id_b, title_b, content_b, pages_b, marked_js),
            textarea_end_tag(),
        ),
{
    lemma_page_end_tags(page_id_a, title_a, content_a, pages_a, marked_js, script_end_tag());
    lemma_page_end_tags(page_id_b, title_b, content_b, pages_b, marked_js, script_end_tag());
    lemma_page_end_tags(page_id_a, title_a, content_a, pages_a, marked_js, textarea_end_tag());
    lemma_page_end_tags(page_id_b, title_b, content_b, pages_b, marked_js, textarea_end_tag());
}

/// Every `<` of `x` is followed, within `x`, by a character other than `p`:
/// no `<p` starts in `x`, and none is left open at its end.
pub open spec fn opens_no_paragraph(x: Seq<char>) -> bool {
    forall|j: int|
        0 <= j < x.len() && #[trigger] x[j] == '<' ==> j + 1 < x.len() && x[j + 1] != 'p'
}

proof fn lemma_opens_no_paragraph_concat(a: Seq<char>, b: Seq<char>)
    requires
        opens_no_paragraph(a),
        opens_no_paragraph(b),
    ensures
        opens_no_paragraph(a + b),
{
    let s = a + b;
    assert forall|j: int| 0 <= j < s.len() && #[trigger] s[j] == '<' implies j + 1 < s.len()
        && s[j + 1] != 'p' by {
        if j < a.len() {
            assert(s[j] == a[j]);
            assert(s[j + 1] == a[j + 1]);
        } else {
            assert(s[j] == b[j - a.len()]);
            assert(s[j + 1] == b[j + 1 - a.len()]);
        }
    }
}

proof fn lemma_lacking_tags_opens_no_paragraph(x: Seq<char>)
    requires
        lacks_char(x, '<'),
    ensures
        opens_no_paragraph(x),
{
}

/// A text that opens no `<p` holds no text that starts with `<p`, and leaves
/// none open.
proof fn lemma_no_paragraph_no_occurrence(x: Seq<char>, w: Seq<char>)
    requires
        w.len() >= 2,
        w[0] == '<',
        w[1] == 'p',
        opens_no_paragraph(x),
    ensures
        occurrences(x, w) == 0,
        no_open_prefix(x, w),
{
    assert forall|i: int| !occurs_at(x, w, i) by {
        if occurs_at(x, w, i) {
            let sub = x.subrange(i, i + w.len());
            assert(sub[0] == x[i] && sub[1] == x[i + 1]);
        }
    }
    lemma_no_occurrence(x, w);
    assert forall|k: int| 1 <= k < w.len() implies !#[trigger] ends_with(x, w.take(k)) by {
        if ends_with(x, w.take(k)) {
            let sub = x.subrange(x.len() - k, x.len() as int);
            assert(sub[0] == x[x.len() - k]);
            if k >= 2 {
                assert(sub[1] == x[x.len() - k + 1]);
            }
        }
    }
}

/// Nothing of `w` is left open at the end of `a + b` when `b` leaves nothing
/// open and starts with a character that `w` lacks.
proof fn lemma_no_open_prefix_past_stranger(a: Seq<char>, b: Seq<char>, w: Seq<char>)
    requires
        no_open_prefix(b, w),
        b.len() > 0,
        lacks_char(w, b[0]),
    ensures
        no_open_prefix(a + b, w),
{
    let s = a + b;
    assert forall|k: int| 1 <= k < w.len() implies !#[trigger] ends_with(s, w.take(k)) by {
        if ends_with(s, w.take(k)) {
            if k <= b.len() {
                assert(b.subrange(b.len() - k, b.len() as int) =~= s.subrange(
                    s.len() - k,
                    s.len() as int,
                ));
                assert(ends_with(b, w.take(k)));
            } else {
                let t = k - b.len();
                assert(s.subrange(s.len() - k, s.len() as int)[t] == s[a.len() as int]);
                assert(s[a.len() as int] == b[0]);
                assert(w.take(k)[t] == w[t]);
                assert(w[t] != b[0]);
            }
        }
    }
}

/// The lines that end the page's fixed pieces open no `<p` and start with a
/// line break, which the old-format hint lacks.
proof fn lemma_page_lines_open_no_paragraph()
    ensures
        lacks_char(LEGACY_HINT@, '\n'),
        opens_no_paragraph(TITLE_OPEN@) && TITLE_OPEN@.len() > 0 && TITLE_OPEN@[0] == '\n',
        opens_no_paragraph(SIDEBAR_INDENT@) && SIDEBAR_INDENT@.len() > 0 && SIDEBAR_INDENT@[0]
            == '\n',
        opens_no_paragraph(DELETE_FORM_OPEN@) && DELETE_FORM_OPEN@.len() > 0
            && DELETE_FORM_OPEN@[0] == '\n',
        opens_no_paragraph(TITLE_INPUT_OPEN@) && TITLE_INPUT_OPEN@.len() > 0
            && TITLE_INPUT_OPEN@[0] == '\n',
        opens_no_paragraph(HINT_INDENT@) && HINT_INDENT@.len() > 0 && HINT_INDENT@[0] == '\n',
        opens_no_paragraph(EDITOR_OPEN@) && EDITOR_OPEN@.len() > 0 && EDITOR_OPEN@[0] == '\n',
        opens_no_paragraph(SCRIPT_OPEN@) && SCRIPT_OPEN@.len() > 0 && SCRIPT_OPEN@[0] == '\n',
        opens_no_paragraph(PAGE_INDEX_DECLARATION@) && PAGE_INDEX_DECLARATION@.len() > 0
            && PAGE_INDEX_DECLARATION@[0] == '\n',
        opens_no_paragraph(PAGE_ID_DECLARATION@) && PAGE_ID_DECLARATION@.len() > 0
            && PAGE_ID_DECLARATION@[0] == '\n',
{
    reveal_strlit(r#"
    <title>"#);
    reveal_strlit(r#"
                "#);
    reveal_strlit(r#"
                <form class="delete-form" method="POST" action="/pages/"#);
    reveal_strlit(r#"
                    <input id="title" type="text" value=""#);
    reveal_strlit(r#"
                "#);
    reveal_strlit(r#"
                        <textarea id="md-editor" spellcheck="false" placeholder="ここから入力…  # 見出し、- [ ] タスク、[[ページ名]] など">"#);
    reveal_strlit(r#"
    <script>"#);
    reveal_strlit(r#"
        const PAGE_INDEX = "#);
    reveal_strlit(r#"
        const PAGE_ID = ""#);
    reveal_strlit(r#"<p class="hint hint-legacy">このページは旧 HTML 形式です。Markdown に書き直すとプレビューが正しく表示されます。</p>"#);
}

/// The sidebar's links open no `<p`.
proof fn lemma_sidebar_link_opens_no_paragraph(id: Seq<char>, title: Seq<char>, current: Seq<char>)
    ensures
        opens_no_paragraph(sidebar_link(id, title, current)),
{
    reveal_strlit(r#"<a href="/page/"#);
    reveal_strlit(r#"" class="page-item"#);
    reveal_strlit(r#" active"#);
    reveal_strlit(r#""><span class="page-icon" aria-hidden="true"></span><span class="page-title">"#);
    reveal_strlit(r#"</span></a>"#);
    law_html_escape_leaves_no_markup(id);
    law_html_escape_leaves_no_markup(title);
    let active = if id == current {
        SIDEBAR_ACTIVE@
    } else {
        Seq::empty()
    };
    assert(opens_no_paragraph(SIDEBAR_LINK_OPEN@));
    assert(opens_no_paragraph(SIDEBAR_LINK_CLASS@));
    assert(opens_no_paragraph(active));
    assert(opens_no_paragraph(SIDEBAR_LINK_TITLE@));
    assert(opens_no_paragraph(SIDEBAR_LINK_CLOSE@));
    lemma_lacking_tags_opens_no_paragraph(html_escaped(id));
    lemma_lacking_tags_opens_no_paragraph(html_escaped(title));
    let x1 = SIDEBAR_LINK_OPEN@ + html_escaped(id);
    lemma_opens_no_paragraph_concat(SIDEBAR_LINK_OPEN@, html_escaped(id));
    let x2 = x1 + SIDEBAR_LINK_CLASS@;
    lemma_opens_no_paragraph_concat(x1, SIDEBAR_LINK_CLASS@);
    let x3 = x2 + active;
    lemma_opens_no_paragraph_concat(x2, active);
    let x4 = x3 + SIDEBAR_LINK_TITLE@;
    lemma_opens_no_paragraph_concat(x3, SIDEBAR_LINK_TITLE@);
    let x5 = x4 + html_escaped(title);
    lemma_opens_no_paragraph_concat(x4, html_escaped(title));
    lemma_opens_no_paragraph_concat(x5, SIDEBAR_LINK_CLOSE@);
}

proof fn lemma_joined_opens_no_paragraph(items: Seq<Seq<char>>, sep: Seq<char>)
    requires
        opens_no_paragraph(sep),
        forall|i: int| 0 <= i < items.len() ==> opens_no_paragraph(#[trigger] items[i]),
    ensures
        opens_no_paragraph(joined(items, sep)),
    decreases items.len(),
{
    if items.len() == 1 {
        assert(opens_no_paragraph(items[0]));
    } else if items.len() > 1 {
        let init = items.drop_last();
        assert forall|i: int| 0 <= i < init.len() implies opens_no_paragraph(#[trigger] init[i]) by {
            assert(init[i] == items[i]);
        }
        lemma_joined_opens_no_paragraph(init, sep);
        lemma_opens_no_paragraph_concat(joined(init, sep), sep);
        assert(opens_no_paragraph(items[items.len() - 1]));
        lemma_opens_no_paragraph_concat(joined(init, sep) + sep, items.last());
    }
}

/// The old-format hint holds itself once and leaves nothing of itself open.
proof fn lemma_hint_holds_itself_once()
    ensures
        LEGACY_HINT@.len() >= 2 && LEGACY_HINT@[0] == '<' && LEGACY_HINT@[1] == 'p',
        occurrences(LEGACY_HINT@, LEGACY_HINT@) == 1,
        no_open_prefix(LEGACY_HINT@, LEGACY_HINT@),
{
    reveal_strlit(r#"<p class="hint hint-legacy">このページは旧 HTML 形式です。Markdown に書き直すとプレビューが正しく表示されます。</p>"#);
    let w = LEGACY_HINT@;
    let rest = w.drop_first();
    assert(opens_no_paragraph(rest));
    lemma_no_paragraph_no_occurrence(rest, w);
    assert(w.subrange(0, w.len() as int) =~= w);
    assert(occurs_at(w, w, 0));
    assert forall|k: int| 1 <= k < w.len() implies !#[trigger] ends_with(w, w.take(k)) by {
        if ends_with(w, w.take(k)) {
            let sub = w.subrange(w.len() - k, w.len() as int);
            assert(sub[0] == rest[w.len() - k - 1]);
            if k >= 2 {
                assert(sub[1] == rest[w.len() - k]);
            }
        }
    }
}

/// How often the old-format hint occurs in the page: as often as in its
/// fixed text, and once more when the content is of the earlier format.
proof fn lemma_page_hints(
    page_id: Seq<char>,
    title: Seq<char>,
    content: Seq<char>,
    pages: Seq<PageMeta>,
    marked_js: Seq<char>,
)
    ensures
        occurrences(html_page_spec(page_id, title, content, pages, marked_js), LEGACY_HINT@)
            == fixed_occurrences(marked_js, LEGACY_HINT@) + (if legacy_html_spec(content) {
            1nat
        } else {
            0nat
        }),
{
    let w = LEGACY_HINT@;
    let p = fixed_page_pieces(marked_js);
    lemma_page_lines_open_no_paragraph();
    lemma_hint_holds_itself_once();
    lemma_no_paragraph_no_occurrence(TITLE_OPEN@, w);
    lemma_no_paragraph_no_occurrence(SIDEBAR_INDENT@, w);
    lemma_no_paragraph_no_occurrence(DELETE_FORM_OPEN@, w);
    lemma_no_paragraph_no_occurrence(TITLE_INPUT_OPEN@, w);
    lemma_no_paragraph_no_occurrence(HINT_INDENT@, w);
    lemma_no_paragraph_no_occurrence(EDITOR_OPEN@, w);
    lemma_no_paragraph_no_occurrence(PAGE_INDEX_DECLARATION@, w);
    lemma_no_paragraph_no_occurrence(PAGE_ID_DECLARATION@, w);
    lemma_no_open_prefix_past_stranger(PAGE_HEAD@, TITLE_OPEN@, w);
    lemma_no_open_prefix_past_stranger(PAGE_BEFORE_SIDEBAR@, SIDEBAR_INDENT@, w);
    lemma_no_open_prefix_past_stranger(PAGE_BEFORE_DELETE_ID@, DELETE_FORM_OPEN@, w);
    lemma_no_open_prefix_past_stranger(PAGE_BEFORE_TITLE_VALUE@, TITLE_INPUT_OPEN@, w);
    lemma_no_open_prefix_past_stranger(PAGE_BEFORE_LEGACY_HINT@, HINT_INDENT@, w);
    lemma_no_open_prefix_past_stranger(PAGE_BEFORE_CONTENT@, EDITOR_OPEN@, w);
    lemma_no_open_prefix_past_stranger(
        PAGE_BEFORE_MARKED_SCRIPT@ + SCRIPT_OPEN@ + marked_js + PAGE_BEFORE_PAGE_INDEX@,
        PAGE_INDEX_DECLARATION@,
        w,
    );
    lemma_no_open_prefix_past_stranger(PAGE_BEFORE_PAGE_ID@, PAGE_ID_DECLARATION@, w);

    let ht = html_escaped(title);
    let hi = html_escaped(page_id);
    let hc = html_escaped(content);
    let side = sidebar_spec(page_id, pages);
    let hint = legacy_hint_spec(content);
    let index = page_index_spec(pages);
    law_html_escape_leaves_no_markup(title);
    law_html_escape_leaves_no_markup(page_id);
    law_html_escape_leaves_no_markup(content);
    law_page_index_cannot_close_script(pages);
    lemma_lacking_tags_opens_no_paragraph(ht);
    lemma_lacking_tags_opens_no_paragraph(hi);
    lemma_lacking_tags_opens_no_paragraph(hc);
    lemma_lacking_tags_opens_no_paragraph(index);
    lemma_no_paragraph_no_occurrence(ht, w);
    lemma_no_paragraph_no_occurrence(hi, w);
    lemma_no_paragraph_no_occurrence(hc, w);
    lemma_no_paragraph_no_occurrence(index, w);
    let items = sidebar_links(page_id, pages);
    assert forall|i: int| 0 <= i < items.len() implies opens_no_paragraph(#[trigger] items[i]) by {
        lemma_sidebar_link_opens_no_paragraph(pages[i].id@, pages[i].title@, page_id);
    }
    assert(opens_no_paragraph(seq!['\n']));
    lemma_joined_opens_no_paragraph(items, seq!['\n']);
    lemma_no_paragraph_no_occurrence(side, w);
    assert(occurrences(Seq::<char>::empty(), w) == 0);
    assert(no_open_prefix(Seq::<char>::empty(), w));
    assert(occurrences(hint, w) == (if legacy_html_spec(content) {
        1nat
    } else {
        0nat
    }));

    let x0 = p[0];
    let x1 = x0 + ht;
    lemma_join_step(x0, ht, w);
    let x2 = x1 + p[1];
    lemma_join_step(x1, p[1], w);
    let x3 = x2 + side;
    lemma_join_step(x2, side, w);
    let x4 = x3 + p[2];
    lemma_join_step(x3, p[2], w);
    let x5 = x4 + hi;
    lemma_join_step(x4, hi, w);
    let x6 = x5 + p[3];
    lemma_join_step(x5, p[3], w);
    let x7 = x6 + ht;
    lemma_join_step(x6, ht, w);
    let x8 = x7 + p[4];
    lemma_join_step(x7, p[4], w);
    let x9 = x8 + hint;
    lemma_join_step(x8, hint, w);
    let x10 = x9 + p[5];
    lemma_join_step(x9, p[5], w);
    let x11 = x10 + hc;
    lemma_join_step(x10, hc, w);
    let x12 = x11 + p[6];
    lemma_join_step(x11, p[6], w);
    let x13 = x12 + index;
    lemma_join_step(x12, index, w);
    let x14 = x13 + p[7];
    lemma_join_step(x13, p[7], w);
    let x15 = x14 + hi;
    lemma_join_step(x14, hi, w);
    lemma_occurrences_concat(x15, p[8], w);
    lemma_page_grouping(page_id, title, content, pages, marked_js);
}

proof fn lemma_occurrence_found(s: Seq<char>, w: Seq<char>)
    requires
        occurrences(s, w) > 0,
    ensures
        contains_text(s, w),
    decreases s.len(),
{
    if !occurs_at(s, w, 0) {
        lemma_occurrence_found(s.drop_first(), w);
        let i = choose|i: int| occurs_at(s.drop_first(), w, i);
        assert(s.subrange(i + 1, i + 1 + w.len()) =~= s.drop_first().subrange(i, i + w.len()));
        assert(occurs_at(s, w, i + 1));
    }
}

proof fn lemma_no_occurrence_nowhere(s: Seq<char>, w: Seq<char>)
    requires
        w.len() > 0,
        occurrences(s, w) == 0,
    ensures
        !contains_text(s, w),
    decreases s.len(),
{
    if s.len() > 0 {
        lemma_no_occurrence_nowhere(s.drop_first(), w);
    }
    assert forall|i: int| !occurs_at(s, w, i) by {
        if occurs_at(s, w, i) && i > 0 {
            assert(s.subrange(i, i + w.len()) =~= s.drop_first().subrange(i - 1, i - 1 + w.len()));
            assert(occurs_at(s.drop_first(), w, i - 1));
        }
    }
}

/// The editor page holds the old-format hint exactly when its content is
/// HTML of the earlier format, as `is_legacy_html` tells it (content with
/// text before its first tag included): it holds the hint once more than its
/// fixed text does then, and no more than its fixed text does otherwise,
/// whatever the page's id, title and list of pages. So the page of such
/// content always shows the hint, and, with a renderer script that leaves the
/// fixed text without it, no other page does.
pub proof fn law_page_shows_hint_exactly_for_legacy_content(
    page_id: Seq<char>,
    title: Seq<char>,
    content: Seq<char>,
    pages: Seq<PageMeta>,
    marked_js: Seq<char>,
)
    ensures
        occurrences(html_page_spec(page_id, title, content, pages, marked_js), LEGACY_HINT@)
            == fixed_occurrences(marked_js, LEGACY_HINT@) + (if legacy_html_spec(content) {
            1nat
        } else {
            0nat
        }),
        legacy_html_spec(content) ==> contains_text(
            html_page_spec(page_id, title, content, pages, marked_js),
            LEGACY_HINT@,
        ),
        fixed_occurrences(marked_js, LEGACY_HINT@) == 0 ==> (contains_text(
            html_page_spec(page_id, title, content, pages, marked_js),
            LEGACY_HINT@,
        ) <==> legacy_html_spec(content)),
{
    let page = html_page_spec(page_id, title, content, pages, marked_js);
    lemma_hint_holds_itself_once();
    lemma_page_hints(page_id, title, content, pages, marked_js);
    if occurrences(page, LEGACY_HINT@) > 0 {
        lemma_occurrence_found(page, LEGACY_HINT@);
    } else {
        lemma_no_occurrence_nowhere(page, LEGACY_HINT@);
    }
}


} // verus!

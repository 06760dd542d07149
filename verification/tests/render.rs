use pico_potion::escape::{escape_html, escape_js_string};
use pico_potion::render::{
    get_html_template, is_legacy_html, render_page_index_json, render_sidebar, PageMeta,
};

fn page(id: &str, title: &str) -> PageMeta {
    PageMeta {
        id: id.to_string(),
        title: title.to_string(),
    }
}

#[test]
fn page_index_json_escapes_titles_and_ids() {
    let pages = vec![
        PageMeta {
            id: "home".to_string(),
            title: "家族の共有ノート".to_string(),
        },
        PageMeta {
            id: "p\"<>&".to_string(),
            title: "A \"quoted\" <page> & note".to_string(),
        },
    ];

    let json = render_page_index_json(&pages);

    assert!(json.contains(r#"{"id":"home","title":"家族の共有ノート"}"#));
    assert!(json.contains(
        r#"{"id":"p\"\u003C\u003E\u0026","title":"A \"quoted\" \u003Cpage\u003E \u0026 note"}"#
    ));
    assert!(!json.contains("</script>"));
}

#[test]
fn html_template_embeds_marked_full_use_features() {
    let pages = vec![PageMeta {
        id: "home".to_string(),
        title: "Home".to_string(),
    }];

    let html = get_html_template("home", "Home", "# Hello", &pages, "");

    assert!(html.contains("const MARKDOWN_FEATURES"));
    assert!(html.contains("const PAGE_INDEX"));
    assert!(html.contains("gfm: true"));
    assert!(html.contains("breaks: true"));
    assert!(html.contains("walkTokens"));
    assert!(html.contains("name: 'mark'"));
    assert!(html.contains("name: 'wikiLink'"));
    assert!(html.contains("data-action=\"bold\""));
    assert!(html.contains("id=\"live-preview\""));
    assert!(html.contains("id=\"mem-btn\""));
    assert!(html.contains(">MEM</button>"));
    assert!(html.contains("/stats/memory"));
}

#[test]
fn escape_html_replaces_the_four_markup_characters() {
    assert_eq!(
        escape_html(r#"a & b < c > d "e" 'f'"#),
        "a &amp; b &lt; c &gt; d &quot;e&quot; 'f'"
    );
    assert_eq!(escape_html("&amp;"), "&amp;amp;");
    assert_eq!(escape_html(""), "");
    assert_eq!(escape_html("家族"), "家族");
}

#[test]
fn escaped_html_holds_no_markup() {
    let out = escape_html("<script>alert(\"x\")</script>");
    assert!(!out.contains('<'));
    assert!(!out.contains('>'));
    assert!(!out.contains('"'));
}

#[test]
fn escape_js_string_short_escapes() {
    assert_eq!(escape_js_string("a\\b\"c\nd\re\tf"), "a\\\\b\\\"c\\nd\\re\\tf");
}

#[test]
fn escape_js_string_unicode_escapes() {
    assert_eq!(escape_js_string("<>&"), "\\u003C\\u003E\\u0026");
    assert_eq!(escape_js_string("\u{2028}\u{2029}"), "\\u2028\\u2029");
    assert_eq!(escape_js_string("\u{0}\u{1b}\u{7f}\u{9f}"), "\\u0000\\u001B\\u007F\\u009F");
    assert_eq!(escape_js_string("é家"), "é家");
}

#[test]
fn escaped_js_cannot_close_the_script() {
    let out = escape_js_string("</script>\n\u{2028}");
    assert!(!out.contains('<'));
    assert!(!out.contains('\n'));
    assert!(!out.contains('\u{2028}'));
}

#[test]
fn sidebar_marks_only_the_current_page() {
    let pages = vec![page("home", "Home"), page("p1", "A <b>")];
    let html = render_sidebar("p1", &pages);
    assert_eq!(
        html,
        "<a href=\"/page/home\" class=\"page-item\"><span class=\"page-icon\" aria-hidden=\"true\"></span><span class=\"page-title\">Home</span></a>\n\
         <a href=\"/page/p1\" class=\"page-item active\"><span class=\"page-icon\" aria-hidden=\"true\"></span><span class=\"page-title\">A &lt;b&gt;</span></a>"
    );
}

#[test]
fn sidebar_of_no_pages_is_empty() {
    assert_eq!(render_sidebar("home", &[]), "");
}

#[test]
fn page_index_of_no_pages_is_an_empty_array() {
    assert_eq!(render_page_index_json(&[]), "[]");
}

#[test]
fn page_index_separates_entries_with_commas() {
    let pages = vec![page("a", "A"), page("b", "B")];
    assert_eq!(
        render_page_index_json(&pages),
        r#"[{"id":"a","title":"A"},{"id":"b","title":"B"}]"#
    );
}

#[test]
fn page_index_with_script_end_in_title() {
    let pages = vec![page("x", "</script><script>alert(1)</script>")];
    let json = render_page_index_json(&pages);
    assert!(!json.contains('<'));
}

#[test]
fn legacy_html_detection() {
    assert!(is_legacy_html("  \n<div>old</div>"));
    assert!(is_legacy_html("text then <p>para</p>"));
    assert!(is_legacy_html("x<h1>t</h1>"));
    assert!(!is_legacy_html("# Heading\n\n- item"));
    assert!(!is_legacy_html(""));
    assert!(!is_legacy_html("a < b and <h2>"));
    assert!(is_legacy_html("\u{3000}<span>"));
}

#[test]
fn template_escapes_values_and_inlines_the_renderer() {
    let pages = vec![page("home", "Home")];
    let html = get_html_template("home", "A \"t\" <x>", "<p>old</p>", &pages, "/* marked */");
    assert!(html.contains("<title>A &quot;t&quot; &lt;x&gt; - Pico Potion</title>"));
    assert!(html.contains("value=\"A &quot;t&quot; &lt;x&gt;\""));
    assert!(html.contains(">&lt;p&gt;old&lt;/p&gt;</textarea>"));
    assert!(html.contains("<script>/* marked */</script>"));
    assert!(html.contains("<p class=\"hint hint-legacy\">"));
    assert!(html.contains("action=\"/pages/home/delete\""));
    assert!(html.contains("const PAGE_ID = \"home\";"));
    assert!(html.contains(r#"const PAGE_INDEX = [{"id":"home","title":"Home"}];"#));
    assert!(html.starts_with("<!DOCTYPE html>"));
    assert!(html.ends_with("</html>"));
}

#[test]
fn template_without_legacy_content_has_no_hint() {
    let html = get_html_template("home", "Home", "# Hello", &[page("home", "Home")], "");
    assert!(!html.contains("<p class=\"hint hint-legacy\">"));
}

#[test]
fn template_carries_the_slash_shortcuts() {
    let html = get_html_template("home", "Home", "", &[page("home", "Home")], "");
    assert!(html.contains(r".replace(/^\/1\s+(.+)$/gm, '# $1')"));
    assert!(html.contains(r".replace(/^\/2\s+(.+)$/gm, '## $1')"));
    assert!(html.contains(r".replace(/^\/b\s+(.+)$/gm, '- $1')"));
}

#[test]
fn escaped_js_reads_back_as_json_string() {
    for s in ["", "plain", "a\\b\"c\nd\re\tf", "</script><>&", "\u{0}\u{1f}\u{7f}\u{9f}", "\u{2028}\u{2029}", "家族 é 👨‍👩‍👧"] {
        let literal = format!("\"{}\"", escape_js_string(s));
        assert_eq!(serde_json::from_str::<String>(&literal).unwrap(), s);
    }
}

#[test]
fn escaping_works_piece_by_piece() {
    let (a, b) = ("x<\"y", "\n&z");
    assert_eq!(escape_js_string(&format!("{a}{b}")), escape_js_string(a) + &escape_js_string(b));
    assert_eq!(escape_html(&format!("{a}{b}")), escape_html(a) + &escape_html(b));
    assert_eq!(escape_js_string(""), "");
    assert_eq!(escape_html(""), "");
}

#[test]
fn decoding_html_entities_gives_the_text_back() {
    for s in ["&amp;lt;", "<a href=\"x\">&</a>", "plain", "&&quot;;"] {
        let decoded = escape_html(s)
            .replace("&lt;", "<")
            .replace("&gt;", ">")
            .replace("&quot;", "\"")
            .replace("&amp;", "&");
        assert_eq!(decoded, s);
    }
}

#[test]
fn page_index_parses_as_json_array_of_pages() {
    let pages = vec![page("home", "家族の共有ノート"), page("p\"<>&", "A \"q\" </script>\n")];
    let value: serde_json::Value = serde_json::from_str(&render_page_index_json(&pages)).unwrap();
    let items = value.as_array().unwrap();
    assert_eq!(items.len(), 2);
    for (item, p) in items.iter().zip(&pages) {
        let object = item.as_object().unwrap();
        assert_eq!(object.len(), 2);
        assert_eq!(object["id"].as_str().unwrap(), p.id);
        assert_eq!(object["title"].as_str().unwrap(), p.title);
    }
}

#[test]
fn leading_white_space_keeps_the_legacy_answer() {
    for s in ["<p>x</p>", "# md", "x <h1>", ""] {
        assert_eq!(is_legacy_html(&format!(" \t\n\u{3000}{s}")), is_legacy_html(s));
    }
}

#[test]
fn values_cannot_end_the_script_or_the_editor() {
    let plain = get_html_template("home", "Home", "# Hi", &[page("home", "Home")], "/* m */");
    let hostile = get_html_template(
        "</script>",
        "</textarea></script>",
        "</textarea><script>x</script>",
        &[page("</script>", "</textarea>"), page("b", "</script>")],
        "/* m */",
    );
    assert_eq!(plain.matches("</script>").count(), hostile.matches("</script>").count());
    assert_eq!(plain.matches("</textarea>").count(), hostile.matches("</textarea>").count());
}

#[test]
fn template_converts_slash_shortcuts_and_debounces_autosave() {
    let html = get_html_template("home", "Home", "", &[page("home", "Home")], "");
    assert!(html.contains("const blocks = { '/1 ': '# ', '/2 ': '## ', '/b ': '- ' };"));
    assert!(html.contains("mdEditor.addEventListener('input', convertSlashShortcut);"));
    assert!(html.contains("saveTimeout = setTimeout(saveData, SAVE_DEBOUNCE_MS);"));
}

#[test]
fn escaped_html_ampersands_start_entities() {
    let out = escape_html("& &amp; <\"> x&y");
    for (i, _) in out.match_indices('&') {
        let rest = &out[i..];
        assert!(["&amp;", "&lt;", "&gt;", "&quot;"].iter().any(|e| rest.starts_with(e)), "{rest}");
    }
}

#[test]
fn page_index_holds_no_script_breaking_characters() {
    let pages = vec![page("a>&", "\u{2028}\u{2029}<>&")];
    let json = render_page_index_json(&pages);
    for c in ['<', '>', '&', '\u{2028}', '\u{2029}'] {
        assert!(!json.contains(c));
    }
}

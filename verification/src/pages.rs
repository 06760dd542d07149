//! How the server answers requests about pages: where it redirects, what it
//! stores as a title, when a delete only clears the page, and how new pages
//! are named. The database work itself is the caller's; these functions take
//! what it read and say what to do.
use vstd::prelude::*;
use std::time::{Duration, SystemTime, SystemTimeError, UNIX_EPOCH};
use crate::numbers::{
    all_digits, decimal_digits, decimal_value, law_decimal_digits_read_back, push_decimal,
};
use crate::render::{get_html_template, html_page_spec, PageMeta};
use crate::text::{is_blank, is_white_space, push_char, text_is_blank};

verus! {

/// The id of the page the store starts with.
pub const HOME_PAGE_ID: &'static str = "home";

/// The title of the page the store starts with.
pub const HOME_PAGE_TITLE: &'static str = "家族の共有ノート";

/// The title a page gets when it is created or saved without one.
pub const UNTITLED: &'static str = "無題";

/// The prefix of every page's address.
pub const PAGE_PATH_PREFIX: &'static str = "/page/";

/// The address of the page `id`.
pub open spec fn page_path_spec(id: Seq<char>) -> Seq<char> {
    PAGE_PATH_PREFIX@ + id
}

/// The address of the page `id`, where the server redirects to show it.
pub fn page_path(id: &str) -> (r: String)
    ensures
        r@ == page_path_spec(id@),
{
    let mut out = String::from_str(PAGE_PATH_PREFIX);
    out.append(id);
    out
}

/// Where the site's root redirects: to the oldest page, or to the home page
/// when the store gave no page.
pub fn root_redirect(oldest_page_id: Option<String>) -> (r: String)
    ensures
        r@ == page_path_spec(
            match oldest_page_id {
                Some(id) => id@,
                None => HOME_PAGE_ID@,
            },
        ),
{
    match oldest_page_id {
        Some(id) => page_path(id.as_str()),
        None => page_path(HOME_PAGE_ID),
    }
}

/// An answer to a request for a page.
#[derive(Debug, PartialEq, Eq)]
pub enum Reply {
    /// This HTML document.
    Html(String),
    /// A redirect to this address.
    Redirect(String),
}

/// The answer to a request for the page `id`: its editor page when the store
/// holds it (with its title and content), a redirect to the root otherwise.
pub fn page_reply(
    id: &str,
    stored: Option<(String, String)>,
    pages: &[PageMeta],
    marked_js: &str,
) -> (r: Reply)
    ensures
        match stored {
            Some((title, content)) => r matches Reply::Html(h) && h@ == html_page_spec(
                id@,
                title@,
                content@,
                pages@,
                marked_js@,
            ),
            None => r matches Reply::Redirect(to) && to@ == seq!['/'],
        },
{
    match stored {
        Some((title, content)) => Reply::Html(
            get_html_template(id, title.as_str(), content.as_str(), pages, marked_js),
        ),
        None => {
            let mut to = String::new();
            push_char(&mut to, '/');
            Reply::Redirect(to)
        },
    }
}

/// The title a save stores: the one given, or the untitled title when the
/// given one is blank (empty or white space only).
pub open spec fn stored_title_spec(title: Seq<char>) -> Seq<char> {
    if is_blank(title) {
        UNTITLED@
    } else {
        title
    }
}

/// The title to store when a page is saved with `title`.
pub fn title_to_store(title: String) -> (r: String)
    ensures
        r@ == stored_title_spec(title@),
{
    if text_is_blank(title.as_str()) {
        String::from_str(UNTITLED)
    } else {
        title
    }
}

/// A saved page never has a blank title.
pub proof fn law_stored_title_is_never_blank(title: Seq<char>)
    ensures
        !is_blank(stored_title_spec(title)),
{
    reveal_strlit("無題");
    if is_blank(title) {
        assert(!is_white_space(UNTITLED@[0]));
    }
}

/// A title that is not blank is stored exactly as given, however long it is
/// and whatever it holds; a blank one is stored as the untitled title.
pub proof fn law_stored_title_is_the_given_one(title: Seq<char>)
    ensures
        !is_blank(title) ==> stored_title_spec(title) == title,
        is_blank(title) ==> stored_title_spec(title) == UNTITLED@,
{
}

/// Saving a page again with the title it was stored with stores the same
/// title.
pub proof fn law_storing_a_stored_title_keeps_it(title: Seq<char>)
    ensures
        stored_title_spec(stored_title_spec(title)) == stored_title_spec(title),
{
    law_stored_title_is_never_blank(title);
}

/// What a delete request does.
#[derive(Debug, Clone, Copy, PartialEq, Eq, Structural)]
pub enum DeleteStep {
    /// The page is the only one left: keep it, untitled and empty.
    ClearContents,
    /// Remove the page.
    Remove,
}

pub open spec fn delete_step_spec(page_count: int) -> DeleteStep {
    if page_count <= 1 {
        DeleteStep::ClearContents
    } else {
        DeleteStep::Remove
    }
}

/// What a delete request does, given how many pages the store holds.
pub fn delete_step(page_count: i64) -> (r: DeleteStep)
    ensures
        r == delete_step_spec(page_count as int),
{
    if page_count <= 1 {
        DeleteStep::ClearContents
    } else {
        DeleteStep::Remove
    }
}

/// A delete never empties a store that holds a page: the last page is only
/// cleared.
pub proof fn law_delete_never_removes_the_last_page(page_count: int)
    requires
        page_count >= 1,
    ensures
        delete_step_spec(page_count) == DeleteStep::Remove ==> page_count - 1 >= 1,
        page_count == 1 ==> delete_step_spec(page_count) == DeleteStep::ClearContents,
{
}

/// Whether the store, holding `page_count` pages after its tables are set
/// up, gets the home page: exactly when it is empty.
pub fn should_seed_home(page_count: i64) -> (r: bool)
    ensures
        r == (page_count == 0),
{
    page_count == 0
}

/// Whether the database file of the editor's earlier name is renamed to the
/// current name: when the current file does not exist and the earlier one
/// does.
pub fn should_migrate_legacy_db(current_exists: bool, legacy_exists: bool) -> (r: bool)
    ensures
        r == (!current_exists && legacy_exists),
{
    !current_exists && legacy_exists
}

/// The id of a page created `millis` milliseconds after the Unix epoch:
/// `p` and the number in decimal.
pub open spec fn page_id_spec(millis: nat) -> Seq<char> {
    seq!['p'] + decimal_digits(millis)
}

pub fn page_id_for_millis(millis: u128) -> (r: String)
    ensures
        r@ == page_id_spec(millis as nat),
{
    let mut out = String::new();
    push_char(&mut out, 'p');
    push_decimal(&mut out, millis);
    out
}

/// A page's id is `p` and then decimal digits that read back as the time it
/// was made at, so pages made at different times never share an id.
pub proof fn law_page_id_reads_back_as_its_time(millis: nat, other: nat)
    ensures
        page_id_spec(millis)[0] == 'p',
        all_digits(page_id_spec(millis).drop_first()),
        decimal_value(page_id_spec(millis).drop_first()) == millis,
        millis != other ==> page_id_spec(millis) != page_id_spec(other),
{
    law_decimal_digits_read_back(millis, millis);
    law_decimal_digits_read_back(other, other);
    assert(page_id_spec(millis).drop_first() =~= decimal_digits(millis));
    assert(page_id_spec(other).drop_first() =~= decimal_digits(other));
}

/// `std::time::SystemTime`, a point in time read from the clock; opaque here.
#[verifier::external_type_specification]
#[verifier::external_body]
pub struct ExSystemTime(SystemTime);

/// `std::time::SystemTimeError`, the clock being set before a given time;
/// opaque here.
#[verifier::external_type_specification]
#[verifier::external_body]
pub struct ExSystemTimeError(SystemTimeError);

/// Calls `SystemTime::now`. The clock decides the value: nothing is stated
/// of it.
#[verifier::external_body]
fn clock_now() -> SystemTime {
    SystemTime::now()
}

/// Calls `SystemTime::duration_since` with `UNIX_EPOCH`: the time since the
/// epoch, or an error when the clock is set before it. The clock decides
/// which: nothing is stated of it.
#[verifier::external_body]
fn time_since_epoch(t: &SystemTime) -> Result<Duration, SystemTimeError> {
    t.duration_since(UNIX_EPOCH)
}

/// Calls `Duration::as_secs`: the whole seconds of the duration. The
/// duration is opaque here: nothing is stated of the value.
#[verifier::external_body]
fn whole_seconds(d: &Duration) -> u64 {
    d.as_secs()
}

/// Calls `Duration::as_millis`: the whole milliseconds of the duration. The
/// duration is opaque here: nothing is stated of the value.
#[verifier::external_body]
fn whole_millis(d: &Duration) -> u128 {
    d.as_millis()
}

/// The current time in whole seconds since the Unix epoch, as an `i64`
/// (wrapping as `as` does). `None` when the clock is set before the epoch.
/// The clock decides the value: no clause states it.
pub fn now_secs() -> (r: Option<i64>) {
    let now = clock_now();
    match time_since_epoch(&now) {
        Ok(d) => Some(whole_seconds(&d) as i64),
        Err(_) => None,
    }
}

/// A new page's id, from the current time: `p` and the milliseconds since
/// the Unix epoch. `None` when the clock is set before the epoch. The clock
/// decides the number; whatever it is, the id is `p` and its decimal digits.
pub fn gen_page_id() -> (r: Option<String>)
    ensures
        r matches Some(id) ==> exists|millis: nat| id@ == page_id_spec(millis),
{
    let now = clock_now();
    match time_since_epoch(&now) {
        Ok(d) => {
            let ms = whole_millis(&d);
            let id = page_id_for_millis(ms);
            assert(id@ == page_id_spec(ms as nat));
            Some(id)
        },
        Err(_) => None,
    }
}

} // verus!

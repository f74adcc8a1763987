//! The checks that the commands of the application make before they ask the
//! tracker for anything, and the page of issues they hand back.

use crate::bridge::Issue;
use crate::json::{nonblank, nonblank_text};
use crate::text::{is_blank, opt_text, str_is_blank};
use vstd::prelude::*;

verus! {

/// Page size of the issue list.
pub const ISSUE_SCROLL_PER_PAGE: u32 = 100;

/// Lifetime of the scroll cursor of the issue list, in milliseconds.
pub const ISSUE_SCROLL_TTL_MILLIS: u64 = 60_000;

/// Seconds between two refreshes of the issue cache.
pub const ISSUE_REFRESH_INTERVAL_SECS: u64 = 300;

/// One page of the issue list.
#[derive(Debug)]
pub struct IssuePagePayload {
    pub issues: Vec<Issue>,
    pub next_scroll_id: Option<String>,
    pub total_count: Option<u64>,
    pub has_more: bool,
}

/// The page of the issue list: there is more exactly where a next scroll id
/// came back.
pub fn issue_page(issues: Vec<Issue>, next_scroll_id: Option<String>, total_count: Option<u64>) -> (page:
    IssuePagePayload)
    ensures
        page.issues == issues,
        page.next_scroll_id == next_scroll_id,
        page.total_count == total_count,
        page.has_more == (next_scroll_id is Some),
{
    let has_more = next_scroll_id.is_some();
    IssuePagePayload { issues, next_scroll_id, total_count, has_more }
}

/// Tells whether a page replaces the cached issues: only the first page of a
/// list does.
pub fn replaces_cache(scroll_id: Option<&str>) -> (replaces: bool)
    ensures
        replaces == (scroll_id is None),
{
    scroll_id.is_none()
}

/// Refuses a comment that is blank.
pub fn check_comment_text(text: &str) -> (checked: Result<(), String>)
    ensures
        checked is Ok <==> !is_blank(text@),
        checked matches Err(m) ==> m@ == "Comment text cannot be empty"@,
{
    if str_is_blank(text) {
        Err("Comment text cannot be empty".to_owned())
    } else {
        Ok(())
    }
}

/// Refuses a resource path that is blank.
pub fn check_resource_path(path: &str) -> (checked: Result<(), String>)
    ensures
        checked is Ok <==> !is_blank(path@),
        checked matches Err(m) ==> m@ == "Resource path is empty"@,
{
    if str_is_blank(path) {
        Err("Resource path is empty".to_owned())
    } else {
        Ok(())
    }
}

/// Tells whether a scroll cursor has to be released: a blank id names none.
pub fn releases_scroll(scroll_id: &str) -> (releases: bool)
    ensures
        releases == !is_blank(scroll_id@),
{
    !str_is_blank(scroll_id)
}

/// The comment sent with logged work: the text trimmed, or none where it is
/// blank.
pub fn work_comment(comment: &str) -> (kept: Option<String>)
    ensures
        opt_text(kept) == nonblank(comment@),
{
    nonblank_text(comment)
}

/// The greeting.
pub fn greet(name: &str) -> (text: String)
    ensures
        text@ == "Hello, "@ + name@ + "! You've been greeted from Rust!"@,
{
    crate::request::concat3("Hello, ", name, "! You've been greeted from Rust!")
}

} // verus!

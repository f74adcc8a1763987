//! Paginated fetches: the scroll cursor of a search, the id cursor of a
//! worklog, and the page counter of a directory.
//!
//! A pager holds what was fetched so far and says which query the next
//! request carries; the caller sends the request and hands the decoded chunk
//! back.

use crate::client::{new_pairs, no_pairs, scroll_query_of, ScrollType};
use crate::json::normalized_id_of;
use crate::models::WorklogEntry;
use crate::request::{find_header, header_of, pairs_of, push_pair};
use crate::text::{decimal_of, decimal_string, opt_text, parse_u64_str, parsed_u64};
use vstd::prelude::*;

verus! {

/// Page size of a worklog fetch.
pub const WORKLOG_PAGE_SIZE: usize = 100;

/// Most worklog entries ever returned for one issue.
pub const WORKLOG_HARD_CAP: usize = 500;

/// Page size of a directory fetch.
pub const DIRECTORY_PAGE_SIZE: usize = 200;

/// Most pages ever fetched of one directory.
pub const DIRECTORY_MAX_PAGES: u32 = 10;

/// One page of a scroll: the items, and the cursor state that came in the
/// response headers.
#[derive(Debug)]
pub struct ScrollPage<T> {
    pub items: Vec<T>,
    pub scroll_id: Option<String>,
    pub scroll_token: Option<String>,
    pub total_count: Option<u64>,
}

/// The mathematical content of a scroll page.
pub struct ScrollModel<T> {
    pub items: Seq<T>,
    pub scroll_id: Option<Seq<char>>,
    pub scroll_token: Option<Seq<char>>,
    pub total_count: Option<u64>,
}

impl<T> View for ScrollPage<T> {
    type V = ScrollModel<T>;

    open spec fn view(&self) -> ScrollModel<T> {
        ScrollModel {
            items: self.items@,
            scroll_id: opt_text(self.scroll_id),
            scroll_token: opt_text(self.scroll_token),
            total_count: self.total_count,
        }
    }
}

/// The total that a header value announces: nothing where the header is
/// missing or is not an unsigned number.
pub open spec fn total_count_of(header: Option<Seq<char>>) -> Option<u64> {
    match header {
        Some(text) => parsed_u64(text),
        None => None,
    }
}

/// The page that a response stands for: the decoded items as they are, and
/// `X-Scroll-Id`, `X-Scroll-Token` and `X-Total-Count` from the headers.
pub open spec fn scroll_page_of<T>(items: Seq<T>, headers: Seq<(Seq<char>, Seq<char>)>) -> ScrollModel<
    T,
> {
    ScrollModel {
        items,
        scroll_id: header_of(headers, "X-Scroll-Id"@),
        scroll_token: header_of(headers, "X-Scroll-Token"@),
        total_count: total_count_of(header_of(headers, "X-Total-Count"@)),
    }
}

/// The page that a response stands for.
pub fn scroll_page<T>(items: Vec<T>, headers: &Vec<(String, String)>) -> (page: ScrollPage<T>)
    ensures
        page@ == scroll_page_of(items@, pairs_of(headers@)),
        page.items == items,
{
    let scroll_id = match find_header(headers, "X-Scroll-Id") {
        Some(value) => Some(value.clone()),
        None => None,
    };
    let scroll_token = match find_header(headers, "X-Scroll-Token") {
        Some(value) => Some(value.clone()),
        None => None,
    };
    let total_count = match find_header(headers, "X-Total-Count") {
        Some(value) => parse_u64_str(value.as_str()),
        None => None,
    };
    ScrollPage { items, scroll_id, scroll_token, total_count }
}

impl<T> ScrollPage<T> {
    /// Whether the server returned a cursor, that is, whether more pages may
    /// follow.
    pub fn has_more(&self) -> (more: bool)
        ensures
            more == (self@.scroll_id is Some),
    {
        self.scroll_id.is_some()
    }
}

/// A scroll that is continued with the id of its first page sends that id as
/// its only cursor parameter, whatever page size and scroll type are asked
/// for, and both pages hold exactly the items of their responses: where the
/// two responses share no item, the two pages share none.
pub proof fn lemma_scroll_round_trip<T>(
    first: Seq<T>,
    first_headers: Seq<(Seq<char>, Seq<char>)>,
    second: Seq<T>,
    second_headers: Seq<(Seq<char>, Seq<char>)>,
    per_scroll: Option<u32>,
    scroll_type: ScrollType,
    ttl_millis: Option<u64>,
)
    requires
        scroll_page_of(first, first_headers).scroll_id is Some,
        forall|i: int, j: int| 0 <= i < first.len() && 0 <= j < second.len() ==> first[i] != second[j],
    ensures
        ({
            let one = scroll_page_of(first, first_headers);
            let two = scroll_page_of(second, second_headers);
            let query = scroll_query_of(one.scroll_id, per_scroll, scroll_type, ttl_millis);
            let cursor = no_pairs().push(("scrollId"@, one.scroll_id->0));
            &&& query == match ttl_millis {
                Some(ttl) => cursor.push(("scrollTTLMillis"@, decimal_of(ttl as nat))),
                None => cursor,
            }
            &&& one.items == first
            &&& two.items == second
            &&& forall|i: int, j: int|
                0 <= i < one.items.len() && 0 <= j < two.items.len() ==> one.items[i]
                    != two.items[j]
        }),
{
}

/// What is fetched of a worklog after one more chunk: the entries, the cursor
/// for the next request, and whether the fetch is over. An empty chunk ends
/// the fetch. Else the chunk is added; reaching 500 entries ends the fetch
/// with exactly 500; a chunk shorter than a page ends it; and so does a last
/// entry whose id gives no cursor.
pub open spec fn worklog_step(before: Seq<WorklogEntry>, chunk: Seq<WorklogEntry>) -> (
    Seq<WorklogEntry>,
    Option<Seq<char>>,
    bool,
) {
    if chunk.len() == 0 {
        (before, None, true)
    } else {
        let all = before + chunk;
        if all.len() >= 500 {
            (all.take(500), None, true)
        } else if chunk.len() < 100 {
            (all, None, true)
        } else {
            match normalized_id_of(chunk.last().id@) {
                Some(id) => (all, Some(id), false),
                None => (all, None, true),
            }
        }
    }
}

/// The query of a worklog request: the page size, and the id of the last
/// entry fetched so far where there is one.
pub open spec fn worklog_query_of(cursor: Option<Seq<char>>) -> Seq<(Seq<char>, Seq<char>)> {
    let size = no_pairs().push(("perPage"@, decimal_of(100)));
    match cursor {
        Some(id) => size.push(("id"@, id)),
        None => size,
    }
}

/// The state of a worklog fetch.
#[derive(Debug)]
pub struct WorklogPager {
    entries: Vec<WorklogEntry>,
    cursor: Option<String>,
    done: bool,
}

impl WorklogPager {
    #[verifier::type_invariant]
    spec fn well_formed(self) -> bool {
        self.entries.len() <= 500
    }

    /// The entries fetched so far.
    pub closed spec fn entries(self) -> Seq<WorklogEntry> {
        self.entries@
    }

    /// The id that the next request carries.
    pub closed spec fn cursor(self) -> Option<Seq<char>> {
        opt_text(self.cursor)
    }

    /// Whether the fetch is over.
    pub closed spec fn is_done(self) -> bool {
        self.done
    }

    /// A fetch that has not asked for anything yet.
    pub fn new() -> (pager: Self)
        ensures
            pager.entries() == Seq::<WorklogEntry>::empty(),
            pager.cursor() is None,
            !pager.is_done(),
    {
        WorklogPager { entries: Vec::new(), cursor: None, done: false }
    }

    /// The query of the next request, or nothing where the fetch is over.
    pub fn next_query(&self) -> (query: Option<Vec<(String, String)>>)
        ensures
            query is None <==> self.is_done(),
            query matches Some(q) ==> pairs_of(q@) == worklog_query_of(self.cursor()),
    {
        if self.done {
            return None;
        }
        let mut query = new_pairs();
        let size = decimal_string(WORKLOG_PAGE_SIZE as u64);
        push_pair(&mut query, "perPage", size.as_str());
        match &self.cursor {
            Some(id) => push_pair(&mut query, "id", id.as_str()),
            None => {},
        }
        Some(query)
    }

    /// The fetch after one more chunk. A fetch that is over ignores the
    /// chunk.
    pub fn absorb(self, chunk: Vec<WorklogEntry>) -> (next: Self)
        ensures
            self.is_done() ==> next == self,
            !self.is_done() ==> (next.entries(), next.cursor(), next.is_done()) == worklog_step(
                self.entries(),
                chunk@,
            ),
            next.entries().len() <= 500,
    {
        proof {
            use_type_invariant(&self);
        }
        if self.done {
            return self;
        }
        let WorklogPager { entries, cursor, done } = self;
        if chunk.len() == 0 {
            return WorklogPager { entries, cursor: None, done: true };
        }
        let short = chunk.len() < WORKLOG_PAGE_SIZE;
        let last_id = chunk[chunk.len() - 1].id.normalized_id();
        let ghost given = chunk@;
        let mut entries = entries;
        let mut chunk = chunk;
        entries.append(&mut chunk);
        if entries.len() >= WORKLOG_HARD_CAP {
            entries.truncate(WORKLOG_HARD_CAP);
            assert(entries@ =~= (self.entries() + given).take(500));
            return WorklogPager { entries, cursor: None, done: true };
        }
        if short {
            return WorklogPager { entries, cursor: None, done: true };
        }
        match last_id {
            Some(id) => WorklogPager { entries, cursor: Some(id), done: false },
            None => WorklogPager { entries, cursor: None, done: true },
        }
    }

    /// The entries fetched: never more than 500.
    pub fn into_entries(self) -> (entries: Vec<WorklogEntry>)
        ensures
            entries@ == self.entries(),
            entries.len() <= 500,
    {
        proof {
            use_type_invariant(&self);
        }
        self.entries
    }
}

/// What is fetched of a directory after one more page: the items, the number
/// of the next page, and whether the fetch is over. The page is added; a page
/// shorter than the page size, an empty one among them, ends the fetch, and
/// so does the tenth page.
pub open spec fn directory_step<T>(before: Seq<T>, page: u32, chunk: Seq<T>) -> (Seq<T>, u32, bool) {
    if chunk.len() < 200 || page >= 10 {
        (before + chunk, page, true)
    } else {
        (before + chunk, (page + 1) as u32, false)
    }
}

/// The query of a directory request: the page size and the page number.
pub open spec fn directory_query_of(page: u32) -> Seq<(Seq<char>, Seq<char>)> {
    no_pairs().push(("perPage"@, decimal_of(200))).push(("page"@, decimal_of(page as nat)))
}

/// The state of a directory fetch.
#[derive(Debug)]
pub struct DirectoryPager<T> {
    items: Vec<T>,
    page: u32,
    done: bool,
}

impl<T> DirectoryPager<T> {
    #[verifier::type_invariant]
    spec fn well_formed(self) -> bool {
        1 <= self.page <= 10
    }

    /// The items fetched so far.
    pub closed spec fn items(self) -> Seq<T> {
        self.items@
    }

    /// The number of the page that the next request asks for.
    pub closed spec fn page(self) -> u32 {
        self.page
    }

    /// Whether the fetch is over.
    pub closed spec fn is_done(self) -> bool {
        self.done
    }

    /// A fetch that starts at page 1.
    pub fn new() -> (pager: Self)
        ensures
            pager.items() == Seq::<T>::empty(),
            pager.page() == 1,
            !pager.is_done(),
    {
        DirectoryPager { items: Vec::new(), page: 1, done: false }
    }

    /// The query of the next request, or nothing where the fetch is over. No
    /// request ever asks for a page beyond the tenth.
    pub fn next_query(&self) -> (query: Option<Vec<(String, String)>>)
        ensures
            query is None <==> self.is_done(),
            query matches Some(q) ==> pairs_of(q@) == directory_query_of(self.page()),
            1 <= self.page() <= 10,
    {
        proof {
            use_type_invariant(self);
        }
        if self.done {
            return None;
        }
        let mut query = new_pairs();
        let size = decimal_string(DIRECTORY_PAGE_SIZE as u64);
        let page = decimal_string(self.page as u64);
        push_pair(&mut query, "perPage", size.as_str());
        push_pair(&mut query, "page", page.as_str());
        Some(query)
    }

    /// The fetch after one more page. A fetch that is over ignores the page.
    pub fn absorb(self, chunk: Vec<T>) -> (next: Self)
        ensures
            self.is_done() ==> next == self,
            !self.is_done() ==> (next.items(), next.page(), next.is_done()) == directory_step(
                self.items(),
                self.page(),
                chunk@,
            ),
    {
        proof {
            use_type_invariant(&self);
        }
        if self.done {
            return self;
        }
        let DirectoryPager { items, page, done } = self;
        let short = chunk.len() < DIRECTORY_PAGE_SIZE;
        let mut items = items;
        let mut chunk = chunk;
        items.append(&mut chunk);
        if short || page >= DIRECTORY_MAX_PAGES {
            DirectoryPager { items, page, done: true }
        } else {
            DirectoryPager { items, page: page + 1, done: false }
        }
    }

    /// The items fetched.
    pub fn into_items(self) -> (items: Vec<T>)
        ensures
            items@ == self.items(),
    {
        self.items
    }
}

/// What is fetched of a directory after the given pages came in, one after
/// the other: pages that come after the fetch is over are ignored.
pub open spec fn directory_after<T>(chunks: Seq<Seq<T>>) -> (Seq<T>, u32, bool)
    decreases chunks.len(),
{
    if chunks.len() == 0 {
        (Seq::empty(), 1, false)
    } else {
        let before = directory_after(chunks.drop_last());
        if before.2 {
            before
        } else {
            directory_step(before.0, before.1, chunks.last())
        }
    }
}

/// What is fetched of a worklog after the given chunks came in, one after
/// the other: chunks that come after the fetch is over are ignored.
pub open spec fn worklog_after(chunks: Seq<Seq<WorklogEntry>>) -> (
    Seq<WorklogEntry>,
    Option<Seq<char>>,
    bool,
)
    decreases chunks.len(),
{
    if chunks.len() == 0 {
        (Seq::empty(), None, false)
    } else {
        let before = worklog_after(chunks.drop_last());
        if before.2 {
            before
        } else {
            worklog_step(before.0, chunks.last())
        }
    }
}

/// However many pages the server sends, a directory fetch never asks for a
/// page beyond the tenth; and where no page holds more than 200 items, it
/// never holds more than 2000 items.
pub proof fn lemma_directory_fetch_is_bounded<T>(chunks: Seq<Seq<T>>)
    requires
        forall|i: int| 0 <= i < chunks.len() ==> (#[trigger] chunks[i]).len() <= 200,
    ensures
        1 <= directory_after(chunks).1 <= 10,
        directory_after(chunks).0.len() <= 2000,
        !directory_after(chunks).2 ==> directory_after(chunks).0.len() <= 200 * (directory_after(
            chunks,
        ).1 - 1),
        directory_after(chunks).2 ==> directory_after(chunks).0.len() <= 200 * directory_after(
            chunks,
        ).1,
    decreases chunks.len(),
{
    if chunks.len() > 0 {
        let shorter = chunks.drop_last();
        assert forall|i: int| 0 <= i < shorter.len() implies (#[trigger] shorter[i]).len() <= 200 by {
            assert(shorter[i] == chunks[i]);
        }
        lemma_directory_fetch_is_bounded(shorter);
        let before = directory_after(shorter);
        if !before.2 {
            assert(chunks.last() == chunks[chunks.len() - 1]);
            lemma_directory_step_bound(before.0, before.1, chunks.last());
        }
    }
}

/// However many chunks the server sends and however long they are, a worklog
/// fetch never holds more than 500 entries.
pub proof fn lemma_worklog_fetch_is_bounded(chunks: Seq<Seq<WorklogEntry>>)
    ensures
        worklog_after(chunks).0.len() <= 500,
        !worklog_after(chunks).2 ==> worklog_after(chunks).0.len() < 500,
    decreases chunks.len(),
{
    if chunks.len() > 0 {
        lemma_worklog_fetch_is_bounded(chunks.drop_last());
        let before = worklog_after(chunks.drop_last());
        if !before.2 {
            lemma_worklog_step_bound(before.0, chunks.last());
        }
    }
}

/// A directory fetch whose pages never exceed the page size holds at most
/// 200 items for each page asked for so far, and so never more than 2000.
pub proof fn lemma_directory_step_bound<T>(before: Seq<T>, page: u32, chunk: Seq<T>)
    requires
        1 <= page <= 10,
        chunk.len() <= 200,
        before.len() <= 200 * (page - 1),
    ensures
        directory_step(before, page, chunk).0.len() <= 200 * page,
        directory_step(before, page, chunk).0.len() <= 2000,
        1 <= directory_step(before, page, chunk).1 <= 10,
        !directory_step(before, page, chunk).2 ==> directory_step(before, page, chunk).0.len()
            <= 200 * (directory_step(before, page, chunk).1 - 1),
{
}

/// A worklog fetch never holds more than 500 entries, and goes on only after
/// a full page that left it below 500.
pub proof fn lemma_worklog_step_bound(before: Seq<WorklogEntry>, chunk: Seq<WorklogEntry>)
    requires
        before.len() <= 500,
    ensures
        worklog_step(before, chunk).0.len() <= 500,
        !worklog_step(before, chunk).2 ==> chunk.len() >= 100 && worklog_step(before, chunk).0.len()
            < 500 && worklog_step(before, chunk).1 is Some,
{
}

} // verus!

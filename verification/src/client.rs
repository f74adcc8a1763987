//! The tracker client: which request each operation sends, and what a
//! response means.
//!
//! The client does not talk to the network itself. Each operation returns the
//! request to send as a `RequestPlan`; the caller paces it through the
//! client's `RateLimiter` once, sends it, and hands status and body back to
//! `ensure_success`.

use crate::config::{api_root_of, authorization_of, org_header_of, TrackerConfig};
use crate::error::{
    access_denied_of, ensure_success, error_code_of, is_denied_status, is_success_status,
    TrackerError,
};
use crate::json::{
    duplicate_members, json_of, members_of, nonblank, nonblank_text, JsonMember, JsonModel,
    JsonValue,
};
use crate::models::{
    BinaryContent, ChecklistDeadlineInput, ChecklistItemCreate, ChecklistItemUpdate,
};
use crate::rate_limiter::RateLimiter;
use crate::request::{
    add_bool, add_text, add_value, concat2, concat3, concat4, concat5, find_header, header_of,
    header_value_error, header_value_ok, object, opt_str, pairs_of, push_pair, url_join,
    url_join_of, url_parse, url_parse_of, with_bool, with_text, with_value, HttpMethod, PlanModel,
    RequestPlan,
};
use crate::text::{
    append_chars, chars_of, decimal_of, decimal_string, ends_with, ends_with_chars, opt_text,
    starts_with, starts_with_chars, string_of, strip_leading, without_leading,
};
use vstd::prelude::*;

verus! {

/// The fields requested of an issue.
pub const ISSUE_SUMMARY_FIELDS: &'static str =
    "key,summary,description,status,priority,spent,timeSpent";

/// Page size of a search where none is asked for.
pub const DEFAULT_PER_PAGE: u32 = 100;

/// Largest page size of a search.
pub const MAX_PER_PAGE: u32 = 500;

/// Largest page size of a scroll.
pub const MAX_PER_SCROLL: u32 = 1000;

/// What `new` reports where a header value cannot be encoded.
pub const INVALID_HEADER_MESSAGE: &'static str = "failed to parse header value";

/// The order in which a scroll walks the issues.
#[derive(Clone, Copy, Debug, PartialEq, Eq, Structural)]
pub enum ScrollType {
    Sorted,
    Unsorted,
}

/// The scroll type as it is written in the query.
pub open spec fn scroll_type_name_of(scroll_type: ScrollType) -> Seq<char> {
    match scroll_type {
        ScrollType::Sorted => "sorted"@,
        ScrollType::Unsorted => "unsorted"@,
    }
}

impl ScrollType {
    /// The scroll type as it is written in the query.
    pub fn as_str(&self) -> (name: &'static str)
        ensures
            name@ == scroll_type_name_of(*self),
    {
        match self {
            ScrollType::Sorted => "sorted",
            ScrollType::Unsorted => "unsorted",
        }
    }
}

/// What to search issues for: a free-text query, a structured filter, or
/// both.
#[derive(Debug)]
pub struct IssueSearchParams {
    pub query: Option<String>,
    pub filter: Option<Vec<JsonMember>>,
}

impl IssueSearchParams {
    /// Search parameters with the given parts.
    pub fn new(query: Option<String>, filter: Option<Vec<JsonMember>>) -> (params: Self)
        ensures
            params.query == query,
            params.filter == filter,
    {
        IssueSearchParams { query, filter }
    }
}

/// The body of a search request.
#[derive(Debug)]
pub struct IssueSearchRequest {
    pub query: Option<String>,
    pub filter: Option<Vec<JsonMember>>,
}

/// The members that an optional filter stands for.
pub open spec fn opt_members(filter: Option<Vec<JsonMember>>) -> Option<
    Seq<(Seq<char>, JsonModel)>,
> {
    match filter {
        Some(members) => Some(members_of(members@)),
        None => None,
    }
}

/// The query of a search body: the trimmed text, or nothing where the text is
/// absent or blank.
pub open spec fn search_query_of(query: Option<Seq<char>>) -> Option<Seq<char>> {
    match query {
        Some(text) => nonblank(text),
        None => None,
    }
}

/// The body of a search: `query` where one is left after trimming, `filter`
/// where one is given.
pub open spec fn search_body_of(
    query: Option<Seq<char>>,
    filter: Option<Seq<(Seq<char>, JsonModel)>>,
) -> JsonModel {
    JsonModel::Object(
        with_value(
            with_text(Seq::empty(), "query"@, search_query_of(query)),
            "filter"@,
            match filter {
                Some(members) => Some(JsonModel::Object(members)),
                None => None,
            },
        ),
    )
}

impl IssueSearchRequest {
    /// A search body for a free-text query: the trimmed query, or no query
    /// where the text is blank; never a filter.
    pub fn new(query: &str) -> (request: Self)
        ensures
            opt_text(request.query) == nonblank(query@),
            request.filter is None,
    {
        IssueSearchRequest { query: nonblank_text(query), filter: None }
    }

    /// The search body for the given parameters.
    pub fn from_params(params: &IssueSearchParams) -> (request: Self)
        ensures
            opt_text(request.query) == search_query_of(opt_text(params.query)),
            opt_members(request.filter) == opt_members(params.filter),
    {
        let query = match &params.query {
            Some(text) => nonblank_text(text.as_str()),
            None => None,
        };
        let filter = match &params.filter {
            Some(members) => Some(duplicate_members(members)),
            None => None,
        };
        IssueSearchRequest { query, filter }
    }

    /// The body as JSON. Absent parts are left out, not sent as `null`.
    pub fn to_json(&self) -> (body: JsonValue)
        ensures
            body@ == JsonModel::Object(
                with_value(
                    with_text(Seq::empty(), "query"@, opt_text(self.query)),
                    "filter"@,
                    match opt_members(self.filter) {
                        Some(members) => Some(JsonModel::Object(members)),
                        None => None,
                    },
                ),
            ),
    {
        let mut members = new_members();
        match &self.query {
            Some(text) => add_text(&mut members, "query", Some(text.as_str())),
            None => {},
        }
        match &self.filter {
            Some(filter) => add_value(&mut members, "filter", object(duplicate_members(filter))),
            None => {},
        }
        object(members)
    }
}

/// No query parameters.
pub open spec fn no_pairs() -> Seq<(Seq<char>, Seq<char>)> {
    Seq::empty()
}

/// No members.
pub open spec fn no_members() -> Seq<(Seq<char>, JsonModel)> {
    Seq::empty()
}

/// An empty list of pairs.
pub fn new_pairs() -> (pairs: Vec<(String, String)>)
    ensures
        pairs_of(pairs@) == no_pairs(),
{
    let pairs: Vec<(String, String)> = Vec::new();
    assert(pairs_of(pairs@) =~= no_pairs());
    pairs
}

/// An empty list of members.
pub fn new_members() -> (members: Vec<JsonMember>)
    ensures
        members_of(members@) == no_members(),
{
    let members: Vec<JsonMember> = Vec::new();
    assert(members_of(members@) =~= no_members());
    members
}

/// A page size: the default where none is given, and at least 1 and at most
/// `max`.
pub open spec fn page_size_of(requested: Option<u32>, max: u32) -> u32 {
    let wanted = match requested {
        Some(n) => n,
        None => 100u32,
    };
    if wanted < 1 {
        1
    } else if wanted > max {
        max
    } else {
        wanted
    }
}

/// A page size within its limits.
pub fn page_size(requested: Option<u32>, max: u32) -> (size: u32)
    ensures
        size == page_size_of(requested, max),
{
    let wanted: u32 = match requested {
        Some(n) => n,
        None => DEFAULT_PER_PAGE,
    };
    if wanted < 1 {
        1
    } else if wanted > max {
        max
    } else {
        wanted
    }
}

/// The headers sent with every request: `Authorization`, `Accept-Language`
/// where a language is configured, `User-Agent`, and the organization header
/// where an organization id is configured.
pub open spec fn default_headers_of(config: TrackerConfig) -> Seq<(Seq<char>, Seq<char>)> {
    let auth = no_pairs().push(
        ("Authorization"@, authorization_of(config.auth_method, config.token@)),
    );
    let lang = match config.accept_language {
        Some(language) => auth.push(("Accept-Language"@, language@)),
        None => auth,
    };
    let agent = lang.push(("User-Agent"@, config.user_agent@));
    match config.org_id {
        Some(id) => agent.push((org_header_of(config.org_type), id@)),
        None => agent,
    }
}

/// Whether every default header value of a configuration can be encoded.
pub open spec fn headers_ok(config: TrackerConfig) -> bool {
    &&& header_value_ok(authorization_of(config.auth_method, config.token@))
    &&& config.accept_language matches Some(language) ==> header_value_ok(language@)
    &&& header_value_ok(config.user_agent@)
    &&& config.org_id matches Some(id) ==> header_value_ok(id@)
}

/// The URL of a path below the API root: the root, then the path without its
/// leading slashes.
pub open spec fn url_for_of(config: TrackerConfig, path: Seq<char>) -> Seq<char> {
    api_root_of(config.base_url@, config.api_version@) + without_leading(path, '/')
}

/// What a reference resolves to: a reference that begins with `http://` or
/// `https://` is parsed as it is, any other is joined to the base URL, which
/// gets a trailing slash where it has none.
pub open spec fn absolute_url_of(base_url: Seq<char>, href: Seq<char>) -> Result<
    Seq<char>,
    Seq<char>,
> {
    if starts_with(href, "http://"@) || starts_with(href, "https://"@) {
        url_parse_of(href)
    } else if ends_with(base_url, "/"@) {
        url_join_of(base_url, href)
    } else {
        url_join_of(base_url + "/"@, href)
    }
}

/// The cursor parameters of a scroll request: the scroll id alone where one
/// is given, else the scroll type and the page size; then the lifetime where
/// one is given.
pub open spec fn scroll_query_of(
    scroll_id: Option<Seq<char>>,
    per_scroll: Option<u32>,
    scroll_type: ScrollType,
    ttl_millis: Option<u64>,
) -> Seq<(Seq<char>, Seq<char>)> {
    let cursor = match scroll_id {
        Some(id) => no_pairs().push(("scrollId"@, id)),
        None => no_pairs().push(("scrollType"@, scroll_type_name_of(scroll_type))).push(
            ("perScroll"@, decimal_of(page_size_of(per_scroll, 1000) as nat)),
        ),
    };
    match ttl_millis {
        Some(ttl) => cursor.push(("scrollTTLMillis"@, decimal_of(ttl as nat))),
        None => cursor,
    }
}

/// The body of a worklog search: `createdBy` where a creator is left after
/// trimming, and `createdAt` with the bounds that are left after trimming,
/// where at least one is.
pub open spec fn worklog_search_body_of(
    created_by: Option<Seq<char>>,
    created_from: Option<Seq<char>>,
    created_to: Option<Seq<char>>,
) -> JsonModel {
    let by = search_query_of(created_by);
    let from = search_query_of(created_from);
    let to = search_query_of(created_to);
    let head = with_text(no_members(), "createdBy"@, by);
    JsonModel::Object(
        if from is Some || to is Some {
            head.push(
                (
                    "createdAt"@,
                    JsonModel::Object(with_text(with_text(no_members(), "from"@, from), "to"@, to)),
                ),
            )
        } else {
            head
        },
    )
}

/// The deadline of a checklist item as it is sent.
pub open spec fn deadline_body_of(deadline: ChecklistDeadlineInput) -> JsonModel {
    JsonModel::Object(
        with_text(
            no_members().push(("date"@, JsonModel::Text(deadline.date@))),
            "deadlineType"@,
            opt_text(deadline.deadline_type),
        ),
    )
}

/// The deadline member of a checklist body.
pub open spec fn opt_deadline_of(deadline: Option<ChecklistDeadlineInput>) -> Option<JsonModel> {
    match deadline {
        Some(d) => Some(deadline_body_of(d)),
        None => None,
    }
}

/// The body that creates a checklist item.
pub open spec fn checklist_create_body_of(item: ChecklistItemCreate) -> JsonModel {
    JsonModel::Object(
        with_value(
            with_text(
                with_bool(
                    no_members().push(("text"@, JsonModel::Text(item.text@))),
                    "checked"@,
                    item.checked,
                ),
                "assignee"@,
                opt_text(item.assignee),
            ),
            "deadline"@,
            opt_deadline_of(item.deadline),
        ),
    )
}

/// The body that edits a checklist item.
pub open spec fn checklist_update_body_of(item: ChecklistItemUpdate) -> JsonModel {
    JsonModel::Object(
        with_value(
            with_text(
                with_bool(
                    with_text(no_members(), "text"@, opt_text(item.text)),
                    "checked"@,
                    item.checked,
                ),
                "assignee"@,
                opt_text(item.assignee),
            ),
            "deadline"@,
            opt_deadline_of(item.deadline),
        ),
    )
}

/// The deadline of a checklist item as JSON.
fn deadline_body(deadline: &ChecklistDeadlineInput) -> (body: JsonValue)
    ensures
        body@ == deadline_body_of(*deadline),
{
    let mut members = new_members();
    add_text(&mut members, "date", Some(deadline.date.as_str()));
    match &deadline.deadline_type {
        Some(kind) => add_text(&mut members, "deadlineType", Some(kind.as_str())),
        None => {},
    }
    object(members)
}

/// Appends the deadline member where a deadline is given.
fn add_deadline(members: &mut Vec<JsonMember>, deadline: &Option<ChecklistDeadlineInput>)
    ensures
        members_of(final(members)@) == with_value(
            members_of(old(members)@),
            "deadline"@,
            opt_deadline_of(*deadline),
        ),
{
    match deadline {
        Some(d) => add_value(members, "deadline", deadline_body(d)),
        None => {},
    }
}

/// Appends a string member where an owned value is given.
fn add_owned_text(members: &mut Vec<JsonMember>, key: &str, value: &Option<String>)
    ensures
        members_of(final(members)@) == with_text(members_of(old(members)@), key@, opt_text(*value)),
{
    match value {
        Some(text) => add_text(members, key, Some(text.as_str())),
        None => {},
    }
}

/// The client: its configuration, the headers it sends with every request,
/// and the limiter that paces its requests.
#[derive(Debug)]
pub struct TrackerClient {
    config: TrackerConfig,
    headers: Vec<(String, String)>,
    limiter: RateLimiter,
}

impl TrackerClient {
    #[verifier::type_invariant]
    spec fn well_formed(self) -> bool {
        &&& headers_ok(self.config)
        &&& pairs_of(self.headers@) == default_headers_of(self.config)
    }

    /// The configuration the client was made with.
    pub closed spec fn spec_config(&self) -> &TrackerConfig {
        &self.config
    }

    /// The limiter that paces the client's requests.
    pub closed spec fn spec_limiter(&self) -> &RateLimiter {
        &self.limiter
    }

    /// The request that goes to `path` below the API root.
    pub open spec fn plan_of(
        self,
        method: HttpMethod,
        path: Seq<char>,
        query: Seq<(Seq<char>, Seq<char>)>,
        body: Option<JsonModel>,
        decode: bool,
    ) -> PlanModel {
        PlanModel { method, url: url_for_of(*self.spec_config(), path), query, body, decode }
    }

    /// A client for the given configuration, with a limiter of its own that
    /// uses the configured cooldown. Fails with `Other` exactly when one of
    /// the default header values cannot be encoded.
    pub fn new(config: TrackerConfig) -> (made: Result<Self, TrackerError>)
        ensures
            made is Ok <==> headers_ok(config),
            made matches Ok(client) ==> *client.spec_config() == config
                && client.spec_limiter().spec_cooldown() == config.cooldown
                && client.spec_limiter().last_call() is None,
            made matches Err(error) ==> (error matches TrackerError::Other(m) && m@
                == INVALID_HEADER_MESSAGE@),
    {
        let limiter = RateLimiter::new(config.cooldown);
        Self::new_with_limiter(config, limiter)
    }

    /// A client for the given configuration that paces its requests through
    /// the given limiter. Fails with `Other` exactly when one of the default
    /// header values cannot be encoded.
    pub fn new_with_limiter(config: TrackerConfig, limiter: RateLimiter) -> (made: Result<
        Self,
        TrackerError,
    >)
        ensures
            made is Ok <==> headers_ok(config),
            made matches Ok(client) ==> *client.spec_config() == config && *client.spec_limiter()
                == limiter,
            made matches Err(error) ==> (error matches TrackerError::Other(m) && m@
                == INVALID_HEADER_MESSAGE@),
    {
        let mut headers = new_pairs();
        let auth = config.authorization();
        match header_value_error(auth.as_str()) {
            Some(message) => {
                return Err(TrackerError::Other(message));
            },
            None => {},
        }
        push_pair(&mut headers, "Authorization", auth.as_str());
        match &config.accept_language {
            Some(language) => {
                match header_value_error(language.as_str()) {
                    Some(message) => {
                        return Err(TrackerError::Other(message));
                    },
                    None => {},
                }
                push_pair(&mut headers, "Accept-Language", language.as_str());
            },
            None => {},
        }
        match header_value_error(config.user_agent.as_str()) {
            Some(message) => {
                return Err(TrackerError::Other(message));
            },
            None => {},
        }
        push_pair(&mut headers, "User-Agent", config.user_agent.as_str());
        match &config.org_id {
            Some(id) => {
                match header_value_error(id.as_str()) {
                    Some(message) => {
                        return Err(TrackerError::Other(message));
                    },
                    None => {},
                }
                push_pair(&mut headers, config.org_type.header_name(), id.as_str());
            },
            None => {},
        }
        Ok(TrackerClient { config, headers, limiter })
    }

    /// The configuration the client was made with.
    #[verifier::when_used_as_spec(spec_config)]
    pub fn config(&self) -> (config: &TrackerConfig)
        ensures
            config == self.spec_config(),
    {
        &self.config
    }

    /// The limiter that paces the client's requests.
    #[verifier::when_used_as_spec(spec_limiter)]
    pub fn rate_limiter(&self) -> (limiter: &RateLimiter)
        ensures
            limiter == self.spec_limiter(),
    {
        &self.limiter
    }

    /// The limiter, to ask for the wait and to record a dispatch. Nothing
    /// else of the client changes.
    pub fn record_dispatch(&mut self, at: u64)
        ensures
            final(self).spec_config() == old(self).spec_config(),
            final(self).spec_limiter().last_call() == Some(at),
            final(self).spec_limiter().spec_cooldown() == old(self).spec_limiter().spec_cooldown(),
    {
        proof {
            use_type_invariant(&*self);
        }
        let mut limiter = self.limiter;
        limiter.record_hit(at);
        self.limiter = limiter;
    }

    /// The headers sent with every request. Every value can be encoded.
    pub fn default_headers(&self) -> (headers: &Vec<(String, String)>)
        ensures
            pairs_of(headers@) == default_headers_of(*self.spec_config()),
            headers_ok(*self.spec_config()),
    {
        proof {
            use_type_invariant(self);
        }
        &self.headers
    }

    /// The URL of a path below the API root.
    pub fn url_for(&self, path: &str) -> (url: String)
        ensures
            url@ == url_for_of(*self.spec_config(), path@),
    {
        let root = self.config.api_root();
        let mut out = chars_of(root.as_str());
        let chars = chars_of(path);
        let tail = strip_leading(&chars, '/');
        append_chars(&mut out, &tail);
        string_of(&out)
    }

    /// The absolute URL of a reference to an attachment or another binary
    /// resource. A reference that cannot be resolved fails with `Other`.
    pub fn absolute_url(&self, href: &str) -> (url: Result<String, TrackerError>)
        ensures
            url is Ok <==> absolute_url_of(self.spec_config().base_url@, href@) is Ok,
            url matches Ok(text) ==> absolute_url_of(self.spec_config().base_url@, href@) == Ok::<
                Seq<char>,
                Seq<char>,
            >(text@),
            url matches Err(error) ==> (error matches TrackerError::Other(m) && absolute_url_of(
                self.spec_config().base_url@,
                href@,
            ) == Err::<Seq<char>, Seq<char>>(m@)),
    {
        let chars = chars_of(href);
        let http = chars_of("http://");
        let https = chars_of("https://");
        let resolved = if starts_with_chars(&chars, &http) || starts_with_chars(&chars, &https) {
            url_parse(href)
        } else {
            let base = chars_of(self.config.base_url.as_str());
            let slash = chars_of("/");
            if ends_with_chars(&base, &slash) {
                url_join(self.config.base_url.as_str(), href)
            } else {
                let with_slash = concat2(self.config.base_url.as_str(), "/");
                url_join(with_slash.as_str(), href)
            }
        };
        match resolved {
            Ok(text) => Ok(text),
            Err(message) => Err(TrackerError::Other(message)),
        }
    }

    /// The request that sends `body`, if any, to `path` and decodes the
    /// answer as JSON.
    pub fn send_with_body(&self, method: HttpMethod, path: &str, body: Option<JsonValue>) -> (plan:
        RequestPlan)
        ensures
            plan@ == self.plan_of(method, path@, no_pairs(), crate::json::opt_json(body), true),
    {
        RequestPlan { method, url: self.url_for(path), query: new_pairs(), body, decode: true }
    }

    /// The request that sends `body`, if any, to `path` and expects nothing
    /// back but success.
    pub fn send_expect_empty(&self, method: HttpMethod, path: &str, body: Option<JsonValue>) -> (plan:
        RequestPlan)
        ensures
            plan@ == self.plan_of(method, path@, no_pairs(), crate::json::opt_json(body), false),
    {
        RequestPlan { method, url: self.url_for(path), query: new_pairs(), body, decode: false }
    }

    /// The `GET` of `path`.
    pub fn get(&self, path: &str) -> (plan: RequestPlan)
        ensures
            plan@ == self.plan_of(HttpMethod::Get, path@, no_pairs(), None, true),
    {
        self.send_with_body(HttpMethod::Get, path, None)
    }

    /// The `GET` of `path` with the given query parameters.
    pub fn get_with_query(&self, path: &str, query: Vec<(String, String)>) -> (plan: RequestPlan)
        ensures
            plan@ == self.plan_of(HttpMethod::Get, path@, pairs_of(query@), None, true),
    {
        RequestPlan {
            method: HttpMethod::Get,
            url: self.url_for(path),
            query,
            body: None,
            decode: true,
        }
    }

    /// The `POST` of `body` to `path`.
    pub fn post(&self, path: &str, body: JsonValue) -> (plan: RequestPlan)
        ensures
            plan@ == self.plan_of(HttpMethod::Post, path@, no_pairs(), Some(body@), true),
    {
        self.send_with_body(HttpMethod::Post, path, Some(body))
    }

    /// The `PATCH` of `path` with `body`.
    pub fn patch(&self, path: &str, body: JsonValue) -> (plan: RequestPlan)
        ensures
            plan@ == self.plan_of(HttpMethod::Patch, path@, no_pairs(), Some(body@), true),
    {
        self.send_with_body(HttpMethod::Patch, path, Some(body))
    }

    /// The `DELETE` of `path`, which expects nothing back but success.
    pub fn delete(&self, path: &str) -> (plan: RequestPlan)
        ensures
            plan@ == self.plan_of(HttpMethod::Delete, path@, no_pairs(), None, false),
    {
        self.send_expect_empty(HttpMethod::Delete, path, None)
    }

    /// The request for the profile of the current user.
    pub fn get_myself(&self) -> (plan: RequestPlan)
        ensures
            plan@ == self.plan_of(HttpMethod::Get, "myself"@, no_pairs(), None, true),
    {
        self.get("myself")
    }

    /// The request for one issue, with the fixed field set.
    pub fn get_issue(&self, issue_key: &str) -> (plan: RequestPlan)
        ensures
            plan@ == self.plan_of(
                HttpMethod::Get,
                "issues/"@ + issue_key@,
                no_pairs().push(("fields"@, ISSUE_SUMMARY_FIELDS@)),
                None,
                true,
            ),
    {
        let path = concat2("issues/", issue_key);
        let mut query = new_pairs();
        push_pair(&mut query, "fields", ISSUE_SUMMARY_FIELDS);
        self.get_with_query(path.as_str(), query)
    }

    /// The search request: page 1 of the given size, the fixed field set,
    /// and the query and filter as body.
    pub fn search_issues(&self, params: &IssueSearchParams, per_page: Option<u32>) -> (plan:
        RequestPlan)
        ensures
            plan@ == self.plan_of(
                HttpMethod::Post,
                "issues/_search"@,
                no_pairs().push(("perPage"@, decimal_of(page_size_of(per_page, 500) as nat))).push(
                    ("page"@, "1"@),
                ).push(("fields"@, ISSUE_SUMMARY_FIELDS@)),
                Some(search_body_of(opt_text(params.query), opt_members(params.filter))),
                true,
            ),
    {
        let size = decimal_string(page_size(per_page, MAX_PER_PAGE) as u64);
        let mut query = new_pairs();
        push_pair(&mut query, "perPage", size.as_str());
        push_pair(&mut query, "page", "1");
        push_pair(&mut query, "fields", ISSUE_SUMMARY_FIELDS);
        let body = IssueSearchRequest::from_params(params).to_json();
        RequestPlan {
            method: HttpMethod::Post,
            url: self.url_for("issues/_search"),
            query,
            body: Some(body),
            decode: true,
        }
    }

    /// The scroll request. With a scroll id it continues that cursor and
    /// sends no other cursor parameter; without one it opens a cursor of the
    /// given type and page size.
    pub fn search_issues_scroll(
        &self,
        params: &IssueSearchParams,
        scroll_id: Option<&str>,
        per_scroll: Option<u32>,
        scroll_type: ScrollType,
        ttl_millis: Option<u64>,
    ) -> (plan: RequestPlan)
        ensures
            plan@ == self.plan_of(
                HttpMethod::Post,
                "issues/_search"@,
                scroll_query_of(opt_str(scroll_id), per_scroll, scroll_type, ttl_millis),
                Some(search_body_of(opt_text(params.query), opt_members(params.filter))),
                true,
            ),
    {
        let mut query = new_pairs();
        match scroll_id {
            Some(id) => {
                push_pair(&mut query, "scrollId", id);
            },
            None => {
                let size = decimal_string(page_size(per_scroll, MAX_PER_SCROLL) as u64);
                push_pair(&mut query, "scrollType", scroll_type.as_str());
                push_pair(&mut query, "perScroll", size.as_str());
            },
        }
        match ttl_millis {
            Some(ttl) => {
                let text = decimal_string(ttl);
                push_pair(&mut query, "scrollTTLMillis", text.as_str());
            },
            None => {},
        }
        let body = IssueSearchRequest::from_params(params).to_json();
        RequestPlan {
            method: HttpMethod::Post,
            url: self.url_for("issues/_search"),
            query,
            body: Some(body),
            decode: true,
        }
    }

    /// The request that releases a scroll cursor.
    pub fn clear_scroll_context(&self, scroll_id: &str) -> (plan: RequestPlan)
        ensures
            plan@ == self.plan_of(
                HttpMethod::Post,
                "system/search/scroll/_clear"@,
                no_pairs(),
                Some(
                    JsonModel::Object(
                        no_members().push(("scrollId"@, JsonModel::Text(scroll_id@))),
                    ),
                ),
                false,
            ),
    {
        let mut members = new_members();
        add_text(&mut members, "scrollId", Some(scroll_id));
        self.send_expect_empty(HttpMethod::Post, "system/search/scroll/_clear", Some(object(members)))
    }

    /// The request for the comments of an issue.
    pub fn get_issue_comments(&self, issue_key: &str) -> (plan: RequestPlan)
        ensures
            plan@ == self.plan_of(
                HttpMethod::Get,
                "issues/"@ + issue_key@ + "/comments"@,
                no_pairs(),
                None,
                true,
            ),
    {
        let path = concat3("issues/", issue_key, "/comments");
        self.get(path.as_str())
    }

    /// The request for the attachments of an issue.
    pub fn get_issue_attachments(&self, issue_key: &str) -> (plan: RequestPlan)
        ensures
            plan@ == self.plan_of(
                HttpMethod::Get,
                "issues/"@ + issue_key@ + "/attachments"@,
                no_pairs(),
                None,
                true,
            ),
    {
        let path = concat3("issues/", issue_key, "/attachments");
        self.get(path.as_str())
    }

    /// The request for all statuses.
    pub fn get_statuses(&self) -> (plan: RequestPlan)
        ensures
            plan@ == self.plan_of(HttpMethod::Get, "statuses"@, no_pairs(), None, true),
    {
        self.get("statuses")
    }

    /// The request for all resolutions.
    pub fn get_resolutions(&self) -> (plan: RequestPlan)
        ensures
            plan@ == self.plan_of(HttpMethod::Get, "resolutions"@, no_pairs(), None, true),
    {
        self.get("resolutions")
    }

    /// The request for the transitions an issue can take.
    pub fn get_transitions(&self, issue_key: &str) -> (plan: RequestPlan)
        ensures
            plan@ == self.plan_of(
                HttpMethod::Get,
                "issues/"@ + issue_key@ + "/transitions"@,
                no_pairs(),
                None,
                true,
            ),
    {
        let path = concat3("issues/", issue_key, "/transitions");
        self.get(path.as_str())
    }

    /// The request that adds a comment to an issue.
    pub fn add_comment(&self, issue_key: &str, text: &str) -> (plan: RequestPlan)
        ensures
            plan@ == self.plan_of(
                HttpMethod::Post,
                "issues/"@ + issue_key@ + "/comments"@,
                no_pairs(),
                Some(JsonModel::Object(no_members().push(("text"@, JsonModel::Text(text@))))),
                false,
            ),
    {
        let path = concat3("issues/", issue_key, "/comments");
        let mut members = new_members();
        add_text(&mut members, "text", Some(text));
        self.send_expect_empty(HttpMethod::Post, path.as_str(), Some(object(members)))
    }

    /// The request that changes summary and description of an issue. A field
    /// that is not given is left out of the body.
    pub fn update_issue_fields(
        &self,
        issue_key: &str,
        summary: Option<&str>,
        description: Option<&str>,
    ) -> (plan: RequestPlan)
        ensures
            plan@ == self.plan_of(
                HttpMethod::Patch,
                "issues/"@ + issue_key@,
                no_pairs(),
                Some(
                    JsonModel::Object(
                        with_text(
                            with_text(no_members(), "summary"@, opt_str(summary)),
                            "description"@,
                            opt_str(description),
                        ),
                    ),
                ),
                false,
            ),
    {
        let path = concat2("issues/", issue_key);
        let mut members = new_members();
        add_text(&mut members, "summary", summary);
        add_text(&mut members, "description", description);
        self.send_expect_empty(HttpMethod::Patch, path.as_str(), Some(object(members)))
    }

    /// The request that executes a transition. A comment or resolution that
    /// is not given is left out of the body.
    pub fn execute_transition(
        &self,
        issue_key: &str,
        transition_id: &str,
        comment: Option<&str>,
        resolution: Option<&str>,
    ) -> (plan: RequestPlan)
        ensures
            plan@ == self.plan_of(
                HttpMethod::Post,
                "issues/"@ + issue_key@ + "/transitions/"@ + transition_id@ + "/_execute"@,
                no_pairs(),
                Some(
                    JsonModel::Object(
                        with_text(
                            with_text(no_members(), "comment"@, opt_str(comment)),
                            "resolution"@,
                            opt_str(resolution),
                        ),
                    ),
                ),
                false,
            ),
    {
        let path = concat5("issues/", issue_key, "/transitions/", transition_id, "/_execute");
        let mut members = new_members();
        add_text(&mut members, "comment", comment);
        add_text(&mut members, "resolution", resolution);
        self.send_expect_empty(HttpMethod::Post, path.as_str(), Some(object(members)))
    }

    /// The request that logs work on an issue.
    pub fn log_work_entry(
        &self,
        issue_key: &str,
        start: &str,
        duration: &str,
        comment: Option<&str>,
    ) -> (plan: RequestPlan)
        ensures
            plan@ == self.plan_of(
                HttpMethod::Post,
                "issues/"@ + issue_key@ + "/worklog"@,
                no_pairs(),
                Some(
                    JsonModel::Object(
                        with_text(
                            no_members().push(("start"@, JsonModel::Text(start@))).push(
                                ("duration"@, JsonModel::Text(duration@)),
                            ),
                            "comment"@,
                            opt_str(comment),
                        ),
                    ),
                ),
                false,
            ),
    {
        let path = concat3("issues/", issue_key, "/worklog");
        let mut members = new_members();
        add_text(&mut members, "start", Some(start));
        add_text(&mut members, "duration", Some(duration));
        add_text(&mut members, "comment", comment);
        self.send_expect_empty(HttpMethod::Post, path.as_str(), Some(object(members)))
    }

    /// The request for one chunk of an issue's worklog, with the query that
    /// the pager asks for.
    pub fn get_issue_worklogs(&self, issue_key: &str, query: Vec<(String, String)>) -> (plan:
        RequestPlan)
        ensures
            plan@ == self.plan_of(
                HttpMethod::Get,
                "issues/"@ + issue_key@ + "/worklog"@,
                pairs_of(query@),
                None,
                true,
            ),
    {
        let path = concat3("issues/", issue_key, "/worklog");
        self.get_with_query(path.as_str(), query)
    }

    /// The request that searches worklog entries by creator and by a range of
    /// creation times.
    pub fn get_worklogs_by_params(
        &self,
        created_by: Option<&str>,
        created_from: Option<&str>,
        created_to: Option<&str>,
    ) -> (plan: RequestPlan)
        ensures
            plan@ == self.plan_of(
                HttpMethod::Post,
                "worklog/_search"@,
                no_pairs(),
                Some(
                    worklog_search_body_of(
                        opt_str(created_by),
                        opt_str(created_from),
                        opt_str(created_to),
                    ),
                ),
                true,
            ),
    {
        let by = trimmed_option(created_by);
        let from = trimmed_option(created_from);
        let to = trimmed_option(created_to);
        let mut members = new_members();
        add_owned_text(&mut members, "createdBy", &by);
        if from.is_some() || to.is_some() {
            let mut range = new_members();
            add_owned_text(&mut range, "from", &from);
            add_owned_text(&mut range, "to", &to);
            add_value(&mut members, "createdAt", object(range));
        }
        self.post("worklog/_search", object(members))
    }

    /// The request for the checklist of an issue.
    pub fn get_checklist(&self, issue_key: &str) -> (plan: RequestPlan)
        ensures
            plan@ == self.plan_of(
                HttpMethod::Get,
                "issues/"@ + issue_key@ + "/checklistItems"@,
                no_pairs(),
                None,
                true,
            ),
    {
        let path = concat3("issues/", issue_key, "/checklistItems");
        self.get(path.as_str())
    }

    /// The request that adds an item to the checklist of an issue.
    pub fn add_checklist_item(&self, issue_key: &str, item: &ChecklistItemCreate) -> (plan:
        RequestPlan)
        ensures
            plan@ == self.plan_of(
                HttpMethod::Post,
                "issues/"@ + issue_key@ + "/checklistItems"@,
                no_pairs(),
                Some(checklist_create_body_of(*item)),
                true,
            ),
    {
        let path = concat3("issues/", issue_key, "/checklistItems");
        let mut members = new_members();
        add_text(&mut members, "text", Some(item.text.as_str()));
        add_bool(&mut members, "checked", item.checked);
        add_owned_text(&mut members, "assignee", &item.assignee);
        add_deadline(&mut members, &item.deadline);
        self.post(path.as_str(), object(members))
    }

    /// The request that edits one item of the checklist of an issue.
    pub fn edit_checklist_item(
        &self,
        issue_key: &str,
        item_id: &str,
        item: &ChecklistItemUpdate,
    ) -> (plan: RequestPlan)
        ensures
            plan@ == self.plan_of(
                HttpMethod::Patch,
                "issues/"@ + issue_key@ + "/checklistItems/"@ + item_id@,
                no_pairs(),
                Some(checklist_update_body_of(*item)),
                true,
            ),
    {
        let path = concat4("issues/", issue_key, "/checklistItems/", item_id);
        let mut members = new_members();
        add_owned_text(&mut members, "text", &item.text);
        add_bool(&mut members, "checked", item.checked);
        add_owned_text(&mut members, "assignee", &item.assignee);
        add_deadline(&mut members, &item.deadline);
        self.patch(path.as_str(), object(members))
    }

    /// The request that removes the whole checklist of an issue.
    pub fn delete_checklist(&self, issue_key: &str) -> (plan: RequestPlan)
        ensures
            plan@ == self.plan_of(
                HttpMethod::Delete,
                "issues/"@ + issue_key@ + "/checklistItems"@,
                no_pairs(),
                None,
                false,
            ),
    {
        let path = concat3("issues/", issue_key, "/checklistItems");
        self.delete(path.as_str())
    }

    /// The request that removes one item of the checklist of an issue.
    pub fn delete_checklist_item(&self, issue_key: &str, item_id: &str) -> (plan: RequestPlan)
        ensures
            plan@ == self.plan_of(
                HttpMethod::Delete,
                "issues/"@ + issue_key@ + "/checklistItems/"@ + item_id@,
                no_pairs(),
                None,
                false,
            ),
    {
        let path = concat4("issues/", issue_key, "/checklistItems/", item_id);
        self.delete(path.as_str())
    }

    /// The request that downloads a binary resource: a plain `GET` of the
    /// resolved reference. A reference that cannot be resolved fails with
    /// `Other`.
    pub fn fetch_binary(&self, href: &str) -> (plan: Result<RequestPlan, TrackerError>)
        ensures
            plan is Ok <==> absolute_url_of(self.spec_config().base_url@, href@) is Ok,
            plan matches Ok(p) ==> absolute_url_of(self.spec_config().base_url@, href@) == Ok::<
                Seq<char>,
                Seq<char>,
            >(p@.url) && p@ == (PlanModel {
                method: HttpMethod::Get,
                url: p@.url,
                query: no_pairs(),
                body: None,
                decode: false,
            }),
            plan matches Err(error) ==> (error matches TrackerError::Other(m) && absolute_url_of(
                self.spec_config().base_url@,
                href@,
            ) == Err::<Seq<char>, Seq<char>>(m@)),
    {
        match self.absolute_url(href) {
            Ok(url) => Ok(
                RequestPlan {
                    method: HttpMethod::Get,
                    url,
                    query: new_pairs(),
                    body: None,
                    decode: false,
                },
            ),
            Err(error) => Err(error),
        }
    }

    /// The request for one page of the queue directory.
    pub fn list_all_queues(&self, query: Vec<(String, String)>) -> (plan: RequestPlan)
        ensures
            plan@ == self.plan_of(HttpMethod::Get, "queues"@, pairs_of(query@), None, true),
    {
        self.get_with_query("queues", query)
    }

    /// The request for one page of the project directory.
    pub fn list_all_projects(&self, query: Vec<(String, String)>) -> (plan: RequestPlan)
        ensures
            plan@ == self.plan_of(HttpMethod::Get, "projects"@, pairs_of(query@), None, true),
    {
        self.get_with_query("projects", query)
    }

    /// The request for one page of the user directory.
    pub fn list_all_users(&self, query: Vec<(String, String)>) -> (plan: RequestPlan)
        ensures
            plan@ == self.plan_of(HttpMethod::Get, "users"@, pairs_of(query@), None, true),
    {
        self.get_with_query("users", query)
    }

    /// What the status of a response means for an operation that decodes the
    /// body: 2xx succeeds, and the body is then decoded; 401 and 403 are
    /// `Authentication`; every other status is `Http`.
    pub fn parse_json(status: u16, body: &str) -> (outcome: Result<(), TrackerError>)
        ensures
            outcome is Ok <==> is_success_status(status),
            is_denied_status(status) ==> outcome is Err
                && outcome->Err_0.is_authentication_with(access_denied_of(status, body@)),
            !is_success_status(status) && !is_denied_status(status) ==> outcome is Err
                && outcome->Err_0.is_http_with(status, error_code_of(json_of(body@)), body@),
    {
        ensure_success(status, body)
    }

    /// What the status of a response means for an operation that expects
    /// nothing back but success.
    pub fn ensure_success(status: u16, body: &str) -> (outcome: Result<(), TrackerError>)
        ensures
            outcome is Ok <==> is_success_status(status),
            is_denied_status(status) ==> outcome is Err
                && outcome->Err_0.is_authentication_with(access_denied_of(status, body@)),
            !is_success_status(status) && !is_denied_status(status) ==> outcome is Err
                && outcome->Err_0.is_http_with(status, error_code_of(json_of(body@)), body@),
    {
        ensure_success(status, body)
    }

    /// What a downloaded response means: with a 2xx status the bytes
    /// together with the `Content-Type` header where there is one, else the
    /// failure that the status and the body as text stand for.
    pub fn binary_content(
        status: u16,
        headers: &Vec<(String, String)>,
        bytes: Vec<u8>,
        body_text: &str,
    ) -> (outcome: Result<BinaryContent, TrackerError>)
        ensures
            outcome is Ok <==> is_success_status(status),
            outcome matches Ok(content) ==> content.bytes == bytes && opt_text(content.mime_type)
                == header_of(pairs_of(headers@), "content-type"@),
            is_denied_status(status) ==> outcome is Err
                && outcome->Err_0.is_authentication_with(access_denied_of(status, body_text@)),
            !is_success_status(status) && !is_denied_status(status) ==> outcome is Err
                && outcome->Err_0.is_http_with(
                status,
                error_code_of(json_of(body_text@)),
                body_text@,
            ),
    {
        match ensure_success(status, body_text) {
            Ok(()) => {
                let mime_type = match find_header(headers, "content-type") {
                    Some(value) => Some(value.clone()),
                    None => None,
                };
                Ok(BinaryContent { bytes, mime_type })
            },
            Err(error) => Err(error),
        }
    }
}

/// The trimmed text of an optional value, or nothing where the value is
/// absent or blank.
pub fn trimmed_option(value: Option<&str>) -> (kept: Option<String>)
    ensures
        opt_text(kept) == search_query_of(opt_str(value)),
{
    match value {
        Some(text) => nonblank_text(text),
        None => None,
    }
}

} // verus!

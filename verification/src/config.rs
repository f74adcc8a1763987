//! Connection parameters of the tracker client.

use crate::text::{
    append_chars, chars_of, clone_text_option, string_of, strip_leading, strip_trailing,
    without_leading, without_trailing,
};
use vstd::prelude::*;

verus! {

/// Host of the production API.
pub const DEFAULT_API_BASE: &'static str = "https://api.tracker.yandex.net";

/// API version requested by default.
pub const DEFAULT_API_VERSION: &'static str = "v3";

/// User agent sent by default.
pub const DEFAULT_USER_AGENT: &'static str = "ytracker-tauri";

/// Default pause between two requests, in milliseconds.
pub const DEFAULT_COOLDOWN_MS: u64 = 500;

/// Default limit on a whole request, in seconds.
pub const DEFAULT_TIMEOUT_SECS: u64 = 30;

/// Default limit on establishing a connection, in seconds.
pub const DEFAULT_CONNECT_TIMEOUT_SECS: u64 = 10;

/// A span of time in whole milliseconds.
pub type Millis = u64;

/// Which kind of organization an organization id belongs to.
#[derive(Clone, Copy, Debug, PartialEq, Eq, Structural)]
pub enum OrgType {
    Yandex360,
    Cloud,
}

/// Name of the header that carries the organization id.
pub open spec fn org_header_of(org_type: OrgType) -> Seq<char> {
    match org_type {
        OrgType::Yandex360 => "X-Org-ID"@,
        OrgType::Cloud => "X-Cloud-Org-ID"@,
    }
}

impl OrgType {
    /// Name of the header that carries the organization id.
    pub fn header_name(&self) -> (name: &'static str)
        ensures
            name@ == org_header_of(*self),
    {
        match self {
            OrgType::Yandex360 => "X-Org-ID",
            OrgType::Cloud => "X-Cloud-Org-ID",
        }
    }
}

/// The scheme named in the `Authorization` header.
#[derive(Clone, Copy, Debug, PartialEq, Eq, Structural)]
pub enum AuthMethod {
    OAuth,
    Bearer,
}

/// The scheme as it is written in the header.
pub open spec fn auth_scheme_of(method: AuthMethod) -> Seq<char> {
    match method {
        AuthMethod::OAuth => "OAuth"@,
        AuthMethod::Bearer => "Bearer"@,
    }
}

impl AuthMethod {
    /// The scheme as it is written in the header.
    pub fn as_str(&self) -> (scheme: &'static str)
        ensures
            scheme@ == auth_scheme_of(*self),
    {
        match self {
            AuthMethod::OAuth => "OAuth",
            AuthMethod::Bearer => "Bearer",
        }
    }
}

/// Everything the client needs to know to reach the tracker.
#[derive(Debug)]
pub struct TrackerConfig {
    pub base_url: String,
    pub api_version: String,
    pub token: String,
    pub org_id: Option<String>,
    pub org_type: OrgType,
    pub accept_language: Option<String>,
    pub user_agent: String,
    pub cooldown: Millis,
    pub timeout: Millis,
    pub connect_timeout: Millis,
    pub auth_method: AuthMethod,
}

/// The root of the versioned API: the base without trailing slashes, one
/// slash, the version without leading slashes, one slash.
pub open spec fn api_root_of(base_url: Seq<char>, api_version: Seq<char>) -> Seq<char> {
    without_trailing(base_url, '/') + seq!['/'] + without_leading(api_version, '/') + seq!['/']
}

/// The value of the `Authorization` header: scheme, one space, token.
pub open spec fn authorization_of(method: AuthMethod, token: Seq<char>) -> Seq<char> {
    auth_scheme_of(method) + seq![' '] + token
}

impl TrackerConfig {
    /// Whether everything but the token and the organization holds its
    /// default.
    pub open spec fn has_defaults(&self) -> bool {
        &&& self.base_url@ == DEFAULT_API_BASE@
        &&& self.api_version@ == DEFAULT_API_VERSION@
        &&& self.accept_language is None
        &&& self.user_agent@ == DEFAULT_USER_AGENT@
        &&& self.cooldown == 500
        &&& self.timeout == 30_000
        &&& self.connect_timeout == 10_000
        &&& self.auth_method == AuthMethod::OAuth
    }

    /// Whether the configuration holds exactly the defaults for the given
    /// token and organization type.
    pub open spec fn is_default_for(&self, token: Seq<char>, org_type: OrgType) -> bool {
        &&& self.has_defaults()
        &&& self.token@ == token
        &&& self.org_id is None
        &&& self.org_type == org_type
    }

    /// A configuration with the defaults: production host, version `v3`,
    /// 30 s total timeout, 10 s connect timeout, 500 ms cooldown, OAuth.
    pub fn new(token: &str, org_type: OrgType) -> (config: Self)
        ensures
            config.is_default_for(token@, org_type),
    {
        TrackerConfig {
            base_url: DEFAULT_API_BASE.to_owned(),
            api_version: DEFAULT_API_VERSION.to_owned(),
            token: token.to_owned(),
            org_id: None,
            org_type,
            accept_language: None,
            user_agent: DEFAULT_USER_AGENT.to_owned(),
            cooldown: DEFAULT_COOLDOWN_MS,
            timeout: DEFAULT_TIMEOUT_SECS * 1000,
            connect_timeout: DEFAULT_CONNECT_TIMEOUT_SECS * 1000,
            auth_method: AuthMethod::OAuth,
        }
    }

    /// The same configuration with the organization id set.
    pub fn with_org_id(self, org_id: &str) -> (config: Self)
        ensures
            config == (TrackerConfig { org_id: config.org_id, ..self }),
            config.org_id matches Some(id) && id@ == org_id@,
    {
        let mut config = self;
        config.org_id = Some(org_id.to_owned());
        config
    }

    /// The same configuration with another base URL.
    pub fn with_base_url(self, base_url: &str) -> (config: Self)
        ensures
            config == (TrackerConfig { base_url: config.base_url, ..self }),
            config.base_url@ == base_url@,
    {
        let mut config = self;
        config.base_url = base_url.to_owned();
        config
    }

    /// The same configuration with another API version.
    pub fn with_api_version(self, version: &str) -> (config: Self)
        ensures
            config == (TrackerConfig { api_version: config.api_version, ..self }),
            config.api_version@ == version@,
    {
        let mut config = self;
        config.api_version = version.to_owned();
        config
    }

    /// The same configuration with the `Accept-Language` value set.
    pub fn with_accept_language(self, language: &str) -> (config: Self)
        ensures
            config == (TrackerConfig { accept_language: config.accept_language, ..self }),
            config.accept_language matches Some(l) && l@ == language@,
    {
        let mut config = self;
        config.accept_language = Some(language.to_owned());
        config
    }

    /// The same configuration with another user agent.
    pub fn with_user_agent(self, ua: &str) -> (config: Self)
        ensures
            config == (TrackerConfig { user_agent: config.user_agent, ..self }),
            config.user_agent@ == ua@,
    {
        let mut config = self;
        config.user_agent = ua.to_owned();
        config
    }

    /// The same configuration with another pause between requests.
    pub fn with_cooldown(self, duration: Millis) -> (config: Self)
        ensures
            config == (TrackerConfig { cooldown: duration, ..self }),
    {
        let mut config = self;
        config.cooldown = duration;
        config
    }

    /// The same configuration with another limit on a whole request.
    pub fn with_timeout(self, duration: Millis) -> (config: Self)
        ensures
            config == (TrackerConfig { timeout: duration, ..self }),
    {
        let mut config = self;
        config.timeout = duration;
        config
    }

    /// The same configuration with another limit on connecting.
    pub fn with_connect_timeout(self, duration: Millis) -> (config: Self)
        ensures
            config == (TrackerConfig { connect_timeout: duration, ..self }),
    {
        let mut config = self;
        config.connect_timeout = duration;
        config
    }

    /// The same configuration with another authorization scheme.
    pub fn with_auth_method(self, method: AuthMethod) -> (config: Self)
        ensures
            config == (TrackerConfig { auth_method: method, ..self }),
    {
        let mut config = self;
        config.auth_method = method;
        config
    }

    /// The root URL of the versioned API.
    pub fn api_root(&self) -> (root: String)
        ensures
            root@ == api_root_of(self.base_url@, self.api_version@),
    {
        let base = chars_of(self.base_url.as_str());
        let version = chars_of(self.api_version.as_str());
        let mut out = strip_trailing(&base, '/');
        out.push('/');
        let tail = strip_leading(&version, '/');
        append_chars(&mut out, &tail);
        out.push('/');
        proof {
            assert(out@ =~= api_root_of(self.base_url@, self.api_version@));
        }
        string_of(&out)
    }

    /// The value of the `Authorization` header.
    pub fn authorization(&self) -> (value: String)
        ensures
            value@ == authorization_of(self.auth_method, self.token@),
    {
        let mut out = chars_of(self.auth_method.as_str());
        out.push(' ');
        let token = chars_of(self.token.as_str());
        append_chars(&mut out, &token);
        proof {
            assert(out@ =~= authorization_of(self.auth_method, self.token@));
        }
        string_of(&out)
    }

    /// A copy of the configuration.
    pub fn duplicate(&self) -> (copy: Self)
        ensures
            copy == *self,
    {
        TrackerConfig {
            base_url: self.base_url.clone(),
            api_version: self.api_version.clone(),
            token: self.token.clone(),
            org_id: clone_text_option(&self.org_id),
            org_type: self.org_type,
            accept_language: clone_text_option(&self.accept_language),
            user_agent: self.user_agent.clone(),
            cooldown: self.cooldown,
            timeout: self.timeout,
            connect_timeout: self.connect_timeout,
            auth_method: self.auth_method,
        }
    }
}

/// Stripping trailing occurrences leaves a text that does not end in the
/// stripped character.
pub proof fn lemma_without_trailing_end(s: Seq<char>, c: char)
    ensures
        without_trailing(s, c).len() <= s.len(),
        without_trailing(s, c).len() > 0 ==> without_trailing(s, c).last() != c,
    decreases s.len(),
{
    if s.len() > 0 && s.last() == c {
        lemma_without_trailing_end(s.drop_last(), c);
    }
}

/// Stripping leading occurrences leaves a text that does not begin with the
/// stripped character, and keeps the end of a text that is not used up.
pub proof fn lemma_without_leading_start(s: Seq<char>, c: char)
    ensures
        without_leading(s, c).len() <= s.len(),
        without_leading(s, c).len() > 0 ==> without_leading(s, c)[0] != c,
        without_leading(s, c).len() > 0 ==> without_leading(s, c).last() == s.last(),
    decreases s.len(),
{
    if s.len() > 0 && s[0] == c {
        lemma_without_leading_start(s.drop_first(), c);
    }
}

/// The API root has exactly one slash at the seam between base and version,
/// and ends in exactly one slash, whether or not the base ends in slashes and
/// the version begins with them. This holds of every base and of every
/// version that, after its leading slashes, is not empty and does not end in
/// a slash.
pub proof fn lemma_api_root_single_slashes(base_url: Seq<char>, api_version: Seq<char>)
    requires
        without_leading(api_version, '/').len() > 0,
        api_version.last() != '/',
    ensures
        ({
            let root = api_root_of(base_url, api_version);
            let seam = without_trailing(base_url, '/').len() as int;
            let n = root.len() as int;
            &&& n >= seam + 3
            &&& root[seam] == '/'
            &&& seam > 0 ==> root[seam - 1] != '/'
            &&& root[seam + 1] != '/'
            &&& root[n - 1] == '/'
            &&& root[n - 2] != '/'
        }),
{
    lemma_without_trailing_end(base_url, '/');
    lemma_without_leading_start(api_version, '/');
    let head = without_trailing(base_url, '/');
    let tail = without_leading(api_version, '/');
    let root = api_root_of(base_url, api_version);
    assert(root.len() == head.len() + 1 + tail.len() + 1);
    assert(root[head.len() as int] == '/');
    if head.len() > 0 {
        assert(root[head.len() - 1] == head.last());
    }
    assert(root[head.len() as int + 1] == tail[0]);
    assert(root[root.len() - 2] == tail.last());
}

} // verus!

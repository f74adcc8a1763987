//! The stored session and the client credentials: what is kept, and the rules
//! that decide whether and how it is kept. Reading and writing the secure
//! store is left to the caller.

use crate::config::{OrgType, TrackerConfig};
use crate::json::{nonblank, nonblank_text};
use crate::text::{clone_text_option, lowercase_of, opt_text, str_eq, trim_str, trimmed};
use vstd::prelude::*;

verus! {

/// Account name of the session in the secure store.
pub const KEYRING_ACCOUNT: &'static str = "session";

/// Service name used where the application has no identifier.
pub const KEYRING_FALLBACK_SERVICE: &'static str = "ru.sovego.ytracker-tauri";

/// The credentials of the OAuth application.
#[derive(Debug)]
pub struct ClientCredentials {
    pub client_id: String,
    pub client_secret: String,
}

/// What may be told of the credentials.
#[derive(Debug)]
pub struct ClientCredentialsInfo {
    pub client_id: Option<String>,
    pub has_client_secret: bool,
}

/// A stored session.
#[derive(Debug)]
pub struct SessionToken {
    pub token: String,
    pub org_id: Option<String>,
    pub org_type: String,
}

/// The name of an organization type as it is stored: `cloud` where the
/// trimmed text is `cloud` in any case of letters, `yandex360` else.
pub open spec fn org_type_name_of(value: Seq<char>) -> Seq<char> {
    if lowercase_of(trimmed(value)) == "cloud"@ {
        "cloud"@
    } else {
        "yandex360"@
    }
}

/// The organization type that a name stands for.
pub open spec fn org_type_of(value: Seq<char>) -> OrgType {
    if lowercase_of(trimmed(value)) == "cloud"@ {
        OrgType::Cloud
    } else {
        OrgType::Yandex360
    }
}

/// Tells whether a trimmed name in lower case is that of the cloud
/// organization type.
pub fn lowered_is_cloud(lowered: &str) -> (cloud: bool)
    ensures
        cloud == (lowered@ == "cloud"@),
{
    str_eq(lowered, "cloud")
}

/// Tells whether a name stands for the cloud organization type.
fn names_cloud(value: &str) -> (cloud: bool)
    ensures
        cloud == (lowercase_of(trimmed(value@)) == "cloud"@),
{
    let text = trim_str(value);
    let lowered = text.as_str().to_lowercase();
    lowered_is_cloud(lowered.as_str())
}

/// The name of an organization type as it is stored.
pub fn canonical_org_type(value: &str) -> (name: String)
    ensures
        name@ == org_type_name_of(value@),
{
    if names_cloud(value) {
        "cloud".to_owned()
    } else {
        "yandex360".to_owned()
    }
}

/// The name of an organization type as it is stored.
pub fn normalize_org_type(value: &str) -> (name: String)
    ensures
        name@ == org_type_name_of(value@),
{
    canonical_org_type(value)
}

/// The organization type that a name stands for.
pub fn parse_org_type(value: &str) -> (org_type: OrgType)
    ensures
        org_type == org_type_of(value@),
{
    if names_cloud(value) {
        OrgType::Cloud
    } else {
        OrgType::Yandex360
    }
}

/// The service name under which the session is stored: the identifier of the
/// application, or the fallback where that is blank.
pub fn keyring_service(identifier: &str) -> (service: String)
    ensures
        service@ == if crate::text::is_blank(identifier@) {
            KEYRING_FALLBACK_SERVICE@
        } else {
            identifier@
        },
{
    if crate::text::str_is_blank(identifier) {
        KEYRING_FALLBACK_SERVICE.to_owned()
    } else {
        identifier.to_owned()
    }
}

/// The session to store for a token: the token trimmed, the organization id
/// trimmed or left out where it is blank, and the organization type by its
/// stored name. A blank token is refused.
pub fn prepare_session(token: &str, org_id: Option<&str>, org_type: &str) -> (session: Result<
    SessionToken,
    String,
>)
    ensures
        session is Ok <==> !crate::text::is_blank(token@),
        session matches Ok(s) ==> s.token@ == trimmed(token@) && opt_text(s.org_id) == match org_id {
            Some(id) => nonblank(id@),
            None => None,
        } && s.org_type@ == org_type_name_of(org_type@),
        session matches Err(m) ==> m@ == "Access token must not be empty"@,
{
    let kept = match nonblank_text(token) {
        Some(text) => text,
        None => {
            return Err("Access token must not be empty".to_owned());
        },
    };
    let org_id = match org_id {
        Some(id) => nonblank_text(id),
        None => None,
    };
    Ok(SessionToken { token: kept, org_id, org_type: normalize_org_type(org_type) })
}

/// The credentials, where both the id and the secret are there.
pub fn credentials_of(client_id: &Option<String>, client_secret: &Option<String>) -> (credentials:
    Option<ClientCredentials>)
    ensures
        credentials is Some <==> client_id is Some && client_secret is Some,
        credentials matches Some(c) ==> Some(c.client_id) == *client_id && Some(c.client_secret)
            == *client_secret,
{
    match (client_id, client_secret) {
        (Some(id), Some(secret)) => Some(
            ClientCredentials { client_id: id.clone(), client_secret: secret.clone() },
        ),
        _ => None,
    }
}

/// What may be told of the credentials: the id, and whether there is a
/// secret.
pub fn public_info_of(client_id: &Option<String>, client_secret: &Option<String>) -> (info:
    ClientCredentialsInfo)
    ensures
        info.client_id == *client_id,
        info.has_client_secret == (client_secret is Some),
{
    ClientCredentialsInfo {
        client_id: clone_text_option(client_id),
        has_client_secret: client_secret.is_some(),
    }
}

/// The client configuration for a session: the defaults for its token and
/// organization type, with its organization id where it has one.
pub fn config_for_session(session: &SessionToken) -> (config: TrackerConfig)
    ensures
        config.token@ == session.token@,
        config.org_type == org_type_of(session.org_type@),
        opt_text(config.org_id) == opt_text(session.org_id),
        config.has_defaults(),
{
    let org_type = parse_org_type(session.org_type.as_str());
    let config = TrackerConfig::new(session.token.as_str(), org_type);
    match &session.org_id {
        Some(id) => config.with_org_id(id.as_str()),
        None => config,
    }
}

/// The login of the current user: the login of the profile, else its email,
/// each trimmed and counted only where something is left.
pub fn current_login_of(login: Option<String>, email: Option<String>) -> (found: Result<
    String,
    String,
>)
    ensures
        match found {
            Ok(text) => Some(text@) == crate::bridge::or_text(
                crate::bridge::opt_nonblank(opt_text(login)),
                crate::bridge::opt_nonblank(opt_text(email)),
            ),
            Err(m) => m@ == "Unable to determine current user login"@ && crate::bridge::opt_nonblank(
                opt_text(login),
            ) is None && crate::bridge::opt_nonblank(opt_text(email)) is None,
        },
{
    match crate::bridge::normalize_owned_string(login) {
        Some(text) => Ok(text),
        None => match crate::bridge::normalize_owned_string(email) {
            Some(text) => Ok(text),
            None => Err("Unable to determine current user login".to_owned()),
        },
    }
}

} // verus!

//! The exchange of an authorization code for a token: what is sent, and what
//! a refusal means.

use crate::client::{new_pairs, no_pairs};
use crate::error::{exchange_failure, is_success_status, TrackerError};
use crate::request::{pairs_of, push_pair};
use vstd::prelude::*;

verus! {

/// The address of the token endpoint.
pub const TOKEN_URL: &'static str = "https://oauth.yandex.ru/token";

/// The form that asks for a token.
pub open spec fn exchange_form_of(
    code: Seq<char>,
    client_id: Seq<char>,
    client_secret: Seq<char>,
) -> Seq<(Seq<char>, Seq<char>)> {
    no_pairs().push(("grant_type"@, "authorization_code"@)).push(("code"@, code)).push(
        ("client_id"@, client_id),
    ).push(("client_secret"@, client_secret))
}

/// The form that is posted to the token endpoint.
pub fn exchange_form(code: &str, client_id: &str, client_secret: &str) -> (form: Vec<
    (String, String),
>)
    ensures
        pairs_of(form@) == exchange_form_of(code@, client_id@, client_secret@),
{
    let mut form = new_pairs();
    push_pair(&mut form, "grant_type", "authorization_code");
    push_pair(&mut form, "code", code);
    push_pair(&mut form, "client_id", client_id);
    push_pair(&mut form, "client_secret", client_secret);
    form
}

/// What the answer of the token endpoint means: a 2xx answer carries a
/// token, which the caller decodes; every other answer is an `Http` failure
/// with the body as message and no code.
pub fn exchange_outcome(status: u16, body: &str) -> (outcome: Result<(), TrackerError>)
    ensures
        outcome is Ok <==> is_success_status(status),
        outcome matches Err(error) ==> error.is_http_with(status, None, body@),
{
    if crate::error::is_success(status) {
        Ok(())
    } else {
        Err(exchange_failure(status, body))
    }
}

} // verus!

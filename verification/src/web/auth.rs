//! The check of a request's credentials against a project's policy.

use vstd::prelude::*;
use actix_web::http::header::{HeaderValue, ToStrError};
use actix_web::HttpRequest;
use crate::domain::auth::{Auth, TokenCredentials};
use crate::domain::project::Project;
use crate::text::{opt_text, strip_prefix, without_prefix};
use crate::web::server::{find, RequestCtx};

verus! {

#[verifier::external_type_specification]
#[verifier::external_body]
pub struct ExHttpRequest(HttpRequest);

#[verifier::external_type_specification]
#[verifier::external_body]
pub struct ExHeaderValue(HeaderValue);

#[verifier::external_type_specification]
#[verifier::external_body]
pub struct ExToStrError(ToStrError);

/// The bytes that a header value holds.
pub uninterp spec fn value_bytes(value: HeaderValue) -> Seq<u8>;

/// The bytes of the value that a request holds for the header `name`:
/// those of the first value where it holds several, none where it holds
/// no such header.
pub uninterp spec fn header_of(req: HttpRequest, name: Seq<char>) -> Option<Seq<u8>>;

/// `HttpRequest::headers`, then `HeaderMap::get` on the header map: the
/// first value that the request holds for the header `name`, if it holds
/// one. The value is handed on as it is.
#[verifier::external_body]
fn request_header<'a>(req: &'a HttpRequest, name: &str) -> (value: Option<&'a HeaderValue>)
    ensures
        match value {
            Some(v) => header_of(*req, name@) == Some(value_bytes(*v)),
            None => header_of(*req, name@) is None,
        },
{
    req.headers().get(name)
}

/// `HeaderValue::is_empty`: whether the value holds no byte.
pub assume_specification[ HeaderValue::is_empty ](value: &HeaderValue) -> (empty: bool)
    ensures
        empty == (value_bytes(*value).len() == 0),
;

/// `HeaderValue::to_str`: the value as text, if each of its bytes is a
/// visible ASCII character; the text then holds one character for each
/// byte. Any other byte makes it an error.
pub assume_specification<'a>[ HeaderValue::to_str ](value: &'a HeaderValue) -> (text: Result<
    &'a str,
    ToStrError,
>)
    ensures
        match text {
            Ok(t) => visible_text(value_bytes(*value)) == Some(t@),
            Err(_) => visible_text(value_bytes(*value)) is None,
        },
;

/// A byte that may stand in the text of a header: a printable ASCII
/// character, a space or a tab.
pub open spec fn is_visible_ascii(b: u8) -> bool {
    32 <= b < 127 || b == 9
}

/// The text that bytes stand for, one character for each byte, if all of
/// them are visible ASCII.
pub open spec fn visible_text(bytes: Seq<u8>) -> Option<Seq<char>> {
    if forall|i: int| 0 <= i < bytes.len() ==> is_visible_ascii(#[trigger] bytes[i]) {
        Some(bytes.map_values(|b: u8| b as char))
    } else {
        None
    }
}

/// Why a request may not act on a project.
#[derive(Debug, Clone, Copy, PartialEq, Eq, Structural)]
pub enum AccessError {
    /// No project has the codename that the request names.
    ProjectNotFound,
    /// The project's policy rejects the token of the request.
    TokenInvalid,
}

impl AccessError {
    /// A short description for a log.
    pub fn message(&self) -> (text: &'static str)
        ensures
            text@ == match *self {
                AccessError::ProjectNotFound => "Project not found!"@,
                AccessError::TokenInvalid => "Token invalid"@,
            },
    {
        match self {
            AccessError::ProjectNotFound => "Project not found!",
            AccessError::TokenInvalid => "Token invalid",
        }
    }
}

/// What a policy decides of a bearer token, or of the lack of one.
pub open spec fn token_permitted(auth: &Auth, token: Option<Seq<char>>) -> bool {
    !auth.enabled || (token matches Some(value) && auth.has_token(value))
}

/// The bearer token in the text of an `Authorization` header: what
/// follows the prefix `Bearer `, if the text starts with it.
pub open spec fn bearer_token(text: Seq<char>) -> Option<Seq<char>> {
    without_prefix(text, "Bearer "@)
}

/// The bearer token in the bytes of an `Authorization` header. An empty
/// header and one with a byte that is no visible ASCII carry none.
pub open spec fn header_token(bytes: Seq<u8>) -> Option<Seq<char>> {
    if bytes.len() == 0 {
        None
    } else {
        match visible_text(bytes) {
            Some(text) => bearer_token(text),
            None => None,
        }
    }
}

/// The bearer token that a request carries.
pub open spec fn request_token(req: HttpRequest) -> Option<Seq<char>> {
    match header_of(req, "Authorization"@) {
        Some(bytes) => header_token(bytes),
        None => None,
    }
}

/// What a request with this bearer token may do with the project `name`
/// of `projects`.
pub open spec fn access(projects: Seq<Project>, token: Option<Seq<char>>, name: Seq<char>) -> Result<
    (),
    AccessError,
> {
    match find(projects, name) {
        Some(project) => if token_permitted(&project.auth, token) {
            Ok(())
        } else {
            Err(AccessError::TokenInvalid)
        },
        None => Err(AccessError::ProjectNotFound),
    }
}

/// The policy decides of a request's token what it decides of the token
/// credentials that hold it.
pub proof fn lemma_token_permitted_is_the_policy(auth: &Auth, cred: &TokenCredentials)
    ensures
        auth.permits(cred) == token_permitted(auth, cred@),
{
}

/// A request without a bearer token gets into a project exactly when the
/// project's policy is disabled.
pub proof fn lemma_no_token_needs_a_disabled_policy(auth: &Auth)
    ensures
        token_permitted(auth, None) == !auth.enabled,
{
}

/// Whether the policy `auth` lets a request with this token in.
pub fn is_token_valid(auth: &Auth, token: Option<String>) -> (ok: bool)
    ensures
        ok == token_permitted(auth, opt_text(token)),
{
    auth.is_valid(TokenCredentials::from_opt(token))
}

/// The bearer token in the text of an `Authorization` header.
pub fn parse_bearer(text: &str) -> (token: Option<String>)
    ensures
        opt_text(token) == bearer_token(text@),
{
    match strip_prefix(text, "Bearer ") {
        Some(rest) => Some(rest.to_owned()),
        None => None,
    }
}

/// The bearer token in the value of an `Authorization` header.
pub fn parse_header(value: &HeaderValue) -> (token: Option<String>)
    ensures
        opt_text(token) == header_token(value_bytes(*value)),
{
    if value.is_empty() {
        return None;
    }
    match value.to_str() {
        Ok(text) => parse_bearer(text),
        Err(_) => None,
    }
}

/// The bearer token that a request carries in its `Authorization`
/// header. A request without the header, with an empty one, with one that
/// is no text, or with one that does not start with `Bearer `, carries
/// no token; that is no error.
pub fn extract_token(req: &HttpRequest) -> (token: Option<String>)
    ensures
        opt_text(token) == request_token(*req),
{
    match request_header(req, "Authorization") {
        Some(value) => parse_header(value),
        None => None,
    }
}

/// Checks that a request with the bearer token `token` may act on the
/// project with the codename `name`.
pub fn check_project_auth(ctx: &RequestCtx, token: Option<String>, name: &str) -> (result: Result<
    (),
    AccessError,
>)
    ensures
        result == access(ctx.registry(), opt_text(token), name@),
{
    match ctx.get_project(name) {
        Some(proj) => if is_token_valid(&proj.auth, token) {
            Ok(())
        } else {
            Err(AccessError::TokenInvalid)
        },
        None => Err(AccessError::ProjectNotFound),
    }
}

/// Checks that the request `req` may act on the project with the
/// codename `name`.
pub fn require_project_auth(ctx: &RequestCtx, req: &HttpRequest, name: &str) -> (result: Result<
    (),
    AccessError,
>)
    ensures
        result == access(ctx.registry(), request_token(*req), name@),
{
    let token = extract_token(req);
    check_project_auth(ctx, token, name)
}

} // verus!

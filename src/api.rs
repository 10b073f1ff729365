use vstd::prelude::*;
use crate::fields::opt_text_view;
use crate::ids::{query_path_text, slash_path_text, AbsoluteInventoryPath, RecordId, UserId};
use crate::json::Json;

verus! {

/// The HTTP method of a request.
#[derive(Clone, Copy, Debug, PartialEq, Eq, Structural)]
pub enum Method {
    Get,
    Post,
    Put,
    Delete,
}

/// A request to the remote API, described as plain values for a transport to
/// send.
#[derive(Debug, PartialEq)]
pub struct ApiRequest {
    pub method: Method,
    pub url: String,
    /// The value of the `Authorization` header, when the session has one.
    pub authorization: Option<String>,
    /// The value of the `TOTP` header, sent with a password login.
    pub totp: Option<String>,
    /// The JSON body.
    pub body: Option<Json>,
}

/// `r` is a request with `method` to `url` and the given authorization, with
/// no one-time password and no body.
pub open spec fn is_plain_request(
    r: ApiRequest,
    method: Method,
    url: Seq<char>,
    authorization: Option<Seq<char>>,
) -> bool {
    &&& r.method == method
    &&& r.url@ == url
    &&& opt_text_view(r.authorization) == authorization
    &&& r.totp is None
    &&& r.body is None
}

pub open spec fn api_base() -> Seq<char> {
    "https://api.neos.com/api"@
}

/// The address of one record of a user.
pub open spec fn record_url(owner: Seq<char>, id: Seq<char>) -> Seq<char> {
    api_base() + "/users/"@ + owner + "/records/"@ + id
}

/// The address of the listing of a directory, its path in query form.
pub open spec fn listing_url(owner: Seq<char>, segments: Seq<Seq<char>>) -> Seq<char> {
    api_base() + "/users/"@ + owner + "/records?path="@ + query_path_text(segments)
}

/// The address of a directory's own attributes, its path `/`-separated.
pub open spec fn metadata_url(owner: Seq<char>, segments: Seq<Seq<char>>) -> Seq<char> {
    api_base() + "/users/"@ + owner + "/records/root/"@ + slash_path_text(segments)
}

/// The address at which sessions are created.
pub open spec fn login_url() -> Seq<char> {
    api_base() + "/userSessions"@
}

/// The address of one session.
pub open spec fn session_url(owner: Seq<char>, token: Seq<char>) -> Seq<char> {
    api_base() + "/userSessions/"@ + owner + "/"@ + token
}

fn user_url(owner: &UserId, tail: &str) -> (r: String)
    ensures
        r@ == api_base() + "/users/"@ + owner@ + tail@,
{
    let mut u = String::from_str("https://api.neos.com/api");
    u.append("/users/");
    u.append(owner.as_str());
    u.append(tail);
    u
}

pub fn record_endpoint(owner: &UserId, id: &RecordId) -> (r: String)
    ensures
        r@ == record_url(owner@, id@),
{
    let mut u = user_url(owner, "/records/");
    u.append(id.as_str());
    u
}

pub fn listing_endpoint(owner: &UserId, path: &AbsoluteInventoryPath) -> (r: String)
    ensures
        r@ == listing_url(owner@, path@),
{
    let mut u = user_url(owner, "/records?path=");
    let q = path.to_uri_query_value();
    u.append(q.as_str());
    u
}

pub fn metadata_endpoint(owner: &UserId, path: &AbsoluteInventoryPath) -> (r: String)
    ensures
        r@ == metadata_url(owner@, path@),
{
    let mut u = user_url(owner, "/records/root/");
    let p = path.to_absolute_path();
    u.append(p.as_str());
    u
}

pub fn login_endpoint() -> (r: String)
    ensures
        r@ == login_url(),
{
    let mut u = String::from_str("https://api.neos.com/api");
    u.append("/userSessions");
    u
}

pub fn session_endpoint(owner: &UserId, token: &str) -> (r: String)
    ensures
        r@ == session_url(owner@, token@),
{
    let mut u = String::from_str("https://api.neos.com/api");
    u.append("/userSessions/");
    u.append(owner.as_str());
    u.append("/");
    u.append(token);
    u
}

} // verus!

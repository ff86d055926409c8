//! One request per remote operation: its method, URL, bearer header and body.

use vstd::prelude::*;
use vstd::utf8::encode_utf8;
use crate::json::{json_object1, json_object2, object1, object2};

verus! {

/// The host and version prefix that every endpoint path is relative to.
pub const BASE_URL: &'static str = "https://api.timeular.com/api/v3";

/// The full URL of an endpoint path.
pub fn url(path: &str) -> (r: String)
    ensures
        r@ == endpoint(path@),
{
    String::from_str(BASE_URL).concat(path)
}

/// The value of the `Authorization` header for a session token.
pub fn auth(token: &str) -> (r: String)
    ensures
        r@ == bearer(token@),
{
    String::from_str("Bearer ").concat(token)
}

pub open spec fn endpoint(path: Seq<char>) -> Seq<char> {
    BASE_URL@ + path
}

pub open spec fn bearer(token: Seq<char>) -> Seq<char> {
    "Bearer "@ + token
}

#[derive(Clone, Copy, Debug, PartialEq, Eq, Structural)]
pub enum Method {
    Get,
    Post,
}

/// The remote operations, one endpoint each.
#[derive(Clone, Copy, Debug, PartialEq, Eq, Structural)]
pub enum Operation {
    SignIn,
    FetchAccount,
    FetchWorkspaces,
    FetchActivities,
    StartTracking,
    StopTracking,
    FetchReport,
}

/// A request, ready for the transport to send.
#[derive(Clone, Debug, PartialEq, Eq)]
pub struct HttpRequest {
    pub operation: Operation,
    pub method: Method,
    pub url: String,
    /// The `Authorization` header, if the request carries one.
    pub authorization: Option<String>,
    /// A JSON body, if the request carries one.
    pub body: Option<Vec<u8>>,
}

pub struct RequestView {
    pub operation: Operation,
    pub method: Method,
    pub url: Seq<char>,
    pub authorization: Option<Seq<char>>,
    pub body: Option<Seq<u8>>,
}

impl View for HttpRequest {
    type V = RequestView;

    open spec fn view(&self) -> RequestView {
        RequestView {
            operation: self.operation,
            method: self.method,
            url: self.url@,
            authorization: match self.authorization {
                Some(a) => Some(a@),
                None => None,
            },
            body: match self.body {
                Some(b) => Some(b@),
                None => None,
            },
        }
    }
}

/// The body of a sign-in request.
pub struct SignInRequest {
    pub api_key: String,
    pub api_secret: String,
}

/// The body of a request that starts tracking.
pub struct TrackingRequest {
    pub started_at: String,
}

/// The body of a request that stops tracking.
pub struct StopTrackingRequest {
    pub stopped_at: String,
}

pub open spec fn sign_in_body(key: Seq<char>, secret: Seq<char>) -> Seq<u8> {
    object2(encode_utf8("apiKey"@), encode_utf8(key), encode_utf8("apiSecret"@), encode_utf8(secret))
}

pub open spec fn start_body(started_at: Seq<char>) -> Seq<u8> {
    object1(encode_utf8("startedAt"@), encode_utf8(started_at))
}

pub open spec fn stop_body(stopped_at: Seq<char>) -> Seq<u8> {
    object1(encode_utf8("stoppedAt"@), encode_utf8(stopped_at))
}

impl SignInRequest {
    /// `{"apiKey":...,"apiSecret":...}`
    pub fn to_json(&self) -> (r: Vec<u8>)
        ensures
            r@ == sign_in_body(self.api_key@, self.api_secret@),
    {
        json_object2("apiKey", self.api_key.as_str(), "apiSecret", self.api_secret.as_str())
    }
}

impl TrackingRequest {
    /// `{"startedAt":...}`
    pub fn to_json(&self) -> (r: Vec<u8>)
        ensures
            r@ == start_body(self.started_at@),
    {
        json_object1("startedAt", self.started_at.as_str())
    }
}

impl StopTrackingRequest {
    /// `{"stoppedAt":...}`
    pub fn to_json(&self) -> (r: Vec<u8>)
        ensures
            r@ == stop_body(self.stopped_at@),
    {
        json_object1("stoppedAt", self.stopped_at.as_str())
    }
}

pub open spec fn sign_in_view(key: Seq<char>, secret: Seq<char>) -> RequestView {
    RequestView {
        operation: Operation::SignIn,
        method: Method::Post,
        url: endpoint("/developer/sign-in"@),
        authorization: None,
        body: Some(sign_in_body(key, secret)),
    }
}

/// A bodiless GET request that carries the bearer header.
pub open spec fn authorized_get(op: Operation, path: Seq<char>, token: Seq<char>) -> RequestView {
    RequestView {
        operation: op,
        method: Method::Get,
        url: endpoint(path),
        authorization: Some(bearer(token)),
        body: None,
    }
}

pub open spec fn account_view(token: Seq<char>) -> RequestView {
    authorized_get(Operation::FetchAccount, "/me"@, token)
}

pub open spec fn workspaces_view(token: Seq<char>) -> RequestView {
    authorized_get(Operation::FetchWorkspaces, "/space"@, token)
}

pub open spec fn activities_view(token: Seq<char>) -> RequestView {
    authorized_get(Operation::FetchActivities, "/activities"@, token)
}

pub open spec fn report_path(from: Seq<char>, to: Seq<char>, timezone: Seq<char>) -> Seq<char> {
    "/report/"@ + from + "/"@ + to + "?timezone="@ + timezone
}

pub open spec fn report_view(
    token: Seq<char>,
    from: Seq<char>,
    to: Seq<char>,
    timezone: Seq<char>,
) -> RequestView {
    authorized_get(Operation::FetchReport, report_path(from, to, timezone), token)
}

pub open spec fn start_view(activity_id: Seq<char>, token: Seq<char>, started_at: Seq<char>) -> RequestView {
    RequestView {
        operation: Operation::StartTracking,
        method: Method::Post,
        url: endpoint("/tracking/"@ + activity_id + "/start"@),
        authorization: Some(bearer(token)),
        body: Some(start_body(started_at)),
    }
}

pub open spec fn stop_view(token: Seq<char>, stopped_at: Seq<char>) -> RequestView {
    RequestView {
        operation: Operation::StopTracking,
        method: Method::Post,
        url: endpoint("/tracking/stop"@),
        authorization: Some(bearer(token)),
        body: Some(stop_body(stopped_at)),
    }
}

/// Exchanges an API key and secret for a session token.
pub fn sign_in_request(key: &str, secret: &str) -> (r: HttpRequest)
    ensures
        r@ == sign_in_view(key@, secret@),
{
    let payload = SignInRequest { api_key: key.to_owned(), api_secret: secret.to_owned() };
    HttpRequest {
        operation: Operation::SignIn,
        method: Method::Post,
        url: url("/developer/sign-in"),
        authorization: None,
        body: Some(payload.to_json()),
    }
}

fn authorized_get_request(op: Operation, path: &str, token: &str) -> (r: HttpRequest)
    ensures
        r@ == authorized_get(op, path@, token@),
{
    HttpRequest {
        operation: op,
        method: Method::Get,
        url: url(path),
        authorization: Some(auth(token)),
        body: None,
    }
}

/// Fetches the signed-in account.
pub fn account_request(token: &str) -> (r: HttpRequest)
    ensures
        r@ == account_view(token@),
{
    authorized_get_request(Operation::FetchAccount, "/me", token)
}

/// Fetches the workspaces of the signed-in account.
pub fn workspaces_request(token: &str) -> (r: HttpRequest)
    ensures
        r@ == workspaces_view(token@),
{
    authorized_get_request(Operation::FetchWorkspaces, "/space", token)
}

/// Fetches the active, inactive and archived activities.
pub fn activities_request(token: &str) -> (r: HttpRequest)
    ensures
        r@ == activities_view(token@),
{
    authorized_get_request(Operation::FetchActivities, "/activities", token)
}

/// Starts tracking time on an activity at the given timestamp.
pub fn start_tracking_request(activity_id: &str, token: &str, started_at: &str) -> (r: HttpRequest)
    ensures
        r@ == start_view(activity_id@, token@, started_at@),
{
    let path = String::from_str("/tracking/").concat(activity_id).concat("/start");
    let payload = TrackingRequest { started_at: started_at.to_owned() };
    HttpRequest {
        operation: Operation::StartTracking,
        method: Method::Post,
        url: url(path.as_str()),
        authorization: Some(auth(token)),
        body: Some(payload.to_json()),
    }
}

/// Stops the running tracking session at the given timestamp.
pub fn stop_tracking_request(token: &str, stopped_at: &str) -> (r: HttpRequest)
    ensures
        r@ == stop_view(token@, stopped_at@),
{
    let payload = StopTrackingRequest { stopped_at: stopped_at.to_owned() };
    HttpRequest {
        operation: Operation::StopTracking,
        method: Method::Post,
        url: url("/tracking/stop"),
        authorization: Some(auth(token)),
        body: Some(payload.to_json()),
    }
}

/// Fetches the report of the inclusive range `from ..= to`, in a time zone.
pub fn report_request(token: &str, from: &str, to: &str, timezone: &str) -> (r: HttpRequest)
    ensures
        r@ == report_view(token@, from@, to@, timezone@),
{
    let path = String::from_str("/report/").concat(from).concat("/").concat(to).concat(
        "?timezone=",
    ).concat(timezone);
    authorized_get_request(Operation::FetchReport, path.as_str(), token)
}

} // verus!

//! What the transport hands back, and the errors a reply can turn into.

use vstd::prelude::*;
use crate::api::Operation;
use crate::model::{Account, ActivityLists, Credentials, Setting, TimeEntry, TrackingSession, Workspace};

verus! {

/// A response body, decoded by the transport into the shape it was expected
/// to have for the operation, or `Malformed` where it had another shape.
#[derive(Clone, Debug, PartialEq, Eq)]
pub enum Payload {
    /// The body is not JSON, or misses a field, or has one of another type.
    Malformed,
    /// A sign-in body: a JSON object whose `token` member may be absent.
    Token(Option<String>),
    Account(Account),
    Workspaces(Vec<Workspace>),
    Activities(ActivityLists),
    Tracking(TrackingSession),
    TimeEntry(TimeEntry),
    /// The raw bytes of a report.
    Report(Vec<u8>),
}

/// What came back from one request.
#[derive(Clone, Debug, PartialEq, Eq)]
pub enum Reply {
    /// No response: the connection failed or timed out.
    Unreachable,
    Received { status: u16, payload: Payload },
}

#[derive(Clone, Copy, Debug, PartialEq, Eq, Structural)]
pub enum ClientError {
    /// A credential setting is missing.
    Config(Setting),
    /// Sign-in was rejected with this status, or gave no token (`None`).
    Auth(Option<u16>),
    /// No response (`None`), or a status outside 2xx.
    Transport(Option<u16>),
    /// A 2xx response whose body has not the expected shape.
    Decode,
}

pub open spec fn is_success(status: u16) -> bool {
    200 <= status <= 299
}

/// Whether a payload has the shape that an operation's reply should have.
pub open spec fn fits(op: Operation, p: Payload) -> bool {
    match p {
        Payload::Malformed => false,
        Payload::Token(_) => op == Operation::SignIn,
        Payload::Account(_) => op == Operation::FetchAccount,
        Payload::Workspaces(_) => op == Operation::FetchWorkspaces,
        Payload::Activities(_) => op == Operation::FetchActivities,
        Payload::Tracking(_) => op == Operation::StartTracking,
        Payload::TimeEntry(_) => op == Operation::StopTracking,
        Payload::Report(_) => op == Operation::FetchReport,
    }
}

/// A token that a session can go on with: present and not empty.
pub open spec fn usable_token(p: Payload) -> bool {
    match p {
        Payload::Token(Some(t)) => t@.len() > 0,
        _ => false,
    }
}

/// The meaning of a reply to an operation.
pub open spec fn reply_outcome(op: Operation, reply: Reply) -> Result<Payload, ClientError> {
    match reply {
        Reply::Unreachable => Err(ClientError::Transport(None)),
        Reply::Received { status, payload } => {
            if !is_success(status) {
                if op == Operation::SignIn {
                    Err(ClientError::Auth(Some(status)))
                } else {
                    Err(ClientError::Transport(Some(status)))
                }
            } else if !fits(op, payload) {
                Err(ClientError::Decode)
            } else if op == Operation::SignIn && !usable_token(payload) {
                Err(ClientError::Auth(None))
            } else {
                Ok(payload)
            }
        },
    }
}

pub fn is_success_status(status: u16) -> (r: bool)
    ensures
        r == is_success(status),
{
    200 <= status && status <= 299
}

fn fits_exec(op: Operation, p: &Payload) -> (r: bool)
    ensures
        r == fits(op, *p),
{
    match p {
        Payload::Malformed => false,
        Payload::Token(_) => op == Operation::SignIn,
        Payload::Account(_) => op == Operation::FetchAccount,
        Payload::Workspaces(_) => op == Operation::FetchWorkspaces,
        Payload::Activities(_) => op == Operation::FetchActivities,
        Payload::Tracking(_) => op == Operation::StartTracking,
        Payload::TimeEntry(_) => op == Operation::StopTracking,
        Payload::Report(_) => op == Operation::FetchReport,
    }
}

fn usable_token_exec(p: &Payload) -> (r: bool)
    ensures
        r == usable_token(*p),
{
    match p {
        Payload::Token(Some(t)) => !t.as_str().is_empty(),
        _ => false,
    }
}

/// Classifies a reply: the payload where it is a success of the expected
/// shape, else the error it stands for.
pub fn check_reply(op: Operation, reply: Reply) -> (r: Result<Payload, ClientError>)
    ensures
        r == reply_outcome(op, reply),
{
    match reply {
        Reply::Unreachable => Err(ClientError::Transport(None)),
        Reply::Received { status, payload } => {
            if !is_success_status(status) {
                if op == Operation::SignIn {
                    Err(ClientError::Auth(Some(status)))
                } else {
                    Err(ClientError::Transport(Some(status)))
                }
            } else if !fits_exec(op, &payload) {
                Err(ClientError::Decode)
            } else if op == Operation::SignIn && !usable_token_exec(&payload) {
                Err(ClientError::Auth(None))
            } else {
                Ok(payload)
            }
        },
    }
}

/// The token of a sign-in reply, exactly as the server supplied it.
pub open spec fn sign_in_result(reply: Reply) -> Result<String, ClientError> {
    match reply_outcome(Operation::SignIn, reply) {
        Ok(Payload::Token(Some(t))) => Ok(t),
        Ok(_) => Err(ClientError::Decode),
        Err(e) => Err(e),
    }
}

/// Reads the session token out of a reply to the sign-in request.
pub fn sign_in_outcome(reply: Reply) -> (r: Result<String, ClientError>)
    ensures
        r == sign_in_result(reply),
        r is Ok <==> (reply is Received && is_success(reply->status) && usable_token(reply->payload)),
{
    match check_reply(Operation::SignIn, reply) {
        Ok(Payload::Token(Some(t))) => Ok(t),
        Ok(_) => Err(ClientError::Decode),
        Err(e) => Err(e),
    }
}

/// Credentials from the two settings, or the first one that is missing.
pub fn credentials_from(key: Option<String>, secret: Option<String>) -> (r: Result<Credentials, ClientError>)
    ensures
        key is None ==> r == Err::<Credentials, ClientError>(ClientError::Config(Setting::ApiKey)),
        key is Some && secret is None ==> r == Err::<Credentials, ClientError>(ClientError::Config(Setting::ApiSecret)),
        key is Some && secret is Some ==> r == Ok::<Credentials, ClientError>(Credentials { key: key->0, secret: secret->0 }),
{
    match (key, secret) {
        (None, _) => Err(ClientError::Config(Setting::ApiKey)),
        (Some(_), None) => Err(ClientError::Config(Setting::ApiSecret)),
        (Some(k), Some(s)) => Ok(Credentials { key: k, secret: s }),
    }
}

} // verus!

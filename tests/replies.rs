use timetrack_client::api::Operation;
use timetrack_client::model::{Account, Credentials, Setting};
use timetrack_client::reply::{
    check_reply, credentials_from, is_success_status, sign_in_outcome, ClientError, Payload, Reply,
};

fn account() -> Account {
    Account {
        user_id: "u1".to_string(),
        name: "Ann".to_string(),
        email: "ann@example.com".to_string(),
        default_workspace_id: "w1".to_string(),
    }
}

fn received(status: u16, payload: Payload) -> Reply {
    Reply::Received { status, payload }
}

#[test]
fn success_statuses() {
    assert!(!is_success_status(199));
    assert!(is_success_status(200));
    assert!(is_success_status(204));
    assert!(is_success_status(299));
    assert!(!is_success_status(300));
    assert!(!is_success_status(404));
    assert!(!is_success_status(500));
}

#[test]
fn sign_in_returns_token_verbatim() {
    let r = sign_in_outcome(received(200, Payload::Token(Some("abc.DEF-123".to_string()))));
    assert_eq!(r, Ok("abc.DEF-123".to_string()));
}

#[test]
fn sign_in_missing_token_is_auth_error() {
    assert_eq!(sign_in_outcome(received(200, Payload::Token(None))), Err(ClientError::Auth(None)));
}

#[test]
fn sign_in_empty_token_is_auth_error() {
    let r = sign_in_outcome(received(200, Payload::Token(Some(String::new()))));
    assert_eq!(r, Err(ClientError::Auth(None)));
}

#[test]
fn sign_in_rejected_is_auth_error() {
    let r = sign_in_outcome(received(401, Payload::Token(Some("t".to_string()))));
    assert_eq!(r, Err(ClientError::Auth(Some(401))));
}

#[test]
fn sign_in_unreachable_is_transport_error() {
    assert_eq!(sign_in_outcome(Reply::Unreachable), Err(ClientError::Transport(None)));
}

#[test]
fn sign_in_malformed_is_decode_error() {
    assert_eq!(sign_in_outcome(received(200, Payload::Malformed)), Err(ClientError::Decode));
}

#[test]
fn non_success_status_is_transport_error() {
    for status in [100u16, 301, 400, 404, 500, 503] {
        let r = check_reply(Operation::FetchAccount, received(status, Payload::Account(account())));
        assert_eq!(r, Err(ClientError::Transport(Some(status))));
        let r = check_reply(Operation::FetchReport, received(status, Payload::Malformed));
        assert_eq!(r, Err(ClientError::Transport(Some(status))));
    }
}

#[test]
fn malformed_body_is_decode_error() {
    let r = check_reply(Operation::FetchWorkspaces, received(200, Payload::Malformed));
    assert_eq!(r, Err(ClientError::Decode));
    assert_ne!(r, Err(ClientError::Transport(Some(200))));
}

#[test]
fn payload_of_another_operation_is_decode_error() {
    let r = check_reply(Operation::FetchWorkspaces, received(200, Payload::Account(account())));
    assert_eq!(r, Err(ClientError::Decode));
}

#[test]
fn unreachable_is_transport_error() {
    assert_eq!(check_reply(Operation::StopTracking, Reply::Unreachable), Err(ClientError::Transport(None)));
}

#[test]
fn fitting_payload_passes() {
    let r = check_reply(Operation::FetchAccount, received(201, Payload::Account(account())));
    assert_eq!(r, Ok(Payload::Account(account())));
    let r = check_reply(Operation::FetchReport, received(200, Payload::Report(b"x".to_vec())));
    assert_eq!(r, Ok(Payload::Report(b"x".to_vec())));
}

#[test]
fn credentials_need_both_settings() {
    assert_eq!(credentials_from(None, Some("s".to_string())), Err(ClientError::Config(Setting::ApiKey)));
    assert_eq!(credentials_from(None, None), Err(ClientError::Config(Setting::ApiKey)));
    assert_eq!(
        credentials_from(Some("k".to_string()), None),
        Err(ClientError::Config(Setting::ApiSecret))
    );
    assert_eq!(
        credentials_from(Some("k".to_string()), Some("s".to_string())),
        Ok(Credentials { key: "k".to_string(), secret: "s".to_string() })
    );
}

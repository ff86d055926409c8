use timetrack_client::api::{
    account_request, activities_request, auth, report_request, sign_in_request,
    start_tracking_request, stop_tracking_request, url, workspaces_request, Method, Operation,
    SignInRequest, StopTrackingRequest, TrackingRequest,
};

#[test]
fn url_prefixes_base() {
    assert_eq!(url("/me"), "https://api.timeular.com/api/v3/me");
    assert_eq!(url(""), "https://api.timeular.com/api/v3");
}

#[test]
fn auth_is_bearer_header() {
    assert_eq!(auth("tok-123"), "Bearer tok-123");
    assert_eq!(auth(""), "Bearer ");
}

#[test]
fn tracking_request_serializes_camel_case() {
    let body = TrackingRequest { started_at: "2020-08-03T04:00:00.000".to_string() }.to_json();
    assert_eq!(body, br#"{"startedAt":"2020-08-03T04:00:00.000"}"#.to_vec());
}

#[test]
fn stop_tracking_request_serializes_camel_case() {
    let body = StopTrackingRequest { stopped_at: "2020-08-03T05:00:00.000".to_string() }.to_json();
    assert_eq!(body, br#"{"stoppedAt":"2020-08-03T05:00:00.000"}"#.to_vec());
}

#[test]
fn sign_in_request_serializes_camel_case() {
    let body = SignInRequest { api_key: "key".to_string(), api_secret: "secret".to_string() }.to_json();
    assert_eq!(body, br#"{"apiKey":"key","apiSecret":"secret"}"#.to_vec());
}

#[test]
fn json_strings_are_escaped() {
    let body = TrackingRequest { started_at: "a\"b\\c\nd\t\u{1}\u{1f}é/".to_string() }.to_json();
    let expected = "{\"startedAt\":\"a\\\"b\\\\c\\nd\\t\\u0001\\u001fé/\"}";
    assert_eq!(body, expected.as_bytes().to_vec());
}

#[test]
fn json_short_escapes() {
    let body = TrackingRequest { started_at: "\u{8}\u{c}\r".to_string() }.to_json();
    assert_eq!(body, br#"{"startedAt":"\b\f\r"}"#.to_vec());
}

#[test]
fn sign_in_request_has_no_authorization() {
    let r = sign_in_request("k", "s");
    assert_eq!(r.operation, Operation::SignIn);
    assert_eq!(r.method, Method::Post);
    assert_eq!(r.url, "https://api.timeular.com/api/v3/developer/sign-in");
    assert_eq!(r.authorization, None);
    assert_eq!(r.body, Some(br#"{"apiKey":"k","apiSecret":"s"}"#.to_vec()));
}

#[test]
fn get_requests_carry_bearer() {
    let cases = [
        (account_request("t"), Operation::FetchAccount, "/me"),
        (workspaces_request("t"), Operation::FetchWorkspaces, "/space"),
        (activities_request("t"), Operation::FetchActivities, "/activities"),
    ];
    for (r, op, path) in cases.iter() {
        assert_eq!(r.operation, *op);
        assert_eq!(r.method, Method::Get);
        assert_eq!(r.url, format!("https://api.timeular.com/api/v3{}", path));
        assert_eq!(r.authorization, Some("Bearer t".to_string()));
        assert_eq!(r.body, None);
    }
}

#[test]
fn start_tracking_request_names_activity() {
    let r = start_tracking_request("act-7", "t", "2020-08-03T04:00:00.000");
    assert_eq!(r.operation, Operation::StartTracking);
    assert_eq!(r.method, Method::Post);
    assert_eq!(r.url, "https://api.timeular.com/api/v3/tracking/act-7/start");
    assert_eq!(r.authorization, Some("Bearer t".to_string()));
    assert_eq!(r.body, Some(br#"{"startedAt":"2020-08-03T04:00:00.000"}"#.to_vec()));
}

#[test]
fn stop_tracking_request_has_fixed_path() {
    let r = stop_tracking_request("t", "2020-08-03T05:00:00.000");
    assert_eq!(r.operation, Operation::StopTracking);
    assert_eq!(r.method, Method::Post);
    assert_eq!(r.url, "https://api.timeular.com/api/v3/tracking/stop");
    assert_eq!(r.authorization, Some("Bearer t".to_string()));
    assert_eq!(r.body, Some(br#"{"stoppedAt":"2020-08-03T05:00:00.000"}"#.to_vec()));
}

#[test]
fn report_request_has_range_and_timezone() {
    let r = report_request("t", "2020-01-01T00:00:00.000", "2020-12-31T23:59:59.999", "Europe/Vienna");
    assert_eq!(r.operation, Operation::FetchReport);
    assert_eq!(r.method, Method::Get);
    assert_eq!(
        r.url,
        "https://api.timeular.com/api/v3/report/2020-01-01T00:00:00.000/2020-12-31T23:59:59.999?timezone=Europe/Vienna"
    );
    assert_eq!(r.authorization, Some("Bearer t".to_string()));
    assert_eq!(r.body, None);
}

use supabased::github::{
    check_org_membership, github_oauth_error_message, org_membership, parse_device_auth_poll,
    parse_device_auth_start, poll_device_auth, polled_device_auth, start_device_auth,
    started_device_auth, validate_token, validated_user, DeviceAuthError, DeviceAuthPoll,
    DeviceAuthPollSuccess, DeviceAuthStart, GitHubUser,
};
use supabased::http::{HttpBody, HttpReply};
use supabased::status::{Code, Status};

fn text(value: &serde_json::Value, name: &str) -> Option<String> {
    value.get(name).and_then(|v| v.as_str()).map(str::to_owned)
}

fn parse_device_auth_start_json(body: &str) -> Result<DeviceAuthStart, Status> {
    let value: serde_json::Value = serde_json::from_str(body).unwrap();
    parse_device_auth_start(Ok(DeviceAuthStart {
        device_code: text(&value, "device_code").unwrap(),
        user_code: text(&value, "user_code").unwrap(),
        verification_uri: text(&value, "verification_uri").unwrap(),
        expires_in: value["expires_in"].as_i64().unwrap(),
        interval: value["interval"].as_i64().unwrap(),
    }))
}

fn parse_device_auth_poll_json(body: &str) -> Result<DeviceAuthPoll, Status> {
    let value: serde_json::Value = serde_json::from_str(body).unwrap();
    let success = text(&value, "access_token").map(|access_token| DeviceAuthPollSuccess {
        access_token,
        scope: text(&value, "scope").unwrap(),
        token_type: text(&value, "token_type").unwrap(),
    });
    let error = match text(&value, "error") {
        Some(error) => Ok(DeviceAuthError {
            error,
            error_description: text(&value, "error_description"),
            interval: value.get("interval").and_then(|v| v.as_i64()),
        }),
        None => Err("missing field `error`".to_string()),
    };
    parse_device_auth_poll(success, error)
}

#[test]
fn maps_device_auth_start_success() {
    let start = parse_device_auth_start_json(
        r#"{"device_code":"device-123","user_code":"ABCD-EFGH","verification_uri":"https://github.com/login/device","expires_in":900,"interval":5}"#,
    )
    .unwrap();

    assert_eq!(start.device_code, "device-123");
    assert_eq!(start.user_code, "ABCD-EFGH");
    assert_eq!(start.verification_uri, "https://github.com/login/device");
    assert_eq!(start.expires_in, 900);
    assert_eq!(start.interval, 5);
}

#[test]
fn maps_access_token_success_to_complete() {
    let poll = parse_device_auth_poll_json(
        r#"{"access_token":"gho_token","scope":"read:org","token_type":"bearer"}"#,
    )
    .unwrap();

    assert_eq!(
        poll,
        DeviceAuthPoll::Complete {
            access_token: "gho_token".to_string(),
            scope: "read:org".to_string(),
            token_type: "bearer".to_string(),
        }
    );
}

#[test]
fn maps_authorization_pending_to_pending() {
    let poll = parse_device_auth_poll_json(r#"{"error":"authorization_pending"}"#).unwrap();

    assert_eq!(poll, DeviceAuthPoll::Pending { interval: None });
}

#[test]
fn maps_authorization_pending_interval_to_pending() {
    let poll =
        parse_device_auth_poll_json(r#"{"error":"authorization_pending","interval":10}"#).unwrap();

    assert_eq!(poll, DeviceAuthPoll::Pending { interval: Some(10) });
}

#[test]
fn maps_slow_down_to_slow_down() {
    let poll = parse_device_auth_poll_json(r#"{"error":"slow_down","interval":15}"#).unwrap();

    assert_eq!(poll, DeviceAuthPoll::SlowDown { interval: Some(15) });
}

#[test]
fn maps_expired_token_to_deadline_exceeded() {
    let err = parse_device_auth_poll_json(
        r#"{"error":"expired_token","error_description":"The device code has expired."}"#,
    )
    .unwrap_err();

    assert_eq!(err.code(), Code::DeadlineExceeded);
    assert!(err.message().contains("expired"));
}

#[test]
fn maps_access_denied_to_permission_denied() {
    let err = parse_device_auth_poll_json(
        r#"{"error":"access_denied","error_description":"The user denied your request."}"#,
    )
    .unwrap_err();

    assert_eq!(err.code(), Code::PermissionDenied);
    assert!(err.message().contains("denied"));
}

#[test]
fn maps_device_flow_disabled_to_failed_precondition() {
    let err = parse_device_auth_poll_json(
        r#"{"error":"device_flow_disabled","error_description":"Device flow is disabled."}"#,
    )
    .unwrap_err();

    assert_eq!(err.code(), Code::FailedPrecondition);
    assert!(err.message().contains("disabled"));
}

#[test]
fn other_oauth_errors_are_named() {
    let err = parse_device_auth_poll_json(r#"{"error":"incorrect_device_code"}"#).unwrap_err();
    assert_eq!(err.code(), Code::Internal);
    assert_eq!(
        err.message(),
        "GitHub OAuth returned error 'incorrect_device_code'"
    );
    let err = parse_device_auth_poll_json("{}").unwrap_err();
    assert_eq!(
        err.message(),
        "failed to parse GitHub OAuth response: missing field `error`"
    );
}

#[test]
fn error_message_has_the_description_where_there_is_one() {
    let error = |description: Option<&str>| DeviceAuthError {
        error: "x".to_string(),
        error_description: description.map(str::to_owned),
        interval: None,
    };
    assert_eq!(
        github_oauth_error_message("prefix", &error(Some("why"))),
        "prefix: why"
    );
    assert_eq!(github_oauth_error_message("prefix", &error(Some(""))), "prefix");
    assert_eq!(github_oauth_error_message("prefix", &error(None)), "prefix");
}

fn answered(status: u16, body: &str) -> HttpReply {
    HttpReply::Answered {
        status,
        status_text: format!("{status} Text"),
        body: body.to_string(),
    }
}

fn user() -> Result<GitHubUser, String> {
    Ok(GitHubUser {
        login: "alice".to_string(),
    })
}

#[test]
fn user_is_known_by_a_good_token_only() {
    assert_eq!(validated_user(&answered(200, ""), user()).unwrap().login, "alice");
    let err = validated_user(&answered(401, ""), user()).unwrap_err();
    assert_eq!(err.code(), Code::Unauthenticated);
    let err = validated_user(&answered(503, "down"), user()).unwrap_err();
    assert_eq!(err.message(), "GitHub API returned 503 Text: down");
    let err = validated_user(&HttpReply::NotSent("dns".to_string()), user()).unwrap_err();
    assert_eq!(err.code(), Code::Unavailable);
    let err = validated_user(&answered(200, ""), Err("eof".to_string())).unwrap_err();
    assert_eq!(err.message(), "failed to parse GitHub response: eof");
    let err = validated_user(&HttpReply::NotBuilt("tls".to_string()), user()).unwrap_err();
    assert_eq!(err.message(), "failed to build GitHub HTTP client: tls");
}

#[test]
fn only_no_content_makes_a_member() {
    assert!(org_membership("acme", "alice", &answered(204, "")).is_ok());
    let err = org_membership("acme", "alice", &answered(404, "")).unwrap_err();
    assert_eq!(err.code(), Code::PermissionDenied);
    assert_eq!(
        err.message(),
        "user 'alice' is not a member of the 'acme' GitHub organization"
    );
    let err = org_membership("acme", "alice", &answered(302, "")).unwrap_err();
    assert_eq!(err.code(), Code::PermissionDenied);
    assert!(err.message().contains("read:org"));
    let err = org_membership("acme", "alice", &answered(200, "x")).unwrap_err();
    assert_eq!(err.code(), Code::Internal);
    let err = org_membership("acme", "a", &HttpReply::NotSent("dns".to_string())).unwrap_err();
    assert_eq!(err.code(), Code::Unavailable);
    let err = org_membership("acme", "a", &HttpReply::NotBuilt("tls".to_string())).unwrap_err();
    assert_eq!(err.message(), "failed to build HTTP client: tls");
}

#[test]
fn failed_endpoints_are_named() {
    let err = started_device_auth(&answered(500, "x"), Err(String::new())).unwrap_err();
    assert_eq!(
        err.message(),
        "GitHub OAuth device-code endpoint returned 500 Text: x"
    );
    let err = polled_device_auth(&answered(500, "x"), None, Err(String::new())).unwrap_err();
    assert_eq!(err.message(), "GitHub OAuth token endpoint returned 500 Text: x");
}

#[test]
fn requests_of_the_device_flow() {
    let request = start_device_auth("client", "read:org");
    assert_eq!(request.url, "https://github.com/login/device/code");
    match &request.body {
        HttpBody::Form(fields) => assert_eq!(
            fields,
            &vec![
                ("client_id".to_string(), "client".to_string()),
                ("scope".to_string(), "read:org".to_string()),
            ]
        ),
        _ => panic!("expected a form"),
    }
    let request = poll_device_auth("client", "device");
    assert_eq!(request.url, "https://github.com/login/oauth/access_token");
    let request = check_org_membership("tok", "acme", "alice");
    assert_eq!(request.url, "https://api.github.com/orgs/acme/members/alice");
    assert!(!request.follow_redirects);
    assert!(validate_token("tok").follow_redirects);
}

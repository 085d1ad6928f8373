use supabased::auth;
use supabased::auth::{
    create_token, create_token_at, create_token_by_clock, default_permissions, make_interceptor,
    require_permission, require_permission_or_owner, verify_token, verify_token_by_clock,
    AuthContext, AuthorizationHeader,
};
use supabased::clock::now_unix;
use supabased::http::bearer_header;
use supabased::status::Code;

fn ctx(identity: &str, perms: &[&str]) -> AuthContext {
    AuthContext {
        identity: identity.to_string(),
        permissions: perms.iter().map(|s| s.to_string()).collect(),
    }
}

#[test]
fn require_permission_grants_when_present() {
    let c = ctx("github:alice", &["branches.create", "branches.list"]);
    assert!(require_permission(&c, "branches.create").is_ok());
}

#[test]
fn require_permission_denies_when_absent() {
    let c = ctx("github:alice", &["branches.list"]);
    let err = require_permission(&c, "branches.create").unwrap_err();
    assert_eq!(err.code(), Code::PermissionDenied);
    assert_eq!(err.message(), "missing required permission: branches.create");
}

#[test]
fn require_permission_or_owner_grants_with_any() {
    let c = ctx("github:alice", &["branches.delete_any"]);
    assert!(require_permission_or_owner(
        &c,
        "branches.delete_own",
        "branches.delete_any",
        "github:bob",
    )
    .is_ok());
}

#[test]
fn require_permission_or_owner_grants_own_when_owner() {
    let c = ctx("github:alice", &["branches.delete_own"]);
    assert!(require_permission_or_owner(
        &c,
        "branches.delete_own",
        "branches.delete_any",
        "github:alice",
    )
    .is_ok());
}

#[test]
fn require_permission_or_owner_denies_own_when_not_owner() {
    let c = ctx("github:alice", &["branches.delete_own"]);
    let err = require_permission_or_owner(
        &c,
        "branches.delete_own",
        "branches.delete_any",
        "github:bob",
    )
    .unwrap_err();
    assert_eq!(err.code(), Code::PermissionDenied);
}

#[test]
fn require_permission_or_owner_denies_with_neither() {
    let c = ctx("github:alice", &["branches.list"]);
    let err = require_permission_or_owner(
        &c,
        "branches.delete_own",
        "branches.delete_any",
        "github:alice",
    )
    .unwrap_err();
    assert_eq!(err.code(), Code::PermissionDenied);
    assert_eq!(
        err.message(),
        "missing required permission: branches.delete_any or branches.delete_own (as owner)"
    );
}

#[test]
fn restore_permission_uses_elevated_demo_permission() {
    let c = ctx("github:alice", &["demo.restore_main"]);
    assert!(require_permission(&c, "demo.restore_main").is_ok());

    let c = ctx("github:alice", &["demo.save"]);
    let err = require_permission(&c, "demo.restore_main").unwrap_err();
    assert_eq!(err.code(), Code::PermissionDenied);
}

#[test]
fn default_permissions_are_those_of_a_member() {
    assert_eq!(
        default_permissions(),
        vec![
            "branches.create",
            "branches.list",
            "branches.delete_own",
            "branches.get_credentials_own",
            "demo.save",
            "demo.list",
            "demo.delete_own",
            "info.read",
        ]
    );
    let member = AuthContext {
        identity: "github:alice".to_string(),
        permissions: default_permissions(),
    };
    assert!(require_permission(&member, "demo.restore_main").is_err());
    let own = |owner: &str| {
        require_permission_or_owner(&member, "demo.delete_own", "demo.delete_any", owner).is_ok()
    };
    assert!(own("github:alice"));
    assert!(!own("github:bob"));
}

#[test]
fn issued_token_is_verified_under_its_secret_only() {
    let permissions = vec!["branches.list".to_string()];
    let (token, expires_at) = create_token(b"secret", "github:alice", &permissions).unwrap();
    assert_eq!(token.split('.').count(), 3);
    let claims = verify_token(b"secret", &token).unwrap();
    assert_eq!(claims.sub, "github:alice");
    assert_eq!(claims.role, "developer");
    assert_eq!(claims.permissions, permissions);
    assert_eq!(claims.exp, expires_at);
    assert_eq!(claims.exp - claims.iat, 28_800);
    assert_eq!(verify_token(b"other", &token).unwrap_err(), "InvalidSignature");
    assert_eq!(verify_token(b"secret", "nonsense").unwrap_err(), "InvalidToken");
}

#[test]
fn token_whose_time_is_over_is_refused() {
    let now = now_unix().unwrap();
    let (token, _) = create_token_at(b"secret", "github:alice", &[], now - 40_000).unwrap();
    assert_eq!(verify_token(b"secret", &token).unwrap_err(), "ExpiredSignature");
    let refused = make_interceptor(b"secret".to_vec())
        .call(&AuthorizationHeader::Text(bearer_header(&token)))
        .unwrap_err();
    assert_eq!(refused.message(), "invalid token: ExpiredSignature");
    let (token, _) = create_token_at(b"secret", "github:alice", &[], -40_000).unwrap();
    assert_eq!(
        verify_token(b"secret", &token).unwrap_err(),
        "Missing required claim: exp"
    );
    let (token, expires_at) = create_token_at(b"secret", "github:alice", &[], now).unwrap();
    assert_eq!(expires_at, now + auth::TOKEN_TTL_SECONDS);
    assert_eq!(verify_token(b"secret", &token).unwrap().sub, "github:alice");
}

#[test]
fn interceptor_admits_the_bearer_of_a_good_token() {
    let interceptor = make_interceptor(b"secret".to_vec());
    let permissions = vec!["info.read".to_string()];
    let (token, _) = create_token(b"secret", "github:alice", &permissions).unwrap();
    let found = interceptor
        .call(&AuthorizationHeader::Text(bearer_header(&token)))
        .unwrap()
        .unwrap();
    assert_eq!(found.identity, "github:alice");
    assert_eq!(found.permissions, permissions);
}

#[test]
fn interceptor_lets_nobody_pass_as_somebody() {
    let interceptor = make_interceptor(b"secret".to_vec());
    assert!(interceptor.call(&AuthorizationHeader::Absent).unwrap().is_none());

    let refused = |header: AuthorizationHeader| interceptor.call(&header).unwrap_err();
    let err = refused(AuthorizationHeader::Unreadable);
    assert_eq!(err.code(), Code::Unauthenticated);
    assert_eq!(err.message(), "invalid authorization header");
    let err = refused(AuthorizationHeader::Text("Basic abc".to_string()));
    assert_eq!(err.message(), "expected Bearer token");
    let err = refused(AuthorizationHeader::Text("Bearer nonsense".to_string()));
    assert_eq!(err.code(), Code::Unauthenticated);
    assert!(err.message().starts_with("invalid token: "));
}

#[test]
fn tokens_need_a_usable_clock() {
    let no_time = "the system clock gives no usable time";
    let create = |now: Option<i64>| create_token_by_clock(b"secret", "github:alice", &[], now);
    assert_eq!(create(None).unwrap_err(), no_time);
    assert_eq!(create(Some(-1)).unwrap_err(), no_time);
    assert_eq!(create(Some(i64::MAX - 28_799)).unwrap_err(), no_time);
    assert_eq!(create(Some(i64::MAX - 28_800)).unwrap().1, i64::MAX);
    let now = now_unix().unwrap();
    let (token, expires_at) = create(Some(now)).unwrap();
    assert_eq!(expires_at, now + 28_800);
    let verify = |now: Option<i64>| verify_token_by_clock(b"secret", &token, now);
    assert_eq!(verify(None).unwrap_err(), no_time);
    assert_eq!(verify(Some(59)).unwrap_err(), no_time);
    assert_eq!(verify(Some(now)).unwrap().iat, now);
}

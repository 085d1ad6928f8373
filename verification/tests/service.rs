use supabased::auth::{verify_token, AuthContext};
use supabased::branch_names::{branch_name_of, sanitized_demo_branch_name};
use supabased::clock::{counted_seconds, now_unix};
use supabased::config::{ProjectConfig, ServerConfig};
use supabased::db::{BranchRecord, DemoStateRecord, RefreshSessionRecord, SqlValue, Statement};
use supabased::device_sessions::DeviceSessions;
use supabased::github::{DeviceAuthPoll, DeviceAuthStart, GitHubUser};
use supabased::http::{HttpMethod, HttpReply};
use supabased::login::{
    pending_response, session_issued, session_replaced, session_start_at, PolledLogin, SessionToFind,
    SessionToRefresh,
};
use supabased::messages::{BranchOwnership, DeviceAuthResult};
use supabased::rate_limit::ClientAddr;
use supabased::secrets::{
    generate_auth_session_id, generate_refresh_token, hash_refresh_secret, hex_of_any,
    parse_refresh_token, random_hex, refresh_token_of, refresh_token_of_any,
};
use supabased::service::{
    branch_credentials_response, classify_branch_ownership, require_restore_confirmation,
    resolve_demo_project, resolve_project, validated_branch_ref, SupabasedService,
};
use supabased::status::{Code, Status};
use supabased::supabase::{ApiKeyResponse, BranchCredentialSet, BranchResponse, SupabaseClient};
use supabased::text::lower_text;

const SECOND: u128 = 1_000_000_000;

fn ctx(identity: &str) -> AuthContext {
    AuthContext {
        identity: identity.to_string(),
        permissions: vec![],
    }
}

fn branch_record(creator_identity: &str) -> BranchRecord {
    BranchRecord {
        branch_name: "feature".to_string(),
        project_name: "staging".to_string(),
        creator_identity: creator_identity.to_string(),
        branch_ref: "branch-ref".to_string(),
        created_at: "2026-05-03T00:00:00Z".to_string(),
    }
}

fn project_config(name: &str, demo: bool) -> ProjectConfig {
    ProjectConfig {
        name: name.to_string(),
        project_ref: format!("{name}-ref"),
        demo,
        database_password_env: if demo {
            Some(format!("{}_DB_PASSWORD", name.to_uppercase()))
        } else {
            None
        },
    }
}

fn created_branch_response(
    project_ref: &str,
    parent_project_ref: &str,
    is_default: bool,
) -> BranchResponse {
    BranchResponse {
        id: "branch-id".to_string(),
        name: Some("demo/farmer".to_string()),
        project_ref: Some(project_ref.to_string()),
        parent_project_ref: Some(parent_project_ref.to_string()),
        is_default: Some(is_default),
        git_branch: Some("demo/farmer".to_string()),
        status: Some("CREATING_PROJECT".to_string()),
        created_at: Some("2026-06-26T16:52:22Z".to_string()),
        updated_at: Some("2026-06-26T16:52:22Z".to_string()),
    }
}

#[test]
fn classify_branch_ownership_marks_current_creator_as_yours() {
    let ctx = ctx("github:alice");
    let record = branch_record("github:alice");

    assert_eq!(
        classify_branch_ownership(&ctx, Some(&record)),
        BranchOwnership::Yours
    );
}

#[test]
fn classify_branch_ownership_marks_other_creator_as_other() {
    let ctx = ctx("github:alice");
    let record = branch_record("github:bob");

    assert_eq!(
        classify_branch_ownership(&ctx, Some(&record)),
        BranchOwnership::Other
    );
}

#[test]
fn classify_branch_ownership_marks_missing_record_as_untracked() {
    let ctx = ctx("github:alice");

    assert_eq!(
        classify_branch_ownership(&ctx, None),
        BranchOwnership::Untracked
    );
}

#[test]
fn auth_session_id_has_hex_shape_and_is_unique() {
    let first = generate_auth_session_id().unwrap();
    let second = generate_auth_session_id().unwrap();
    assert_eq!(first.len(), 64);
    assert!(first.chars().all(|c| c.is_ascii_hexdigit()));
    assert_ne!(first, second);
}

#[test]
fn branch_credentials_populate_modern_and_compatibility_fields() {
    let response = branch_credentials_response(
        "staging".into(),
        "feature".into(),
        BranchCredentialSet {
            api_url: "https://branch-ref.supabase.co".into(),
            publishable_key: "sb_publishable_value".into(),
            secret_key: "sb_secret_value".into(),
        },
    );

    assert_eq!(response.publishable_key, "sb_publishable_value");
    assert_eq!(response.anon_key, response.publishable_key);
    assert_eq!(response.secret_key, "sb_secret_value");
    assert_eq!(response.service_role_key, response.secret_key);
}

#[test]
fn pending_response_clamps_interval() {
    let response = pending_response(0);
    let Some(DeviceAuthResult::Pending(pending)) = response.result else {
        panic!("expected pending response");
    };
    assert_eq!(pending.interval, 1);
}

#[test]
fn refresh_token_has_selector_and_secret() {
    let made = generate_refresh_token().unwrap();
    let (parsed_selector, parsed_secret) = parse_refresh_token(&made.token).unwrap();
    assert_eq!(parsed_selector, made.selector);
    assert_eq!(made.token_hash, hash_refresh_secret(&parsed_secret));
    assert_ne!(made.selector, parsed_secret);
}

#[test]
fn demo_branch_name_is_sanitized() {
    assert_eq!(
        sanitized_demo_branch_name("Sales Demo 2026!"),
        "demo/sales-demo-2026"
    );
    assert_eq!(sanitized_demo_branch_name("___"), "demo/___");
    assert_eq!(sanitized_demo_branch_name("!!!"), "demo/state");
}

#[test]
fn demo_branch_names_are_plain() {
    assert_eq!(sanitized_demo_branch_name("  a  --  B.c  "), "demo/a-b.c");
    assert_eq!(sanitized_demo_branch_name("ÄRGER"), "demo/rger");
    assert_eq!(sanitized_demo_branch_name("\u{212A}elvin"), "demo/kelvin");
    assert_eq!(sanitized_demo_branch_name(""), "demo/state");
    let long = sanitized_demo_branch_name(&"x".repeat(200));
    assert_eq!(long, format!("demo/{}", "x".repeat(80)));
    let cut = sanitized_demo_branch_name(&format!("{} y", "x".repeat(79)));
    assert_eq!(cut, format!("demo/{}-", "x".repeat(79)));
    assert_eq!(branch_name_of(&vec!['a', '/', '/', 'b']), "demo/a-b");
}

#[test]
fn no_character_leaves_a_capital() {
    for c in '\0'..=char::MAX {
        let lowered = lower_text(&c.to_string());
        assert!(!lowered.iter().any(|c| c.is_ascii_uppercase()), "{c:?}");
    }
}

#[test]
fn demo_branch_names_are_stable() {
    for name in ["Sales Demo 2026!", "  a  --  B.c  ", "ÄRGER", "___", "!!!"] {
        let made = sanitized_demo_branch_name(name);
        assert_eq!(sanitized_demo_branch_name(&made["demo/".len()..]), made);
        assert_eq!(sanitized_demo_branch_name(&name.to_ascii_uppercase()), made);
    }
    let cut = format!("{}-", "x".repeat(79));
    assert_eq!(
        sanitized_demo_branch_name(&cut),
        format!("demo/{}", "x".repeat(79))
    );
}

#[test]
fn restore_confirmation_is_required() {
    let err = require_restore_confirmation(false).unwrap_err();
    assert_eq!(err.code(), Code::FailedPrecondition);
    assert!(require_restore_confirmation(true).is_ok());
}

#[test]
fn resolve_project_allows_non_demo_projects() {
    let config = ServerConfig {
        projects: vec![project_config("staging", false)],
    };

    let project = resolve_project(&config, "staging").unwrap();
    assert_eq!(project.project_ref, "staging-ref");
}

#[test]
fn resolve_project_rejects_unknown_projects() {
    let config = ServerConfig {
        projects: vec![project_config("staging", false)],
    };

    let err = resolve_project(&config, "unknown").unwrap_err();
    assert_eq!(err.code(), Code::NotFound);
}

#[test]
fn resolve_demo_project_rejects_non_demo_projects() {
    let config = ServerConfig {
        projects: vec![project_config("staging", false)],
    };

    let err = resolve_demo_project(&config, "staging").unwrap_err();
    assert_eq!(err.code(), Code::FailedPrecondition);
}

#[test]
fn resolve_demo_project_allows_demo_projects() {
    let config = ServerConfig {
        projects: vec![project_config("staging", true)],
    };

    let project = resolve_demo_project(&config, "staging").unwrap();
    assert_eq!(project.project_ref, "staging-ref");
}

#[test]
fn resolve_demo_project_rejects_unknown_projects() {
    let config = ServerConfig {
        projects: vec![project_config("staging", true)],
    };

    let err = resolve_demo_project(&config, "unknown").unwrap_err();
    assert_eq!(err.code(), Code::NotFound);
}

#[test]
fn validates_created_branch_response_as_child_branch() {
    let response = created_branch_response("child-ref", "parent-ref", false);
    assert_eq!(
        validated_branch_ref(&response, "parent-ref").unwrap(),
        "child-ref"
    );
}

#[test]
fn rejects_created_branch_response_that_points_at_parent_project() {
    let response = created_branch_response("parent-ref", "parent-ref", false);
    let err = validated_branch_ref(&response, "parent-ref").unwrap_err();
    assert_eq!(err.code(), Code::FailedPrecondition);
}

#[test]
fn rejects_created_branch_response_with_wrong_parent() {
    let response = created_branch_response("child-ref", "other-parent-ref", false);
    let err = validated_branch_ref(&response, "parent-ref").unwrap_err();
    assert_eq!(err.code(), Code::FailedPrecondition);
}

#[test]
fn rejects_created_branch_response_for_default_branch() {
    let response = created_branch_response("child-ref", "parent-ref", true);
    let err = validated_branch_ref(&response, "parent-ref").unwrap_err();
    assert_eq!(err.code(), Code::FailedPrecondition);
}

#[test]
fn rejects_created_branch_response_without_a_reference() {
    let mut response = created_branch_response("", "parent-ref", false);
    let err = validated_branch_ref(&response, "parent-ref").unwrap_err();
    assert_eq!(err.code(), Code::Internal);
    response.project_ref = None;
    assert!(validated_branch_ref(&response, "parent-ref").is_err());
}

#[test]
fn malformed_refresh_token_is_rejected() {
    assert!(parse_refresh_token("").is_err());
    assert!(parse_refresh_token("selector-only").is_err());
    assert!(parse_refresh_token(".secret").is_err());
    assert!(parse_refresh_token("selector.").is_err());
}

#[test]
fn a_refresh_token_is_parted_at_its_first_dot() {
    assert_eq!(
        parse_refresh_token("a.b.c").unwrap(),
        ("a".to_string(), "b.c".to_string())
    );
    assert_eq!(random_hex(16).unwrap().len(), 32);
    assert_eq!(random_hex(99).unwrap().len(), 64);
    let digest: Vec<u8> = <sha2::Sha256 as sha2::Digest>::digest(b"secret").to_vec();
    assert_eq!(hash_refresh_secret("secret"), digest);
}

fn start(code: &str, expires_in: i64) -> DeviceAuthStart {
    DeviceAuthStart {
        device_code: code.to_string(),
        user_code: "ABCD-EFGH".to_string(),
        verification_uri: "https://github.com/login/device".to_string(),
        expires_in,
        interval: 5,
    }
}

#[test]
fn pruning_removes_expired_sessions_only() {
    let mut sessions = DeviceSessions::new();
    sessions.begin("expired".to_string(), start("expired-code", 1), 0);
    sessions.begin("active".to_string(), start("active-code", 60), 0);
    sessions.prune_expired(2 * SECOND);
    let err = sessions.lookup("expired", 2 * SECOND).unwrap_err();
    assert_eq!(err.code(), Code::NotFound);
    assert_eq!(
        sessions.lookup("active", 2 * SECOND).unwrap().device_code,
        "active-code"
    );
}

#[test]
fn an_expired_login_is_refused_and_dropped() {
    let mut sessions = DeviceSessions::new();
    let told = sessions.begin("id".to_string(), start("code", 0), 0);
    assert_eq!(told.expires_in, 1);
    assert!(sessions.lookup("id", SECOND - 1).is_ok());
    let err = sessions.lookup("id", SECOND).unwrap_err();
    assert_eq!(err.code(), Code::DeadlineExceeded);
    let err = sessions.lookup("id", SECOND).unwrap_err();
    assert_eq!(err.code(), Code::NotFound);
}

fn service() -> SupabasedService {
    SupabasedService::new(
        b"jwt".to_vec(),
        "acme".to_string(),
        "client".to_string(),
        SupabaseClient::new("token".to_string()),
        ServerConfig {
            projects: vec![project_config("staging", true), project_config("prod", false)],
        },
        "v1".to_string(),
    )
}

fn may(identity: &str, permissions: &[&str]) -> Option<AuthContext> {
    Some(AuthContext {
        identity: identity.to_string(),
        permissions: permissions.iter().map(|p| p.to_string()).collect(),
    })
}

fn answered(status: u16) -> HttpReply {
    HttpReply::Answered {
        status,
        status_text: format!("{status} Text"),
        body: String::new(),
    }
}

fn texts(statement: &Statement) -> Vec<String> {
    statement
        .params
        .iter()
        .map(|p| match p {
            SqlValue::Text(text) => text.clone(),
            _ => panic!("expected texts alone"),
        })
        .collect()
}

#[test]
fn unknown_makers_are_refused_everywhere() {
    let s = service();
    let refused = |err: Status| {
        assert_eq!(err.code(), Code::Unauthenticated);
        assert_eq!(err.message(), "authentication required");
    };
    refused(s.who_am_i(None).unwrap_err());
    refused(s.list_projects(None).unwrap_err());
    refused(s.create_branch(None, "staging", "b").unwrap_err());
    refused(s.list_branches(None, "").unwrap_err());
    refused(s.delete_branch(None, "staging", "b").unwrap_err());
    refused(s.get_branch_credentials(None, "staging", "b").unwrap_err());
    refused(s.save_demo_state(None, "staging", "b").unwrap_err());
    refused(s.list_demo_states(None, "staging").unwrap_err());
    refused(s.delete_demo_state(None, "staging", "b").unwrap_err());
    refused(s.restore_demo_state(None, "staging", "b", true).unwrap_err());
}

#[test]
fn makers_are_told_who_they_are() {
    let reply = service().who_am_i(may("github:alice", &["info.read"])).unwrap();
    assert_eq!(reply.message.identity, "github:alice");
    assert_eq!(reply.message.permissions, vec!["info.read"]);
    assert!(reply.message.accessible_branches.is_empty());
    assert_eq!(reply.config_version, "v1");
    let reply = service().list_projects(may("github:alice", &[])).unwrap();
    assert_eq!(reply.message, vec!["staging", "prod"]);
    assert_eq!(reply.config_version, "v1");
}

#[test]
fn a_branch_is_created_and_filed_for_its_maker() {
    let s = service();
    let alice = may("github:alice", &["branches.create"]);
    let err = s.create_branch(may("github:alice", &[]), "staging", "b").unwrap_err();
    assert_eq!(err.code(), Code::PermissionDenied);
    let err = s.create_branch(alice.clone(), "nope", "b").unwrap_err();
    assert_eq!(err.message(), "unknown project: nope");

    let asked = s.create_branch(alice.clone(), "prod", "b").unwrap();
    assert_eq!(
        asked.request.url,
        "https://api.supabase.com/v1/projects/prod-ref/branches"
    );
    let response = created_branch_response("child", "prod-ref", false);
    let created = s.branch_created(asked, &answered(201), Ok(response)).unwrap();
    assert_eq!(texts(&created.record), vec!["b", "prod", "github:alice", "child"]);
    let err = s
        .branch_recorded(created.clone(), Err("locked".to_string()))
        .unwrap_err();
    assert_eq!(err.message(), "failed to record branch: locked");
    let reply = s.branch_recorded(created, Ok(())).unwrap();
    assert_eq!(reply.message.branch_name, "b");
    assert_eq!(reply.message.status, "CREATING_PROJECT");
    assert_eq!(reply.message.ownership, BranchOwnership::Yours);

    let asked = s.create_branch(alice, "prod", "b").unwrap();
    let parent = created_branch_response("prod-ref", "prod-ref", false);
    assert!(s.branch_created(asked, &answered(201), Ok(parent)).is_err());
}

#[test]
fn branches_are_listed_project_by_project() {
    let s = service();
    let alice = may("github:alice", &["branches.list"]);
    assert!(s.list_branches(may("github:alice", &[]), "").is_err());
    assert_eq!(
        s.list_branches(alice.clone(), "nope").unwrap_err().code(),
        Code::NotFound
    );
    assert_eq!(
        texts(&s.list_branches(alice.clone(), "prod").unwrap().lookup),
        vec!["prod"]
    );

    let asked = s.list_branches(alice.clone(), "").unwrap();
    assert!(asked.lookup.params.is_empty());
    let err = s
        .branches_looked_up(asked.clone(), Err("locked".to_string()))
        .unwrap_err();
    assert_eq!(err.message(), "database error: locked");
    let mut other = branch_record("github:bob");
    other.branch_name = "theirs".to_string();
    let records = vec![branch_record("github:bob"), other, branch_record("github:alice")];
    let mut list = s.branches_looked_up(asked, Ok(records)).unwrap();

    let named = |name: &str, is_default: Option<bool>| {
        let mut b = created_branch_response("child", "staging-ref", false);
        b.name = Some(name.to_string());
        b.is_default = is_default;
        b
    };
    let answers = vec![
        vec![named("main", Some(true)), named("feature", Some(false)), named("theirs", None)],
        vec![named("feature", Some(false))],
    ];
    let mut urls = vec![];
    while let Some(request) = s.next_list_request(&list) {
        urls.push(request.url);
        let answer = answers[list.answered].clone();
        list = s.project_listed(list, &answered(200), Ok(answer)).unwrap();
    }
    assert_eq!(urls.len(), 2);
    assert!(urls[1].contains("prod-ref"));
    let reply = s.branches_listed(list);
    let shown: Vec<(String, String, BranchOwnership)> = reply
        .message
        .branches
        .iter()
        .map(|b| (b.project_name.clone(), b.branch_name.clone(), b.ownership))
        .collect();
    let row = |p: &str, b: &str, o: BranchOwnership| (p.to_string(), b.to_string(), o);
    assert_eq!(
        shown,
        vec![
            row("staging", "feature", BranchOwnership::Yours),
            row("staging", "theirs", BranchOwnership::Other),
            row("prod", "feature", BranchOwnership::Untracked),
        ]
    );
}

#[test]
fn a_branch_is_forgotten_once_it_is_deleted() {
    let s = service();
    let sought = |who: Option<AuthContext>| s.delete_branch(who, "staging", "feature").unwrap();
    let alice = may("github:alice", &["branches.delete_own"]);
    assert_eq!(texts(&sought(alice.clone()).lookup), vec!["feature", "staging"]);
    let err = s.branch_to_delete_found(sought(alice.clone()), Ok(None)).unwrap_err();
    assert_eq!(err.message(), "branch 'feature' not found in project 'staging'");
    let err = s
        .branch_to_delete_found(sought(alice.clone()), Ok(Some(branch_record("github:bob"))))
        .unwrap_err();
    assert_eq!(err.code(), Code::PermissionDenied);
    let found = || {
        s.branch_to_delete_found(sought(alice.clone()), Ok(Some(branch_record("github:alice"))))
            .unwrap()
    };
    assert_eq!(found().request.method, HttpMethod::Delete);
    let err = s.branch_deleted(found(), &answered(404)).unwrap_err();
    assert_eq!(err.message(), "Supabase branch 'branch-ref' was not found");
    assert!(s.branch_deleted(found(), &answered(500)).is_err());
    let forget = s.branch_deleted(found(), &answered(200)).unwrap();
    assert_eq!(texts(&forget), vec!["feature", "staging"]);
    assert!(s.branch_forgotten(Ok(())).unwrap().message);
    assert_eq!(
        s.branch_forgotten(Err("locked".to_string())).unwrap_err().message(),
        "database error: locked"
    );
}

#[test]
fn credentials_are_given_to_the_creator() {
    let s = service();
    let sought = || {
        s.get_branch_credentials(
            may("github:alice", &["branches.get_credentials_own"]),
            "staging",
            "feature",
        )
        .unwrap()
    };
    let err = s
        .branch_with_credentials_found(sought(), Ok(Some(branch_record("github:bob"))))
        .unwrap_err();
    assert_eq!(err.code(), Code::PermissionDenied);
    let asked = s
        .branch_with_credentials_found(sought(), Ok(Some(branch_record("github:alice"))))
        .unwrap();
    assert!(asked.request.url.ends_with("/branch-ref/api-keys?reveal=true"));
    let key = |api_key: &str, key_type: &str| ApiKeyResponse {
        api_key: api_key.to_string(),
        name: None,
        key_type: Some(key_type.to_string()),
    };
    let keys = vec![key("sb_publishable_a", "publishable"), key("sb_secret_b", "secret")];
    let reply = s.credentials_fetched(asked.clone(), &answered(200), Ok(keys)).unwrap();
    assert_eq!(reply.message.api_url, "https://branch-ref.supabase.co");
    assert_eq!(reply.message.publishable_key, "sb_publishable_a");
    assert_eq!(reply.message.secret_key, "sb_secret_b");
    assert_eq!(reply.message.branch_name, "feature");
    assert!(s.credentials_fetched(asked, &answered(200), Ok(vec![])).is_err());
}

fn demo_record(creator_identity: &str, last_restored_at: Option<&str>) -> DemoStateRecord {
    DemoStateRecord {
        project_name: "staging".to_string(),
        name: "happy path".to_string(),
        branch_name: "demo/happy-path".to_string(),
        branch_ref: "branch-ref".to_string(),
        creator_identity: creator_identity.to_string(),
        created_at: "2026-05-03".to_string(),
        last_restored_at: last_restored_at.map(str::to_owned),
    }
}

#[test]
fn a_demo_state_is_saved_once() {
    let s = service();
    let alice = || may("github:alice", &["demo.save"]);
    let err = s.save_demo_state(may("github:alice", &[]), "staging", "x").unwrap_err();
    assert_eq!(err.code(), Code::PermissionDenied);
    let err = s.save_demo_state(alice(), "staging", " \t").unwrap_err();
    assert_eq!(err.code(), Code::InvalidArgument);
    assert_eq!(err.message(), "demo state name required");
    assert!(s.save_demo_state(alice(), "nope", "x").is_err());
    assert!(s.save_demo_state(alice(), "prod", "x").is_ok());

    let asked = s.save_demo_state(alice(), "staging", "Happy Path").unwrap();
    let err = s
        .demo_state_looked_up(asked.clone(), Ok(Some(demo_record("github:bob", None))))
        .unwrap_err();
    assert_eq!(err.code(), Code::AlreadyExists);
    assert_eq!(
        err.message(),
        "demo state 'Happy Path' already exists in project 'staging'"
    );
    let branch = s.demo_state_looked_up(asked, Ok(None)).unwrap();
    assert_eq!(branch.branch_name, "demo/happy-path");
    let response = created_branch_response("child", "staging-ref", false);
    let filed = s.demo_branch_created(branch, &answered(201), Ok(response)).unwrap();
    assert_eq!(
        texts(&filed.record),
        vec!["staging", "Happy Path", "demo/happy-path", "child", "github:alice"]
    );
    let err = s
        .demo_state_recorded(filed.clone(), Err("locked".to_string()))
        .unwrap_err();
    assert_eq!(err.message(), "failed to record demo state: locked");
    let lookup = s.demo_state_recorded(filed, Ok(())).unwrap();
    assert_eq!(texts(&lookup), vec!["staging", "Happy Path"]);
    let reply = s.demo_state_saved(Ok(Some(demo_record("github:alice", None)))).unwrap();
    assert_eq!(reply.message.last_restored_at, "");
    assert_eq!(
        s.demo_state_saved(Ok(None)).unwrap_err().message(),
        "saved demo state record was not found"
    );
}

#[test]
fn demo_states_are_listed_for_demo_projects() {
    let s = service();
    let alice = || may("github:alice", &["demo.list"]);
    let err = s.list_demo_states(alice(), "prod").unwrap_err();
    assert_eq!(
        err.message(),
        "project 'prod' is not configured for demo operations"
    );
    assert_eq!(texts(&s.list_demo_states(alice(), "staging").unwrap()), vec!["staging"]);
    let records = vec![demo_record("a", None), demo_record("b", Some("2026-06-01"))];
    let reply = s.demo_states_listed(Ok(records)).unwrap();
    assert_eq!(reply.message.states.len(), 2);
    assert_eq!(reply.message.states[1].creator_identity, "b");
    assert_eq!(reply.message.states[1].last_restored_at, "2026-06-01");
    assert!(s.demo_states_listed(Err("x".to_string())).is_err());
}

#[test]
fn a_demo_state_is_deleted_with_its_branch() {
    let s = service();
    let sought = || {
        s.delete_demo_state(may("github:alice", &["demo.delete_own"]), "staging", "happy path")
            .unwrap()
    };
    assert!(s
        .delete_demo_state(may("github:alice", &["demo.delete_own"]), "prod", "x")
        .is_err());
    let err = s.demo_state_to_delete_found(sought(), Ok(None)).unwrap_err();
    assert_eq!(
        err.message(),
        "demo state 'happy path' not found in project 'staging'"
    );
    assert!(s
        .demo_state_to_delete_found(sought(), Ok(Some(demo_record("github:bob", None))))
        .is_err());
    let found = || {
        s.demo_state_to_delete_found(sought(), Ok(Some(demo_record("github:alice", None))))
            .unwrap()
    };
    assert!(s.demo_branch_deleted(found(), &answered(500)).is_err());
    let gone = s.demo_branch_deleted(found(), &answered(404)).unwrap();
    assert!(gone.response.remote_branch_missing && !gone.response.remote_branch_deleted);
    let deleted = s.demo_branch_deleted(found(), &answered(200)).unwrap();
    assert!(!deleted.response.remote_branch_missing && deleted.response.remote_branch_deleted);
    assert_eq!(texts(&deleted.forget), vec!["staging", "happy path"]);
    let reply = s.demo_state_forgotten(deleted, Ok(())).unwrap();
    assert!(reply.message.deleted);
    assert_eq!(reply.message.branch_name, "demo/happy-path");
    assert!(s.demo_state_forgotten(gone, Err("x".to_string())).is_err());
}

#[test]
fn a_restore_goes_from_the_branch_into_the_project() {
    let s = service();
    let admin = || may("github:root", &["demo.restore_main"]);
    let err = s.restore_demo_state(admin(), "staging", "x", false).unwrap_err();
    assert_eq!(err.message(), "restore requires confirm_overwrite_main=true");
    let err = s
        .restore_demo_state(may("github:alice", &["demo.save"]), "staging", "x", true)
        .unwrap_err();
    assert_eq!(err.code(), Code::PermissionDenied);
    assert!(s.restore_demo_state(admin(), "prod", "x", true).is_err());

    let sought = s.restore_demo_state(admin(), "staging", "happy path", true).unwrap();
    let asked = s
        .demo_state_to_restore_found(sought, Ok(Some(demo_record("github:alice", None))))
        .unwrap();
    assert_eq!(asked.password_env, "STAGING_DB_PASSWORD");
    let err = s.restore_connected(asked.clone(), None).unwrap_err();
    assert_eq!(err.code(), Code::FailedPrecondition);
    assert!(err.message().starts_with("STAGING_DB_PASSWORD environment variable"));
    let run = s.restore_connected(asked, Some("pw".to_string())).unwrap();
    assert_eq!(run.source.host, "db.branch-ref.supabase.co");
    assert_eq!(run.target.host, "db.staging-ref.supabase.co");
    assert_eq!(run.target.password, "pw");

    let err = s.schema_restored(run.clone(), Err("lost".to_string())).unwrap_err();
    assert_eq!(err.message(), "restore task failed: lost");
    let failed = Status::new(Code::Internal, "psql failed");
    let err = s.schema_restored(run.clone(), Ok(Err(failed))).unwrap_err();
    assert_eq!(err.message(), "psql failed");
    let mark = s.schema_restored(run, Ok(Ok(()))).unwrap();
    assert_eq!(texts(&mark.change), vec!["staging", "happy path"]);
    let reply = s
        .demo_state_restored(Ok(Some(demo_record("github:alice", Some("now")))))
        .unwrap();
    assert_eq!(reply.message.last_restored_at, "now");
    assert_eq!(
        s.demo_state_restored(Ok(None)).unwrap_err().message(),
        "restored demo state record was not found"
    );
}

fn begin_login(s: &mut SupabasedService, now: u128) -> String {
    let request = s.start_github_device_auth(None, now).unwrap();
    assert_eq!(request.url, "https://github.com/login/device/code");
    let told = s
        .github_device_auth_started(&answered(200), Ok(start("device", 900)), now)
        .unwrap()
        .unwrap();
    assert_eq!(told.user_code, "ABCD-EFGH");
    assert_eq!(told.auth_session_id.len(), 64);
    told.auth_session_id
}

#[test]
fn logins_are_limited_per_address() {
    let mut s = service();
    let addr = Some(ClientAddr::V4(7));
    for i in 0..5 {
        assert!(s.start_github_device_auth(addr, i).is_ok());
    }
    let err = s.start_github_device_auth(addr, 5).unwrap_err();
    assert_eq!(err.code(), Code::ResourceExhausted);
    assert_eq!(
        s.finish_github_device_auth(addr, "x", 6).unwrap_err().code(),
        Code::ResourceExhausted
    );
    assert!(s.start_github_device_auth(Some(ClientAddr::V4(8)), 6).is_ok());
    assert!(s.start_github_device_auth(None, 6).is_ok());
    assert!(s.start_github_device_auth(addr, 61 * SECOND).is_ok());
}

#[test]
fn a_login_waits_until_its_user_decides() {
    let mut s = service();
    let id = begin_login(&mut s, 0);
    let err = s.finish_github_device_auth(None, "", 1).unwrap_err();
    assert_eq!(err.message(), "auth_session_id required");
    let err = s.finish_github_device_auth(None, "nope", 1).unwrap_err();
    assert_eq!(err.code(), Code::NotFound);

    let interval = |polled: PolledLogin| match polled {
        PolledLogin::Waiting(reply) => match reply.result {
            Some(DeviceAuthResult::Pending(pending)) => pending.interval,
            _ => panic!("expected to wait"),
        },
        PolledLogin::Authorized(_) => panic!("expected to wait"),
    };
    let login = s.finish_github_device_auth(None, &id, 1).unwrap();
    assert_eq!(login.interval, 5);
    let polled = s.login_polled(login, Ok(DeviceAuthPoll::Pending { interval: None })).unwrap();
    assert_eq!(interval(polled), 5);
    let login = s.finish_github_device_auth(None, &id, 2).unwrap();
    let polled = s.login_polled(login, Ok(DeviceAuthPoll::SlowDown { interval: None })).unwrap();
    assert_eq!(interval(polled), 10);
    let login = s.finish_github_device_auth(None, &id, 3).unwrap();
    assert_eq!(login.interval, 10);
    let polled =
        s.login_polled(login, Ok(DeviceAuthPoll::SlowDown { interval: Some(30) })).unwrap();
    assert_eq!(interval(polled), 30);

    let login = s.finish_github_device_auth(None, &id, 4).unwrap();
    assert_eq!(login.interval, 30);
    let failed = Status::new(Code::PermissionDenied, "denied");
    let err = s.login_polled(login, Err(failed)).unwrap_err();
    assert_eq!(err.message(), "denied");
    let err = s.finish_github_device_auth(None, &id, 5).unwrap_err();
    assert_eq!(err.code(), Code::NotFound);
}

#[test]
fn a_failed_login_leaves_the_others_alone() {
    let mut s = service();
    let mine = begin_login(&mut s, 0);
    let theirs = begin_login(&mut s, 0);
    assert_ne!(mine, theirs);
    let login = s.finish_github_device_auth(None, &mine, 1).unwrap();
    let failed = Status::new(Code::DeadlineExceeded, "expired");
    assert!(s.login_polled(login, Err(failed)).is_err());
    assert!(s.finish_github_device_auth(None, &mine, 2).is_err());
    assert!(s.finish_github_device_auth(None, &theirs, 2).is_ok());
}

#[test]
fn seconds_are_counted_from_the_epoch() {
    assert_eq!(counted_seconds(Some(7)), Some(7));
    assert_eq!(counted_seconds(None), None);
    assert_eq!(counted_seconds(Some(u64::MAX)), None);
    assert!(now_unix().unwrap() > 1_600_000_000);
}

fn blob(value: &SqlValue) -> Vec<u8> {
    match value {
        SqlValue::Blob(bytes) => bytes.clone(),
        _ => panic!("expected bytes"),
    }
}

fn string(value: &SqlValue) -> String {
    match value {
        SqlValue::Text(text) => text.clone(),
        _ => panic!("expected a text"),
    }
}

fn integer(value: &SqlValue) -> i64 {
    match value {
        SqlValue::Integer(n) => *n,
        _ => panic!("expected a number"),
    }
}

fn filed(record: &Statement) -> RefreshSessionRecord {
    RefreshSessionRecord {
        selector: string(&record.params[0]),
        token_hash: blob(&record.params[1]),
        identity: string(&record.params[2]),
        permissions_json: string(&record.params[3]),
        expires_at: integer(&record.params[5]),
        revoked_at: None,
    }
}

fn user(login: &str) -> Result<GitHubUser, String> {
    Ok(GitHubUser {
        login: login.to_string(),
    })
}

#[test]
fn a_member_logs_in_and_stays_logged_in() {
    let mut s = service();
    let id = begin_login(&mut s, 0);
    let login = s.finish_github_device_auth(None, &id, 1).unwrap();
    let complete = DeviceAuthPoll::Complete {
        access_token: "gho".to_string(),
        scope: "read:org".to_string(),
        token_type: "bearer".to_string(),
    };
    let asked = match s.login_polled(login, Ok(complete)).unwrap() {
        PolledLogin::Authorized(asked) => asked,
        PolledLogin::Waiting(_) => panic!("expected an authorised user"),
    };
    assert_eq!(asked.request.url, "https://api.github.com/user");
    assert!(s.user_identified(asked.clone(), &answered(401), user("alice")).is_err());
    let check = s.user_identified(asked, &answered(200), user("alice")).unwrap();
    assert_eq!(check.request.url, "https://api.github.com/orgs/acme/members/alice");
    assert!(s.membership_checked(check.clone(), &answered(404)).is_err());
    let member = s.membership_checked(check, &answered(204)).unwrap();
    assert_eq!(member.identity, "github:alice");
    assert_eq!(member.permissions.len(), 8);

    let session = s
        .issue_auth_response(member.identity.clone(), member.permissions.clone())
        .unwrap()
        .unwrap();
    let record = filed(&session.record);
    let err = s
        .login_recorded(&id, session.clone(), Err("locked".to_string()))
        .unwrap_err();
    assert_eq!(err.message(), "failed to create refresh session: locked");
    assert!(s.finish_github_device_auth(None, &id, 2).is_ok());
    let reply = s.login_recorded(&id, session, Ok(())).unwrap();
    assert!(s.finish_github_device_auth(None, &id, 3).is_err());
    let given = match reply.result {
        Some(DeviceAuthResult::Auth(given)) => given,
        _ => panic!("expected tokens"),
    };
    assert_eq!(given.identity, "github:alice");
    assert_eq!(verify_token(b"jwt", &given.session_token).unwrap().sub, "github:alice");
    let created_at = record.expires_at - 2_592_000;
    assert_eq!(given.refresh_expires_at, record.expires_at);
    assert!(!given.refresh_token.contains(&format!("{:?}", record.token_hash)));

    let sought = s.refresh_session(&given.refresh_token).unwrap();
    assert_eq!(sought.selector, record.selector);
    assert_eq!(texts(&sought.lookup), vec![record.selector.clone()]);
    let found = s.session_found(sought, Ok(Some(record.clone())), created_at + 60).unwrap();
    assert_eq!(found.permissions, given.permissions);
    let rotated = s.session_refreshed(found).unwrap().unwrap();
    assert_eq!(integer(&rotated.rotation.change.params[0]), created_at + 60);
    assert_eq!(string(&rotated.rotation.change.params[1]), record.selector);
    assert_ne!(filed(&rotated.rotation.follow).selector, record.selector);
    let err = s.session_rotated(rotated.clone(), Err("no rows".to_string())).unwrap_err();
    assert_eq!(err.message(), "failed to rotate refresh session: no rows");
    assert!(rotated.rotation.in_transaction);
    let mut retired = record.clone();
    retired.revoked_at = Some(created_at + 60);
    let again = s.refresh_session(&given.refresh_token).unwrap();
    let err = s.session_found(again, Ok(Some(retired)), created_at + 61).unwrap_err();
    assert_eq!(err.code(), Code::Unauthenticated);
    let next = s.refresh_session(&rotated.response.refresh_token).unwrap();
    let next_record = filed(&rotated.rotation.follow);
    assert_eq!(next.selector, next_record.selector);
    let next = s.session_found(next, Ok(Some(next_record)), created_at + 61).unwrap();
    assert_eq!(next.identity, given.identity);
    assert_eq!(next.permissions, given.permissions);
    let fresh = s.session_rotated(rotated, Ok(())).unwrap();
    assert_eq!(fresh.identity, "github:alice");
    assert_eq!(fresh.permissions, given.permissions);
    assert_ne!(fresh.refresh_token, given.refresh_token);
    assert_eq!(fresh.refresh_expires_at, created_at + 60 + 2_592_000);

    let revoke = s.logout(&fresh.refresh_token, 99).unwrap();
    assert_eq!(integer(&revoke.params[0]), 99);
    assert!(s.logged_out(Ok(1)).unwrap());
    assert!(!s.logged_out(Ok(0)).unwrap());
    assert_eq!(
        s.logged_out(Err("locked".to_string())).unwrap_err().message(),
        "database error: locked"
    );
    assert!(s.logout("nonsense", 99).is_err());
}

#[test]
fn session_is_issued_with_what_is_to_be_had() {
    let token = || Ok(("jwt".to_string(), 100));
    let refresh = || Some(refresh_token_of("selector".to_string(), "secret"));
    let who = || "github:alice".to_string();
    let session = session_issued(token(), refresh(), who(), vec![], Some(7))
        .unwrap()
        .unwrap();
    assert_eq!(session.response.session_token, "jwt");
    assert_eq!(session.response.expires_at, 100);
    assert_eq!(session.response.refresh_token, "selector.secret");
    assert_eq!(session.response.refresh_expires_at, 7 + 2_592_000);
    assert_eq!(filed(&session.record).selector, "selector");
    assert!(session_issued(token(), None, who(), vec![], Some(7)).is_none());
    assert!(session_issued(token(), refresh(), who(), vec![], None).is_none());
    let refused = session_issued(Err("no key".to_string()), None, who(), vec![], None)
        .unwrap()
        .unwrap_err();
    assert_eq!(refused.message(), "token creation failed: no key");
}

#[test]
fn session_is_replaced_with_what_is_to_be_had() {
    let old = || SessionToRefresh {
        selector: "old".to_string(),
        identity: "github:alice".to_string(),
        permissions: vec![],
        now: 7,
    };
    let token = || Ok(("jwt".to_string(), 100));
    let refresh = refresh_token_of("new".to_string(), "secret");
    let replaced = session_replaced(token(), Some(refresh), old()).unwrap().unwrap();
    assert_eq!(replaced.response.refresh_token, "new.secret");
    assert_eq!(string(&replaced.rotation.change.params[1]), "old");
    assert_eq!(filed(&replaced.rotation.follow).selector, "new");
    assert!(session_replaced(token(), None, old()).is_none());
    let refused = session_replaced(Err("no key".to_string()), None, old())
        .unwrap()
        .unwrap_err();
    assert_eq!(refused.message(), "token creation failed: no key");
}

#[test]
fn session_starts_where_its_end_can_be_reached() {
    assert_eq!(session_start_at(Some(7)), Some(7));
    assert_eq!(session_start_at(Some(i64::MAX - 2_592_000)), Some(i64::MAX - 2_592_000));
    assert_eq!(session_start_at(Some(i64::MAX - 2_591_999)), None);
    assert_eq!(session_start_at(None), None);
}

#[test]
fn secrets_are_made_of_the_bytes_to_be_had() {
    assert_eq!(hex_of_any(Some(vec![0, 171, 255]), 2).unwrap(), "00ab");
    assert_eq!(hex_of_any(Some(vec![0, 171, 255]), 9).unwrap(), "00abff");
    assert!(hex_of_any(None, 2).is_none());
    let part = |text: &str| Some(text.to_string());
    let made = refresh_token_of_any(part("ab"), part("cd")).unwrap();
    assert_eq!(made.token, "ab.cd");
    assert_eq!(made.selector, "ab");
    assert_eq!(made.token_hash, hash_refresh_secret("cd"));
    assert!(refresh_token_of_any(None, part("cd")).is_none());
    assert!(refresh_token_of_any(part("ab"), None).is_none());
}

#[test]
fn spent_sessions_are_refused() {
    let s = service();
    let record = RefreshSessionRecord {
        selector: "sel".to_string(),
        token_hash: hash_refresh_secret("secret"),
        identity: "github:alice".to_string(),
        permissions_json: r#"["branches.list"]"#.to_string(),
        expires_at: 100,
        revoked_at: None,
    };
    let refresh = |token: &str, record: RefreshSessionRecord, now: i64| {
        let sought: SessionToFind = s.refresh_session(token).unwrap();
        s.session_found(sought, Ok(Some(record)), now)
    };
    assert_eq!(
        refresh("sel.secret", record.clone(), 99).unwrap().permissions,
        vec!["branches.list"]
    );
    let over = "refresh session expired — run `supabased login` again";
    assert_eq!(refresh("sel.secret", record.clone(), 100).unwrap_err().message(), over);
    let revoked = RefreshSessionRecord {
        revoked_at: Some(5),
        ..record.clone()
    };
    assert_eq!(refresh("sel.secret", revoked, 50).unwrap_err().message(), over);
    let err = refresh("sel.other", record.clone(), 50).unwrap_err();
    assert_eq!(err.code(), Code::Unauthenticated);
    assert_eq!(err.message(), "invalid refresh token");
    let corrupt = RefreshSessionRecord {
        permissions_json: "{".to_string(),
        ..record
    };
    let err = refresh("sel.secret", corrupt, 50).unwrap_err();
    assert_eq!(err.code(), Code::Internal);
    assert!(err.message().starts_with("stored permissions are invalid: "));
    let sought = s.refresh_session("sel.secret").unwrap();
    assert_eq!(
        s.session_found(sought, Ok(None), 1).unwrap_err().message(),
        "invalid refresh token"
    );
    let sought = s.refresh_session("sel.secret").unwrap();
    assert_eq!(
        s.session_found(sought, Err("locked".to_string()), 1).unwrap_err().message(),
        "database error: locked"
    );
    assert!(s.refresh_session("nodot").is_err());
}

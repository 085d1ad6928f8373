use supabased::client::{
    branch_credentials_terminal_output, ca_cert, cache_is_current, config_after_login,
    config_path, created_branch_message, demo_delete_success_message, demo_states_text,
    load_config, login_server, projects_text, remember_projects,
    require_cli_restore_confirmation, restored_state_message, saved_state_message, server_url,
    uses_tls, Config, LoginStep, LoginWait, DEFAULT_SERVER_URL,
};
use supabased::dotenv::{format_supabase_block, update_dotenv};
use supabased::listen::{is_loopback, listen_mode, ListenMode};
use supabased::messages::{
    AuthResponse, BranchInfo, BranchOwnership, DeleteDemoStateResponse, DemoStateInfo,
    DeviceAuthResult, FinishGithubDeviceAuthResponse, GithubDeviceAuthPending,
    StartGithubDeviceAuthResponse,
};
use supabased::rate_limit::ClientAddr;
use supabased::session::{
    load_session, needs_refresh, refreshed_session, session_path, Session, SessionSource,
};
use supabased::tree::{render_branch_tree, render_project_tree};

#[test]
fn restore_confirmation_flag_is_required_locally() {
    let err = require_cli_restore_confirmation(false).unwrap_err();
    assert!(err.contains("--confirm-overwrite-main"));
    assert!(require_cli_restore_confirmation(true).is_ok());
}

#[test]
fn branch_credentials_terminal_output_omits_secret_key() {
    let output = branch_credentials_terminal_output(
        "staging",
        "feature",
        "https://branch-ref.supabase.co",
        "sb_publishable_value",
    );

    assert_eq!(
        output,
        "Branch: staging/feature\n  SUPABASE_URL=https://branch-ref.supabase.co\n  SUPABASE_PUBLISHABLE_KEY=sb_publishable_value"
    );
    assert!(!output.contains("SUPABASE_SECRET_KEY"));
    assert!(!output.contains("sb_secret_"));
}

#[test]
fn demo_delete_message_reports_remote_delete() {
    let response = DeleteDemoStateResponse {
        deleted: true,
        project_name: "staging".to_string(),
        name: "happy path".to_string(),
        branch_name: "demo/happy-path".to_string(),
        branch_ref: "branch-ref".to_string(),
        remote_branch_deleted: true,
        remote_branch_missing: false,
    };

    assert_eq!(
        demo_delete_success_message(&response),
        "Deleted demo state 'happy path' for project 'staging' and branch 'demo/happy-path'."
    );
}

#[test]
fn demo_delete_message_reports_missing_remote_branch() {
    let response = DeleteDemoStateResponse {
        deleted: true,
        project_name: "staging".to_string(),
        name: "happy path".to_string(),
        branch_name: "demo/happy-path".to_string(),
        branch_ref: "branch-ref".to_string(),
        remote_branch_deleted: false,
        remote_branch_missing: true,
    };

    assert_eq!(
        demo_delete_success_message(&response),
        "Deleted demo state 'happy path' for project 'staging'; branch 'demo/happy-path' was already gone."
    );
}

fn branch(name: &str, project: &str, status: &str, ownership: BranchOwnership) -> BranchInfo {
    BranchInfo {
        branch_name: name.to_string(),
        project_name: project.to_string(),
        status: status.to_string(),
        created_at: String::new(),
        ownership,
    }
}

#[test]
fn multiple_projects() {
    let branches = vec![
        branch("feat-a", "staging", "ACTIVE_HEALTHY", BranchOwnership::Yours),
        branch("experiment", "staging", "CREATING_PROJECT", BranchOwnership::Other),
        branch("hotfix", "production", "ACTIVE_HEALTHY", BranchOwnership::Untracked),
    ];
    let output = render_branch_tree(&branches);
    assert_eq!(
        output,
        "production\n└── hotfix (ACTIVE_HEALTHY, UNTRACKED)\n\nstaging\n├── feat-a (ACTIVE_HEALTHY, YOURS)\n└── experiment (CREATING_PROJECT, OTHER)"
    );
}

#[test]
fn single_project() {
    let branches = vec![branch(
        "my-branch",
        "staging",
        "ACTIVE_HEALTHY",
        BranchOwnership::Yours,
    )];
    let output = render_branch_tree(&branches);
    assert_eq!(output, "staging\n└── my-branch (ACTIVE_HEALTHY, YOURS)");
}

#[test]
fn empty_branches() {
    let output = render_branch_tree(&[]);
    assert_eq!(output, "No branches found.");
}

#[test]
fn branch_without_status() {
    let branches = vec![branch("my-branch", "staging", "", BranchOwnership::Untracked)];
    let output = render_branch_tree(&branches);
    assert_eq!(output, "staging\n└── my-branch (UNTRACKED)");
}

#[test]
fn unspecified_ownership_is_omitted() {
    let branches = vec![branch(
        "my-branch",
        "staging",
        "ACTIVE_HEALTHY",
        BranchOwnership::Unspecified,
    )];
    let output = render_branch_tree(&branches);
    assert_eq!(output, "staging\n└── my-branch (ACTIVE_HEALTHY)");
}

#[test]
fn projects_of_a_tree_are_sorted_and_stand_once() {
    let branches = vec![
        branch("1", "b", "", BranchOwnership::Unspecified),
        branch("2", "ab", "", BranchOwnership::Unspecified),
        branch("3", "a", "", BranchOwnership::Unspecified),
        branch("4", "b", "", BranchOwnership::Unspecified),
        branch("5", "é", "", BranchOwnership::Unspecified),
        branch("6", "B", "", BranchOwnership::Unspecified),
    ];
    assert_eq!(
        render_branch_tree(&branches),
        "B\n└── 6\n\na\n└── 3\n\nab\n└── 2\n\nb\n├── 1\n└── 4\n\né\n└── 5"
    );
}

#[test]
fn format_block() {
    let block = format_supabase_block(
        "staging",
        "my-branch",
        "https://ref-abc.supabase.co",
        "sb_publishable_value",
        "secret-key",
    );
    assert!(block.starts_with("# Supabase Configuration - staging/my-branch"));
    assert!(block.contains("SUPABASE_URL=https://ref-abc.supabase.co"));
    assert!(block.contains("SUPABASE_PUBLISHABLE_KEY=sb_publishable_value"));
    assert!(block.contains("SUPABASE_KEY=sb_publishable_value"));
    assert!(block.contains("SUPABASE_SECRET_KEY=secret-key"));
}

#[test]
fn creates_new_file() {
    let block = format_supabase_block("s", "b", "url", "key", "secret");
    let contents = update_dotenv(None, &block);
    assert!(contents.starts_with("# Supabase Configuration"));
    assert!(contents.ends_with('\n'));
}

#[test]
fn appends_to_existing_without_supabase_block() {
    let block = format_supabase_block("s", "b", "url", "key", "secret");
    let contents = update_dotenv(Some("OTHER_VAR=hello\n"), &block);
    assert!(contents.starts_with("OTHER_VAR=hello\n"));
    assert!(contents.contains("SUPABASE_URL=url"));
}

#[test]
fn replaces_existing_block_in_place() {
    let old = "OTHER=1\n\n# Supabase Configuration - old/old\nSUPABASE_URL=old\nSUPABASE_KEY=old\nSUPABASE_SECRET_KEY=old\n\nANOTHER=2\n";
    let block = format_supabase_block("s", "b", "new-url", "new-key", "new-secret");
    let contents = update_dotenv(Some(old), &block);
    assert!(contents.contains("SUPABASE_URL=new-url"));
    assert!(contents.contains("SUPABASE_PUBLISHABLE_KEY=new-key"));
    assert!(contents.contains("SUPABASE_KEY=new-key"));
    assert!(!contents.contains("SUPABASE_URL=old"));
    assert!(contents.contains("OTHER=1"));
    assert!(contents.contains("ANOTHER=2"));
}

#[test]
fn blocks_are_separated_by_a_blank_line() {
    assert_eq!(update_dotenv(Some(""), "block"), "block\n");
    assert_eq!(update_dotenv(Some("A=1"), "block"), "A=1\n\nblock\n");
    assert_eq!(update_dotenv(Some("A=1\n"), "block"), "A=1\n\nblock\n");
}

#[test]
fn the_latest_update_of_a_block_counts() {
    let old = "A=1\n# Supabase Configuration - x/y\nSUPABASE_URL=old\n\nB=2\n";
    let first = format_supabase_block("s", "b", "one", "k", "k");
    let second = format_supabase_block("s", "b", "two", "k", "k");
    let twice = update_dotenv(Some(&update_dotenv(Some(old), &first)), &second);
    assert_eq!(twice, update_dotenv(Some(old), &second));
    assert_eq!(twice, format!("A=1\n{second}\n\nB=2\n"));

    let appended = update_dotenv(Some("A=1\n"), &first);
    assert_eq!(
        update_dotenv(Some(&appended), &second),
        format!("A=1\n\n{second}")
    );
}

fn empty_config() -> Config {
    load_config(None)
}

#[test]
fn server_is_asked_for_then_configured_then_local() {
    let mut config = empty_config();
    assert_eq!(server_url(&None, &config), "http://[::1]:50051");
    assert_eq!(server_url(&None, &config), DEFAULT_SERVER_URL);
    config = config_after_login(config, "https://host:1", Some("ca.pem".to_string()));
    assert_eq!(server_url(&None, &config), "https://host:1");
    assert_eq!(server_url(&Some("http://x".to_string()), &config), "http://x");
    assert_eq!(ca_cert(None, &config).as_deref(), Some("ca.pem"));
    assert_eq!(
        ca_cert(Some("mine.pem".to_string()), &config).as_deref(),
        Some("mine.pem")
    );
    assert!(uses_tls("https://host:1"));
    assert!(!uses_tls("http://host:1"));
    assert_eq!(login_server("\n", "http://x"), "http://x");
    assert_eq!(login_server("  https://y \n", "http://x"), "https://y");
    assert_eq!(config_path("/home/a/.config"), "/home/a/.config/supabased/config.json");
    assert_eq!(config_path("/home/a/.config/"), "/home/a/.config/supabased/config.json");
    assert_eq!(session_path("/"), "/supabased/session.json");
    assert_eq!(session_path(""), "supabased/session.json");
}

#[test]
fn projects_are_remembered_under_the_servers_version() {
    let config = empty_config();
    let version = Some("v1".to_string());
    assert!(cache_is_current(&None, &config));
    assert!(!cache_is_current(&version, &config));
    let names = vec!["staging".to_string(), "prod".to_string()];
    let config = remember_projects(config, &names, version.clone());
    assert!(cache_is_current(&version, &config));
    assert!(!cache_is_current(&None, &config));
    assert!(!cache_is_current(&Some("v2".to_string()), &config));
    let cached = config.cached_projects.unwrap();
    assert_eq!(cached.len(), 2);
    assert_eq!(cached[1].name, "prod");
}

fn session(expires_at: i64) -> Session {
    Session {
        session_token: "token".to_string(),
        identity: "github:alice".to_string(),
        expires_at,
        refresh_token: "a.b".to_string(),
        refresh_expires_at: 1_000_000,
    }
}

#[test]
fn sessions_are_loaded_until_they_are_over() {
    let path = session_path("/home/a/.config");
    assert_eq!(path, "/home/a/.config/supabased/session.json");
    let err = load_session(&path, SessionSource::Missing, 10).unwrap_err();
    assert_eq!(
        err,
        "not logged in — run `supabased login` first\n  (no session file at /home/a/.config/supabased/session.json)"
    );
    let err = load_session(&path, SessionSource::Corrupt("eof".to_string()), 10).unwrap_err();
    assert_eq!(
        err,
        "corrupt session file at /home/a/.config/supabased/session.json: eof"
    );
    let err = load_session(&path, SessionSource::Found(session(10)), 10).unwrap_err();
    assert_eq!(err, "session expired — run `supabased login` again");
    let found = load_session(&path, SessionSource::Found(session(11)), 10).unwrap();
    assert!(needs_refresh(&found, 10));
    assert!(needs_refresh(&session(310), 10));
    assert!(!needs_refresh(&session(311), 10));
}

fn tokens() -> AuthResponse {
    AuthResponse {
        session_token: "new".to_string(),
        identity: "github:alice".to_string(),
        permissions: vec!["info.read".to_string()],
        expires_at: 7,
        refresh_token: "c.d".to_string(),
        refresh_expires_at: 8,
    }
}

#[test]
fn a_refreshed_session_has_the_new_tokens() {
    let session = refreshed_session(Some(tokens())).unwrap();
    assert_eq!(session.session_token, "new");
    assert_eq!(session.identity, "github:alice");
    assert_eq!(session.expires_at, 7);
    assert_eq!(session.refresh_token, "c.d");
    assert_eq!(session.refresh_expires_at, 8);
    assert_eq!(
        refreshed_session(None).unwrap_err(),
        "session expired — run `supabased login` again"
    );
}

#[test]
fn a_login_is_waited_for_until_its_deadline() {
    let start = StartGithubDeviceAuthResponse {
        auth_session_id: "id".to_string(),
        user_code: "code".to_string(),
        verification_uri: "uri".to_string(),
        expires_in: 10,
        interval: 0,
    };
    let wait = LoginWait::begin(&start, 5_000_000_000);
    assert_eq!(wait.next(5_000_000_000).unwrap(), 1);
    assert_eq!(wait.next(14_999_999_999).unwrap(), 1);
    assert_eq!(
        wait.next(15_000_000_000).unwrap_err(),
        "GitHub authorization expired; run `supabased login` again"
    );
    let pending = |interval: i64| FinishGithubDeviceAuthResponse {
        result: Some(DeviceAuthResult::Pending(GithubDeviceAuthPending {
            interval,
            message: String::new(),
        })),
    };
    match wait.answered(pending(9)).unwrap() {
        LoginStep::Wait(wait) => {
            assert_eq!(wait.next(6_000_000_000).unwrap(), 9);
            assert_eq!(wait.deadline, 15_000_000_000);
        }
        LoginStep::LoggedIn(_) => panic!("expected to wait"),
    }
    match wait
        .answered(FinishGithubDeviceAuthResponse {
            result: Some(DeviceAuthResult::Auth(tokens())),
        })
        .unwrap()
    {
        LoginStep::LoggedIn(given) => assert_eq!(given.session_token, "new"),
        LoginStep::Wait(_) => panic!("expected tokens"),
    }
    assert_eq!(
        wait.answered(FinishGithubDeviceAuthResponse { result: None }).unwrap_err(),
        "server returned an empty OAuth polling response"
    );
}

fn state(name: &str, last_restored_at: &str) -> DemoStateInfo {
    DemoStateInfo {
        project_name: "staging".to_string(),
        name: name.to_string(),
        branch_name: format!("demo/{name}"),
        branch_ref: "ref".to_string(),
        creator_identity: "github:alice".to_string(),
        created_at: "2026-01-01".to_string(),
        last_restored_at: last_restored_at.to_string(),
    }
}

#[test]
fn lists_are_printed_line_by_line() {
    assert_eq!(projects_text(&vec![]), "No projects configured.");
    assert_eq!(
        projects_text(&vec!["a".to_string(), "b".to_string()]),
        "Configured projects:\n  a\n  b"
    );
    assert_eq!(demo_states_text(&vec![]), "No demo states saved.");
    assert_eq!(
        demo_states_text(&vec![state("a", ""), state("b", "2026-02-02")]),
        "Saved demo states:\n  a  branch=demo/a  created=2026-01-01  last_restored=never\n  b  branch=demo/b  created=2026-01-01  last_restored=2026-02-02"
    );
}

#[test]
fn successes_are_printed() {
    assert_eq!(
        saved_state_message(&state("a", "")),
        "Saved demo state 'a' for project 'staging' as branch 'demo/a'"
    );
    assert_eq!(
        restored_state_message(&state("a", "")),
        "Restored demo state 'a' onto project 'staging'"
    );
    assert_eq!(
        created_branch_message(&branch("x", "staging", "READY", BranchOwnership::Yours)),
        "Created branch 'x' in project 'staging' (status: READY)"
    );
}

#[test]
fn plaintext_is_for_loopback_alone() {
    let local = ClientAddr::V4(u32::from_be_bytes([127, 0, 0, 1]));
    let public = ClientAddr::V4(u32::from_be_bytes([100, 1, 2, 3]));
    assert!(is_loopback(local) && is_loopback(ClientAddr::V6(1)));
    assert!(is_loopback(ClientAddr::V4(u32::from_be_bytes([127, 255, 0, 9]))));
    assert!(!is_loopback(public) && !is_loopback(ClientAddr::V6(0)));
    assert!(matches!(listen_mode(local, None, None), Ok(ListenMode::Plaintext)));
    assert_eq!(
        listen_mode(public, None, None).unwrap_err(),
        "TLS_CERT and TLS_KEY are required when binding plaintext outside loopback"
    );
    let file = |name: &str| Some(name.to_string());
    assert!(matches!(
        listen_mode(public, file("c"), file("k")),
        Ok(ListenMode::Tls { .. })
    ));
    assert_eq!(
        listen_mode(local, file("c"), None).unwrap_err(),
        "both TLS_CERT and TLS_KEY must be set, or neither"
    );
    assert!(listen_mode(local, None, file("k")).is_err());
}

#[test]
fn projects_without_branches_are_bare_headings() {
    let branches = vec![branch("my-branch", "staging", "", BranchOwnership::Yours)];
    let names = |names: &[&str]| names.iter().map(|n| n.to_string()).collect::<Vec<String>>();
    assert_eq!(
        render_project_tree(&names(&["web", "staging", "api"]), &branches),
        "api\n\nstaging\n└── my-branch (YOURS)\n\nweb"
    );
    assert_eq!(render_project_tree(&names(&["web", "api", "web"]), &[]), "api\n\nweb");
    assert_eq!(render_project_tree(&[], &branches), render_branch_tree(&branches));
    assert_eq!(render_project_tree(&[], &[]), "No branches found.");
}

use supabased::http::{HttpBody, HttpMethod, HttpReply};
use supabased::status::Code;
use supabased::supabase::{
    api_keys_url, create_branch_body, created_branch, deleted_branch, extract_credentials,
    listed_api_keys, listed_branches, ApiKeyResponse, BranchResponse, DeleteBranchOutcome,
    SupabaseClient,
};

#[test]
fn create_branch_body_does_not_set_git_branch_metadata() {
    let body: serde_json::Value =
        serde_json::from_str(&create_branch_body("demo/farmer")).unwrap();

    assert_eq!(body["branch_name"], "demo/farmer");
    assert_eq!(body["is_default"], false);
    assert_eq!(body["with_data"], true);
    assert!(body.get("git_branch").is_none());
    assert_eq!(body.as_object().unwrap().len(), 3);
}

#[test]
fn api_keys_url_requests_revealed_values() {
    assert_eq!(
        api_keys_url("branch-ref"),
        "https://api.supabase.com/v1/projects/branch-ref/api-keys?reveal=true"
    );
}

fn key(api_key: &str, name: Option<&str>, key_type: Option<&str>) -> ApiKeyResponse {
    ApiKeyResponse {
        api_key: api_key.into(),
        name: name.map(str::to_owned),
        key_type: key_type.map(str::to_owned),
    }
}

fn make_legacy_keys() -> Vec<ApiKeyResponse> {
    vec![
        key("legacy-anon", Some("anon"), Some("legacy")),
        key("legacy-service-role", Some("service_role"), Some("legacy")),
    ]
}

fn make_modern_keys() -> Vec<ApiKeyResponse> {
    vec![
        key(
            "sb_publishable_publishable-key-value",
            Some("default"),
            Some("publishable"),
        ),
        key("sb_secret_secret-key-value", Some("default"), Some("secret")),
    ]
}

#[test]
fn extract_credentials_rejects_legacy_only_keys() {
    let keys = make_legacy_keys();
    let error = extract_credentials(&keys, "branch-ref-abc")
        .err()
        .expect("legacy keys should be rejected");
    assert!(error.message().contains("no modern publishable API key"));
}

#[test]
fn extract_credentials_modern_keys() {
    let keys = make_modern_keys();
    let creds = extract_credentials(&keys, "branch-ref-xyz").unwrap();
    assert_eq!(creds.api_url, "https://branch-ref-xyz.supabase.co");
    assert_eq!(creds.publishable_key, "sb_publishable_publishable-key-value");
    assert_eq!(creds.secret_key, "sb_secret_secret-key-value");
}

#[test]
fn extract_credentials_ignores_legacy_keys_that_come_first() {
    let mut keys = make_legacy_keys();
    keys.extend(make_modern_keys());
    let creds = extract_credentials(&keys, "ref").unwrap();
    assert!(creds.publishable_key.starts_with("sb_publishable_"));
    assert!(creds.secret_key.starts_with("sb_secret_"));
}

#[test]
fn extract_credentials_requires_both_modern_key_types() {
    let only_publishable = vec![key(
        "sb_publishable_value",
        Some("default"),
        Some("publishable"),
    )];
    let error = extract_credentials(&only_publishable, "ref")
        .err()
        .expect("a secret key should be required");
    assert!(error.message().contains("no modern secret API key"));
}

#[test]
fn extract_credentials_empty_keys() {
    let error = extract_credentials(&[], "ref")
        .err()
        .expect("an empty key list should be rejected");
    assert!(error.message().contains("no modern publishable API key"));
}

#[test]
fn extract_credentials_prefers_default_among_multiple_candidates() {
    let keys = vec![
        key("sb_publishable_other", Some("other"), Some("publishable")),
        key("sb_publishable_default", Some("default"), Some("publishable")),
        key("sb_secret_other", Some("other"), Some("secret")),
        key("sb_secret_default", Some("default"), Some("secret")),
    ];
    let creds = extract_credentials(&keys, "ref").unwrap();
    assert_eq!(creds.publishable_key, "sb_publishable_default");
    assert_eq!(creds.secret_key, "sb_secret_default");
}

#[test]
fn extract_credentials_accepts_sole_non_default_candidates() {
    let keys = vec![
        key("sb_publishable_custom", Some("custom"), Some("publishable")),
        key("sb_secret_custom", Some("custom"), Some("secret")),
    ];
    let creds = extract_credentials(&keys, "ref").unwrap();
    assert_eq!(creds.publishable_key, "sb_publishable_custom");
    assert_eq!(creds.secret_key, "sb_secret_custom");
}

#[test]
fn extract_credentials_rejects_ambiguous_candidates() {
    let mut keys = make_modern_keys();
    keys[0].name = Some("one".into());
    keys.push(key("sb_publishable_two", Some("two"), Some("publishable")));
    let error = extract_credentials(&keys, "ref")
        .err()
        .expect("ambiguous keys should be rejected");
    assert!(error
        .message()
        .contains("without a unique key named 'default'"));
}

#[test]
fn extract_credentials_rejects_malformed_values_without_leaking_them() {
    let malformed = "wrong_publishable_sensitive-value";
    let keys = vec![
        key(malformed, Some("default"), Some("publishable")),
        key("sb_secret_valid", Some("default"), Some("secret")),
    ];
    let error = extract_credentials(&keys, "ref")
        .err()
        .expect("malformed keys should be rejected");
    assert!(error.message().contains("expected sb_publishable_ prefix"));
    assert!(!error.message().contains(malformed));
}

#[test]
fn extract_credentials_rejects_masked_values_without_leaking_them() {
    let masked = "sb_secret_********";
    let keys = vec![
        key("sb_publishable_valid", Some("default"), Some("publishable")),
        key(masked, Some("default"), Some("secret")),
    ];
    let error = extract_credentials(&keys, "ref")
        .err()
        .expect("masked keys should be rejected");
    assert!(error.message().contains("masked or incomplete"));
    assert!(!error.message().contains(masked));
}

#[test]
fn every_way_to_mask_a_key_is_noticed() {
    for suffix in ["", "abc*", "abc...", "abc\u{2026}", "\u{2022}\u{2022}"] {
        let keys = vec![
            key(&format!("sb_publishable_{suffix}"), None, Some("publishable")),
            key("sb_secret_valid", None, Some("secret")),
        ];
        let error = extract_credentials(&keys, "ref").unwrap_err();
        assert_eq!(error.code(), Code::Internal);
        assert!(error.message().contains("masked or incomplete"));
    }
}

fn answered(status: u16, body: &str) -> HttpReply {
    HttpReply::Answered {
        status,
        status_text: format!("{status} Text"),
        body: body.to_string(),
    }
}

fn branch_response() -> BranchResponse {
    BranchResponse {
        id: "branch-id".to_string(),
        name: None,
        project_ref: None,
        parent_project_ref: None,
        is_default: None,
        git_branch: None,
        status: None,
        created_at: None,
        updated_at: None,
    }
}

#[test]
fn replies_to_a_creation_are_told_apart() {
    let created = created_branch(&answered(201, ""), Ok(branch_response())).unwrap();
    assert_eq!(created.id, "branch-id");

    let err = created_branch(&answered(401, "no"), Ok(branch_response())).unwrap_err();
    assert_eq!(err.code(), Code::Unauthenticated);
    assert_eq!(err.message(), "Supabase access token is invalid or expired");

    let err = created_branch(&answered(500, "boom"), Ok(branch_response())).unwrap_err();
    assert_eq!(err.code(), Code::Internal);
    assert_eq!(err.message(), "Supabase API returned 500 Text: boom");

    let err = created_branch(&answered(200, ""), Err("eof".to_string())).unwrap_err();
    assert_eq!(err.message(), "failed to parse Supabase response: eof");

    let err = created_branch(&HttpReply::NotSent("dns".to_string()), Err(String::new())).unwrap_err();
    assert_eq!(err.code(), Code::Unavailable);
    assert_eq!(err.message(), "Supabase API request failed: dns");

    let err =
        created_branch(&HttpReply::NotBuilt("tls".to_string()), Err(String::new())).unwrap_err();
    assert_eq!(err.code(), Code::Internal);
    assert_eq!(err.message(), "failed to build Supabase HTTP client: tls");
}

#[test]
fn replies_to_a_deletion_are_told_apart() {
    assert_eq!(
        deleted_branch(&answered(200, "")).unwrap(),
        DeleteBranchOutcome::Deleted
    );
    assert_eq!(
        deleted_branch(&answered(404, "")).unwrap(),
        DeleteBranchOutcome::Missing
    );
    assert_eq!(
        deleted_branch(&answered(403, "no")).unwrap_err().message(),
        "Supabase API returned 403 Text: no"
    );
}

#[test]
fn lists_are_read_from_successful_replies() {
    let branches = listed_branches(&answered(200, ""), Ok(vec![branch_response()])).unwrap();
    assert_eq!(branches.len(), 1);
    assert!(listed_branches(&answered(401, ""), Ok(vec![])).is_err());
    let keys = listed_api_keys(&answered(200, ""), Ok(make_modern_keys())).unwrap();
    assert_eq!(keys.len(), 2);
    assert!(listed_api_keys(&answered(302, ""), Ok(vec![])).is_err());
}

#[test]
fn requests_name_the_account_and_the_place() {
    let client = SupabaseClient::new("token".to_string());
    let request = client.create_branch("proj", "demo/a");
    assert_eq!(request.method, HttpMethod::Post);
    assert_eq!(
        request.url,
        "https://api.supabase.com/v1/projects/proj/branches"
    );
    assert!(request
        .headers
        .contains(&("Authorization".to_string(), "Bearer token".to_string())));
    match &request.body {
        HttpBody::Json(body) => assert_eq!(body, &create_branch_body("demo/a")),
        _ => panic!("expected a JSON body"),
    }
    assert_eq!(client.list_branches("proj").method, HttpMethod::Get);
    let request = client.delete_branch("child");
    assert_eq!(request.method, HttpMethod::Delete);
    assert_eq!(request.url, "https://api.supabase.com/v1/branches/child");
    assert_eq!(client.get_api_keys("child").url, api_keys_url("child"));
}

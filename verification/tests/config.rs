use supabased::config::{load_config, ConfigSource, ProjectConfig, ServerConfig};

fn project(value: &toml::Value) -> ProjectConfig {
    let text = |name: &str| value.get(name).and_then(|v| v.as_str()).map(str::to_owned);
    ProjectConfig {
        name: text("name").unwrap(),
        project_ref: text("ref").unwrap(),
        demo: value.get("demo").and_then(|v| v.as_bool()).unwrap_or(false),
        database_password_env: text("database_password_env"),
    }
}

fn read(contents: &str) -> ConfigSource {
    match toml::from_str::<toml::Table>(contents) {
        Err(error) => ConfigSource::Malformed(error.to_string()),
        Ok(table) => ConfigSource::Parsed {
            contents: contents.to_string(),
            config: ServerConfig {
                projects: table["projects"].as_array().unwrap().iter().map(project).collect(),
            },
        },
    }
}

fn load(contents: &str) -> Result<(ServerConfig, String), String> {
    load_config("supabased.toml", read(contents))
}

#[test]
fn parses_valid_toml() {
    let (config, hash) = load(
        r#"
[[projects]]
name = "staging"
ref = "abcdefghijklmnop"

[[projects]]
name = "production"
ref = "qrstuvwxyz123456"
"#,
    )
    .unwrap();
    assert_eq!(config.projects.len(), 2);
    assert_eq!(config.projects[0].name, "staging");
    assert_eq!(config.projects[0].project_ref, "abcdefghijklmnop");
    assert_eq!(config.projects[1].name, "production");
    assert!(!hash.is_empty());
    assert_eq!(hash.len(), 64);
}

#[test]
fn rejects_missing_file() {
    let result = load_config(
        "/nonexistent/path.toml",
        ConfigSource::Unreadable("No such file or directory".to_string()),
    );
    assert!(result.is_err());
    assert!(result.unwrap_err().contains("failed to read"));
}

#[test]
fn rejects_malformed_toml() {
    let result = load("this is not valid toml {{{{");
    assert!(result.is_err());
    assert!(result.unwrap_err().contains("failed to parse"));
}

#[test]
fn rejects_empty_projects() {
    let result = load("projects = []");
    assert!(result.is_err());
    assert!(result.unwrap_err().contains("at least one"));
}

#[test]
fn resolve_project_finds_match() {
    let config = ServerConfig {
        projects: vec![
            ProjectConfig {
                name: "staging".into(),
                project_ref: "abc".into(),
                demo: false,
                database_password_env: None,
            },
            ProjectConfig {
                name: "prod".into(),
                project_ref: "xyz".into(),
                demo: false,
                database_password_env: None,
            },
        ],
    };
    let p = config.resolve_project("staging").unwrap();
    assert_eq!(p.project_ref, "abc");
}

#[test]
fn resolve_project_returns_none_for_unknown() {
    let config = ServerConfig {
        projects: vec![ProjectConfig {
            name: "staging".into(),
            project_ref: "abc".into(),
            demo: false,
            database_password_env: None,
        }],
    };
    assert!(config.resolve_project("unknown").is_none());
}

#[test]
fn hash_is_deterministic() {
    let contents = r#"
[[projects]]
name = "staging"
ref = "abcdefghijklmnop"
"#;
    let (_, hash1) = load(contents).unwrap();
    let (_, hash2) = load(contents).unwrap();
    assert_eq!(hash1, hash2);
}

#[test]
fn hash_changes_when_content_changes() {
    let (_, hash1) = load(
        r#"
[[projects]]
name = "staging"
ref = "abc"
"#,
    )
    .unwrap();
    let (_, hash2) = load(
        r#"
[[projects]]
name = "production"
ref = "xyz"
"#,
    )
    .unwrap();

    assert_ne!(hash1, hash2);
}

#[test]
fn omitted_demo_defaults_to_false() {
    let (config, _) = load(
        r#"
[[projects]]
name = "staging"
ref = "abcdefghijklmnop"
"#,
    )
    .unwrap();
    assert!(!config.projects[0].demo);
    assert!(config.projects[0].database_password_env.is_none());
}

#[test]
fn demo_project_requires_database_password_env() {
    let err = load(
        r#"
[[projects]]
name = "staging"
ref = "abcdefghijklmnop"
demo = true
"#,
    )
    .unwrap_err();
    assert!(err.contains("demo=true"));
    assert!(err.contains("database_password_env"));
}

#[test]
fn non_demo_project_does_not_require_database_password_env() {
    let (config, _) = load(
        r#"
[[projects]]
name = "staging"
ref = "abcdefghijklmnop"
demo = false
"#,
    )
    .unwrap();
    assert!(!config.projects[0].is_demo_project());
    assert!(config.projects[0].database_password_env.is_none());
}

#[test]
fn parses_demo_project_database_password_env() {
    let (config, _) = load(
        r#"
[[projects]]
name = "staging"
ref = "abcdefghijklmnop"
demo = true
database_password_env = "STAGING_DB_PASSWORD"
"#,
    )
    .unwrap();
    assert!(config.projects[0].is_demo_project());
    assert_eq!(
        config.projects[0].database_password_env.as_deref(),
        Some("STAGING_DB_PASSWORD")
    );
}

#[test]
fn projects_with_flaws_are_refused() {
    let err = load("[[projects]]\nname = \"\"\nref = \"a\"\n").unwrap_err();
    assert_eq!(err, "project entry in supabased.toml has empty name");
    let err = load("[[projects]]\nname = \"a\"\nref = \"\"\n").unwrap_err();
    assert_eq!(err, "project 'a' in supabased.toml has empty ref");
    let err = load(
        "[[projects]]\nname = \"a\"\nref = \"b\"\ndemo = true\ndatabase_password_env = \"  \"\n",
    )
    .unwrap_err();
    assert_eq!(
        err,
        "project 'a' in supabased.toml has demo=true but missing database_password_env"
    );
}

#[test]
fn hash_is_the_digest_of_the_contents() {
    let contents = "[[projects]]\nname = \"a\"\nref = \"b\"\n";
    let (_, hash) = load(contents).unwrap();
    let expected: String = <sha2::Sha256 as sha2::Digest>::digest(contents.as_bytes())
        .iter()
        .map(|b| format!("{b:02x}"))
        .collect();
    assert_eq!(hash, expected);
}

#[test]
fn project_database_connection_uses_supabase_conventions() {
    let config = ProjectConfig {
        name: "staging".into(),
        project_ref: "ref123".into(),
        demo: true,
        database_password_env: Some("SUPABASED_TEST_DB_PASSWORD_CONNECTION".into()),
    };
    assert_eq!(
        config.password_env().unwrap(),
        "SUPABASED_TEST_DB_PASSWORD_CONNECTION"
    );

    let conn = config
        .database_connection_for_ref("branch456", Some("secret".into()))
        .unwrap();
    assert_eq!(conn.host, "db.branch456.supabase.co");
    assert_eq!(conn.port, 5432);
    assert_eq!(conn.database, "postgres");
    assert_eq!(conn.user, "postgres");
    assert_eq!(conn.password, "secret");
}

#[test]
fn project_ref_maps_to_supabase_database_host() {
    let config = ProjectConfig {
        name: "staging".into(),
        project_ref: "ref123".into(),
        demo: true,
        database_password_env: Some("SUPABASED_TEST_DB_PASSWORD_PROJECT_REF".into()),
    };

    let conn = config
        .database_connection_for_ref(&config.project_ref, Some("secret".into()))
        .unwrap();
    assert_eq!(conn.host, "db.ref123.supabase.co");
}

#[test]
fn database_password_env_is_required_when_rendering() {
    let config = ProjectConfig {
        name: "staging".into(),
        project_ref: "abc".into(),
        demo: true,
        database_password_env: Some("SUPABASED_TEST_DB_PASSWORD_MISSING".into()),
    };

    let err = config.database_connection_for_ref("ref123", None).unwrap_err();
    assert!(err.contains("SUPABASED_TEST_DB_PASSWORD_MISSING"));
}

#[test]
fn database_password_env_config_is_required_when_rendering() {
    let config = ProjectConfig {
        name: "staging".into(),
        project_ref: "abc".into(),
        demo: true,
        database_password_env: None,
    };

    let err = config.database_connection_for_ref("ref123", None).unwrap_err();
    assert!(err.contains("database_password_env"));
    assert!(config.password_env().is_err());
}

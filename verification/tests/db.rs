use supabased::db;
use supabased::db::{BranchRecord, DemoStateRecord, RefreshSessionRecord, SqlValue, Statement, TwoSteps};
use tokio_rusqlite::rusqlite;
use tokio_rusqlite::rusqlite::types::Value;
use tokio_rusqlite::OptionalExtension;

fn test_conn() -> rusqlite::Connection {
    let conn = rusqlite::Connection::open_in_memory().unwrap();
    for (name, value) in db::pragmas() {
        conn.pragma_update(None, &name, &value).unwrap();
    }
    for migration in db::migrations() {
        conn.execute_batch(&migration).unwrap();
    }
    conn
}

fn values(statement: &Statement) -> Vec<Value> {
    statement
        .params
        .iter()
        .map(|p| match p {
            SqlValue::Integer(n) => Value::Integer(*n),
            SqlValue::Text(text) => Value::Text(text.clone()),
            SqlValue::Blob(bytes) => Value::Blob(bytes.clone()),
        })
        .collect()
}

fn execute(conn: &rusqlite::Connection, statement: &Statement) -> Result<usize, rusqlite::Error> {
    conn.execute(&statement.sql, rusqlite::params_from_iter(values(statement)))
}

fn branch(row: &rusqlite::Row<'_>) -> Result<BranchRecord, rusqlite::Error> {
    Ok(BranchRecord {
        branch_name: row.get(0)?,
        project_name: row.get(1)?,
        creator_identity: row.get(2)?,
        branch_ref: row.get(3)?,
        created_at: row.get(4)?,
    })
}

fn demo_state(row: &rusqlite::Row<'_>) -> Result<DemoStateRecord, rusqlite::Error> {
    Ok(DemoStateRecord {
        project_name: row.get(0)?,
        name: row.get(1)?,
        branch_name: row.get(2)?,
        branch_ref: row.get(3)?,
        creator_identity: row.get(4)?,
        created_at: row.get(5)?,
        last_restored_at: row.get(6)?,
    })
}

fn refresh_session(row: &rusqlite::Row<'_>) -> Result<RefreshSessionRecord, rusqlite::Error> {
    Ok(RefreshSessionRecord {
        selector: row.get(0)?,
        token_hash: row.get(1)?,
        identity: row.get(2)?,
        permissions_json: row.get(3)?,
        expires_at: row.get(4)?,
        revoked_at: row.get(5)?,
    })
}

fn one<T>(
    conn: &rusqlite::Connection,
    statement: &Statement,
    read: fn(&rusqlite::Row<'_>) -> Result<T, rusqlite::Error>,
) -> Option<T> {
    conn.query_row(&statement.sql, rusqlite::params_from_iter(values(statement)), read)
        .optional()
        .unwrap()
}

fn all<T>(
    conn: &rusqlite::Connection,
    statement: &Statement,
    read: fn(&rusqlite::Row<'_>) -> Result<T, rusqlite::Error>,
) -> Vec<T> {
    let mut prepared = conn.prepare(&statement.sql).unwrap();
    let rows = prepared
        .query_map(rusqlite::params_from_iter(values(statement)), read)
        .unwrap();
    rows.map(|r| r.unwrap()).collect()
}

fn two_steps(conn: &rusqlite::Connection, steps: TwoSteps) -> Option<Statement> {
    let rows = execute(conn, &steps.change).unwrap();
    steps.changed(rows)
}

#[test]
fn record_and_get_branch() {
    let conn = test_conn();
    execute(&conn, &db::record_branch("my-branch", "staging", "github:alice", "ref-abc")).unwrap();
    let branch = one(&conn, &db::get_branch("my-branch", "staging"), branch).unwrap();
    assert_eq!(branch.branch_name, "my-branch");
    assert_eq!(branch.project_name, "staging");
    assert_eq!(branch.creator_identity, "github:alice");
    assert_eq!(branch.branch_ref, "ref-abc");
}

#[test]
fn get_branch_returns_none_for_unknown() {
    let conn = test_conn();
    let result = one(&conn, &db::get_branch("nonexistent", "staging"), branch);
    assert!(result.is_none());
}

#[test]
fn list_branches_returns_correct_subset() {
    let conn = test_conn();
    execute(&conn, &db::record_branch("b1", "staging", "github:alice", "ref-1")).unwrap();
    execute(&conn, &db::record_branch("b2", "staging", "github:bob", "ref-2")).unwrap();
    execute(&conn, &db::record_branch("b3", "production", "github:alice", "ref-3")).unwrap();

    let staging = all(&conn, &db::list_branches_by_project("staging"), branch);
    assert_eq!(staging.len(), 2);

    let prod = all(&conn, &db::list_branches_by_project("production"), branch);
    assert_eq!(prod.len(), 1);
    assert_eq!(prod[0].branch_name, "b3");
}

#[test]
fn all_branches_are_listed_by_project() {
    let conn = test_conn();
    execute(&conn, &db::record_branch("b1", "staging", "github:alice", "ref-1")).unwrap();
    execute(&conn, &db::record_branch("b3", "production", "github:alice", "ref-3")).unwrap();
    let branches = all(&conn, &db::list_all_branches(), branch);
    assert_eq!(branches.len(), 2);
    assert_eq!(branches[0].project_name, "production");
    assert_eq!(branches[1].project_name, "staging");
}

#[test]
fn delete_branch_removes_row() {
    let conn = test_conn();
    execute(&conn, &db::record_branch("b1", "staging", "github:alice", "ref-1")).unwrap();
    let deleted = db::found_row(execute(&conn, &db::delete_branch("b1", "staging")).unwrap());
    assert!(deleted);
    let result = one(&conn, &db::get_branch("b1", "staging"), branch);
    assert!(result.is_none());
}

#[test]
fn delete_branch_returns_false_for_nonexistent() {
    let conn = test_conn();
    let deleted =
        db::found_row(execute(&conn, &db::delete_branch("nonexistent", "staging")).unwrap());
    assert!(!deleted);
}

#[test]
fn same_branch_name_different_projects() {
    let conn = test_conn();
    execute(&conn, &db::record_branch("feature", "staging", "github:alice", "ref-1")).unwrap();
    execute(&conn, &db::record_branch("feature", "production", "github:alice", "ref-2")).unwrap();

    let s = one(&conn, &db::get_branch("feature", "staging"), branch).unwrap();
    assert_eq!(s.branch_ref, "ref-1");
    let p = one(&conn, &db::get_branch("feature", "production"), branch).unwrap();
    assert_eq!(p.branch_ref, "ref-2");
}

#[test]
fn filed_branch_is_found_until_it_is_deleted() {
    let conn = test_conn();
    let record = |project: &str, creator: &str, branch_ref: &str| {
        execute(&conn, &db::record_branch("feature", project, creator, branch_ref))
    };
    let found = |project: &str| one(&conn, &db::get_branch("feature", project), branch);
    record("staging", "github:alice", "ref-1").unwrap();
    assert!(record("staging", "github:bob", "ref-2").is_err());
    record("production", "github:bob", "ref-3").unwrap();
    execute(&conn, &db::delete_branch("feature", "production")).unwrap();
    execute(&conn, &db::delete_branch("other", "staging")).unwrap();
    assert!(record("staging", "github:bob", "ref-2").is_err());
    let kept = found("staging").unwrap();
    assert_eq!(kept.creator_identity, "github:alice");
    assert_eq!(kept.branch_ref, "ref-1");
    assert!(found("production").is_none());
    execute(&conn, &db::delete_branch("feature", "staging")).unwrap();
    assert!(found("staging").is_none());
    record("staging", "github:bob", "ref-2").unwrap();
    assert_eq!(found("staging").unwrap().creator_identity, "github:bob");
}

#[test]
fn duplicate_branch_same_project_fails() {
    let conn = test_conn();
    execute(&conn, &db::record_branch("feature", "staging", "github:alice", "ref-1")).unwrap();
    let result = execute(&conn, &db::record_branch("feature", "staging", "github:bob", "ref-2"));
    assert!(result.is_err());
}

fn happy_path() -> Statement {
    db::record_demo_state(
        "staging",
        "happy path",
        "demo/happy-path",
        "branch-ref",
        "github:alice",
    )
}

#[test]
fn record_get_and_list_demo_states() {
    let conn = test_conn();
    execute(&conn, &happy_path()).unwrap();

    let state = one(&conn, &db::get_demo_state("staging", "happy path"), demo_state).unwrap();
    assert_eq!(state.project_name, "staging");
    assert_eq!(state.name, "happy path");
    assert_eq!(state.branch_name, "demo/happy-path");
    assert_eq!(state.branch_ref, "branch-ref");
    assert_eq!(state.creator_identity, "github:alice");
    assert_eq!(state.last_restored_at, None);

    let states = all(&conn, &db::list_demo_states_by_project("staging"), demo_state);
    assert_eq!(states.len(), 1);
    assert_eq!(states[0].name, "happy path");
}

#[test]
fn duplicate_demo_state_same_project_fails() {
    let conn = test_conn();
    execute(&conn, &happy_path()).unwrap();
    let result = execute(
        &conn,
        &db::record_demo_state(
            "staging",
            "happy path",
            "demo/happy-path-2",
            "branch-ref-2",
            "github:bob",
        ),
    );
    assert!(result.is_err());
}

#[test]
fn delete_demo_state_removes_row() {
    let conn = test_conn();
    execute(&conn, &happy_path()).unwrap();
    let deleted =
        db::found_row(execute(&conn, &db::delete_demo_state("staging", "happy path")).unwrap());
    assert!(deleted);

    let result = one(&conn, &db::get_demo_state("staging", "happy path"), demo_state);
    assert!(result.is_none());
}

#[test]
fn delete_demo_state_returns_false_for_unknown() {
    let conn = test_conn();
    let deleted =
        db::found_row(execute(&conn, &db::delete_demo_state("staging", "missing")).unwrap());
    assert!(!deleted);
}

#[test]
fn mark_demo_state_restored_updates_timestamp() {
    let conn = test_conn();
    execute(&conn, &happy_path()).unwrap();

    let follow = two_steps(&conn, db::mark_demo_state_restored("staging", "happy path")).unwrap();
    let state = one(&conn, &follow, demo_state).unwrap();
    assert!(state.last_restored_at.is_some());

    let missing = two_steps(&conn, db::mark_demo_state_restored("staging", "missing"));
    assert!(missing.is_none());
}

#[test]
fn refresh_session_stores_hash_only() {
    let conn = test_conn();
    let permissions = vec!["branches.list".to_string()];
    execute(
        &conn,
        &db::insert_refresh_session(
            "selector",
            b"hashed-secret",
            "github:alice",
            &permissions,
            10,
            20,
        ),
    )
    .unwrap();

    let session = one(&conn, &db::get_refresh_session("selector"), refresh_session).unwrap();
    assert_eq!(session.selector, "selector");
    assert_eq!(session.token_hash, b"hashed-secret");
    assert_eq!(session.identity, "github:alice");
    assert_eq!(session.permissions_json, r#"["branches.list"]"#);
    assert_eq!(session.expires_at, 20);
    assert_eq!(session.revoked_at, None);
}

#[test]
fn rotate_refresh_session_revokes_old_and_inserts_new() {
    let conn = test_conn();
    let permissions = vec!["branches.list".to_string()];
    execute(
        &conn,
        &db::insert_refresh_session("old", b"old-hash", "github:alice", &permissions, 10, 20),
    )
    .unwrap();

    let follow = two_steps(
        &conn,
        db::rotate_refresh_session(
            "old",
            "new",
            b"new-hash",
            "github:alice",
            &permissions,
            15,
            45,
        ),
    )
    .unwrap();
    execute(&conn, &follow).unwrap();

    let old = one(&conn, &db::get_refresh_session("old"), refresh_session).unwrap();
    let new = one(&conn, &db::get_refresh_session("new"), refresh_session).unwrap();
    assert_eq!(old.revoked_at, Some(15));
    assert_eq!(new.revoked_at, None);
    assert_eq!(new.token_hash, b"new-hash");
    assert_eq!(new.expires_at, 45);
}

#[test]
fn a_retired_session_is_not_rotated_again() {
    let conn = test_conn();
    let permissions = vec!["branches.list".to_string()];
    execute(
        &conn,
        &db::insert_refresh_session("old", b"old-hash", "github:alice", &permissions, 10, 20),
    )
    .unwrap();
    let rotation = || {
        db::rotate_refresh_session(
            "old",
            "new",
            b"new-hash",
            "github:alice",
            &permissions,
            15,
            45,
        )
    };
    assert!(rotation().in_transaction);
    assert!(!db::mark_demo_state_restored("staging", "happy path").in_transaction);
    let rows = execute(&conn, &rotation().change).unwrap();
    let follow = rotation().required(rows).unwrap();
    assert_eq!(follow.sql, rotation().follow.sql);
    let rows = execute(&conn, &rotation().change).unwrap();
    assert_eq!(
        rotation().required(rows).unwrap_err(),
        "Error(\"Query returned no rows\")"
    );
}

#[test]
fn revoke_refresh_session_marks_active_session() {
    let conn = test_conn();
    let permissions = vec!["branches.list".to_string()];
    execute(
        &conn,
        &db::insert_refresh_session("selector", b"hash", "github:alice", &permissions, 10, 20),
    )
    .unwrap();

    let revoke = |now: i64| {
        db::found_row(execute(&conn, &db::revoke_refresh_session("selector", now)).unwrap())
    };
    assert!(revoke(18));
    assert!(!revoke(19));

    let session = one(&conn, &db::get_refresh_session("selector"), refresh_session).unwrap();
    assert_eq!(session.revoked_at, Some(18));
}

fn secret(row: &rusqlite::Row<'_>) -> Result<Vec<u8>, rusqlite::Error> {
    row.get(0)
}

#[test]
fn jwt_secret_is_made_once_and_then_kept() {
    let conn = test_conn();
    let made = db::ensure_jwt_secret(one(&conn, &db::get_jwt_secret(), secret)).unwrap();
    assert_eq!(made.secret.len(), 32);
    execute(&conn, &made.record.unwrap()).unwrap();
    let kept = db::ensure_jwt_secret(one(&conn, &db::get_jwt_secret(), secret)).unwrap();
    assert_eq!(kept.secret, made.secret);
    assert!(kept.record.is_none());
    assert_ne!(db::ensure_jwt_secret(None).unwrap().secret, made.secret);
}

#[test]
fn jwt_secret_is_the_one_to_be_had() {
    let kept = db::jwt_secret_of(Some(vec![1]), Some(vec![2])).unwrap();
    assert_eq!(kept.secret, vec![1]);
    assert!(kept.record.is_none());
    let made = db::jwt_secret_of(None, Some(vec![2])).unwrap();
    assert_eq!(made.secret, vec![2]);
    assert_eq!(values(&made.record.unwrap()), vec![Value::Blob(vec![2])]);
    assert!(db::jwt_secret_of(None, None).is_none());
}

#[test]
fn database_files_are_those_beside_the_database() {
    assert_eq!(
        db::db_family("supabased.db"),
        vec!["supabased.db", "supabased.db-wal", "supabased.db-shm"]
    );
    assert!(db::db_family(":memory:").is_empty());
}

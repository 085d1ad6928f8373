//! What the server keeps in its database, and the statements by which it does so.

use vstd::prelude::*;

use crate::http::pair;
use crate::json::json_list;
use crate::secrets::generate_jwt_secret;
use crate::text::same_text;
use crate::{http, json, text};

verus! {

/// A value in the database.
#[derive(Clone, Debug)]
pub enum SqlValue {
    Integer(i64),
    Text(String),
    Blob(Vec<u8>),
}

pub enum SqlView {
    Integer(i64),
    Text(Seq<char>),
    Blob(Seq<u8>),
}

impl View for SqlValue {
    type V = SqlView;

    open spec fn view(&self) -> SqlView {
        match self {
            SqlValue::Integer(n) => SqlView::Integer(*n),
            SqlValue::Text(text) => SqlView::Text(text@),
            SqlValue::Blob(bytes) => SqlView::Blob(bytes@),
        }
    }
}

/// A statement with the values of its parameters, the first for `?1`.
#[derive(Clone, Debug)]
pub struct Statement {
    pub sql: String,
    pub params: Vec<SqlValue>,
}

#[verifier::ext_equal]
pub struct StatementView {
    pub sql: Seq<char>,
    pub params: Seq<SqlView>,
}

impl View for Statement {
    type V = StatementView;

    open spec fn view(&self) -> StatementView {
        StatementView { sql: self.sql@, params: self.params@.map_values(|p: SqlValue| p@) }
    }
}

/// The statement with this text and these values.
pub open spec fn statement(sql: Seq<char>, params: Seq<SqlView>) -> StatementView {
    StatementView { sql, params }
}

/// A branch and who created it.
#[derive(Clone, Debug)]
pub struct BranchRecord {
    pub branch_name: String,
    pub project_name: String,
    pub creator_identity: String,
    pub branch_ref: String,
    pub created_at: String,
}

/// A demo state and the branch that holds it.
#[derive(Clone, Debug)]
pub struct DemoStateRecord {
    pub project_name: String,
    pub name: String,
    pub branch_name: String,
    pub branch_ref: String,
    pub creator_identity: String,
    pub created_at: String,
    pub last_restored_at: Option<String>,
}

/// A session that can be refreshed. Of its secret, only the digest is kept.
#[derive(Clone, Debug)]
pub struct RefreshSessionRecord {
    pub selector: String,
    pub token_hash: Vec<u8>,
    pub identity: String,
    pub permissions_json: String,
    pub expires_at: i64,
    pub revoked_at: Option<i64>,
}

pub const CREATE_JWT_SECRETS: &'static str = "CREATE TABLE jwt_secrets (
    id INTEGER PRIMARY KEY CHECK (id = 1),
    secret BLOB NOT NULL,
    created_at TEXT NOT NULL DEFAULT (datetime('now'))
);";

pub const CREATE_BRANCHES: &'static str = "CREATE TABLE branches (
    branch_name TEXT NOT NULL,
    project_name TEXT NOT NULL,
    creator_identity TEXT NOT NULL,
    branch_ref TEXT NOT NULL,
    created_at TEXT NOT NULL DEFAULT (datetime('now')),
    PRIMARY KEY (branch_name, project_name)
);";

pub const CREATE_REFRESH_SESSIONS: &'static str = "CREATE TABLE refresh_sessions (
    selector TEXT PRIMARY KEY,
    token_hash BLOB NOT NULL,
    identity TEXT NOT NULL,
    permissions_json TEXT NOT NULL,
    created_at INTEGER NOT NULL,
    expires_at INTEGER NOT NULL,
    last_used_at INTEGER,
    revoked_at INTEGER
);";

pub const CREATE_DEMO_STATES: &'static str = "CREATE TABLE demo_states (
    project_name TEXT NOT NULL,
    name TEXT NOT NULL,
    branch_name TEXT NOT NULL,
    branch_ref TEXT NOT NULL,
    creator_identity TEXT NOT NULL,
    created_at TEXT NOT NULL DEFAULT (datetime('now')),
    last_restored_at TEXT,
    PRIMARY KEY (project_name, name)
);";

pub const SELECT_JWT_SECRET: &'static str = "SELECT secret FROM jwt_secrets WHERE id = 1";

pub const INSERT_JWT_SECRET: &'static str = "INSERT INTO jwt_secrets (id, secret) VALUES (1, ?1)";

pub const INSERT_BRANCH: &'static str = "INSERT INTO branches (branch_name, project_name, creator_identity, branch_ref) VALUES (?1, ?2, ?3, ?4)";

pub const SELECT_BRANCH: &'static str = "SELECT branch_name, project_name, creator_identity, branch_ref, created_at FROM branches WHERE branch_name = ?1 AND project_name = ?2";

pub const SELECT_PROJECT_BRANCHES: &'static str = "SELECT branch_name, project_name, creator_identity, branch_ref, created_at FROM branches WHERE project_name = ?1 ORDER BY created_at";

pub const SELECT_ALL_BRANCHES: &'static str = "SELECT branch_name, project_name, creator_identity, branch_ref, created_at FROM branches ORDER BY project_name, created_at";

pub const DELETE_BRANCH: &'static str = "DELETE FROM branches WHERE branch_name = ?1 AND project_name = ?2";

pub const INSERT_DEMO_STATE: &'static str = "INSERT INTO demo_states (project_name, name, branch_name, branch_ref, creator_identity) VALUES (?1, ?2, ?3, ?4, ?5)";

pub const SELECT_DEMO_STATE: &'static str = "SELECT project_name, name, branch_name, branch_ref, creator_identity, created_at, last_restored_at FROM demo_states WHERE project_name = ?1 AND name = ?2";

pub const SELECT_PROJECT_DEMO_STATES: &'static str = "SELECT project_name, name, branch_name, branch_ref, creator_identity, created_at, last_restored_at FROM demo_states WHERE project_name = ?1 ORDER BY created_at, name";

pub const DELETE_DEMO_STATE: &'static str = "DELETE FROM demo_states WHERE project_name = ?1 AND name = ?2";

pub const MARK_DEMO_STATE_RESTORED: &'static str = "UPDATE demo_states SET last_restored_at = datetime('now') WHERE project_name = ?1 AND name = ?2";

pub const INSERT_REFRESH_SESSION: &'static str = "INSERT INTO refresh_sessions (selector, token_hash, identity, permissions_json, created_at, expires_at) VALUES (?1, ?2, ?3, ?4, ?5, ?6)";

pub const SELECT_REFRESH_SESSION: &'static str = "SELECT selector, token_hash, identity, permissions_json, expires_at, revoked_at FROM refresh_sessions WHERE selector = ?1";

pub const RETIRE_REFRESH_SESSION: &'static str = "UPDATE refresh_sessions SET revoked_at = ?1, last_used_at = ?1 WHERE selector = ?2 AND revoked_at IS NULL";

pub const REVOKE_REFRESH_SESSION: &'static str = "UPDATE refresh_sessions SET revoked_at = ?1 WHERE selector = ?2 AND revoked_at IS NULL";

/// The statements that make the tables, in the order in which they came to be.
pub fn migrations() -> (r: Vec<String>)
    ensures
        text::texts(r@) == seq![
            CREATE_JWT_SECRETS@,
            CREATE_BRANCHES@,
            CREATE_REFRESH_SESSIONS@,
            CREATE_DEMO_STATES@,
        ],
{
    let r = vec![
        CREATE_JWT_SECRETS.to_string(),
        CREATE_BRANCHES.to_string(),
        CREATE_REFRESH_SESSIONS.to_string(),
        CREATE_DEMO_STATES.to_string(),
    ];
    assert(text::texts(r@) =~= seq![
        CREATE_JWT_SECRETS@,
        CREATE_BRANCHES@,
        CREATE_REFRESH_SESSIONS@,
        CREATE_DEMO_STATES@,
    ]);
    r
}

/// The settings of a database that was opened, each with its value.
pub fn pragmas() -> (r: Vec<(String, String)>)
    ensures
        http::pairs(r@) == seq![
            ("journal_mode"@, "WAL"@),
            ("synchronous"@, "NORMAL"@),
            ("foreign_keys"@, "ON"@),
        ],
{
    let r = vec![
        pair("journal_mode", "WAL"),
        pair("synchronous", "NORMAL"),
        pair("foreign_keys", "ON"),
    ];
    assert(http::pairs(r@) =~= seq![
        ("journal_mode"@, "WAL"@),
        ("synchronous"@, "NORMAL"@),
        ("foreign_keys"@, "ON"@),
    ]);
    r
}

/// The files that belong to the database at `path`; a database in memory has none.
pub open spec fn db_files(path: Seq<char>) -> Seq<Seq<char>> {
    if path == ":memory:"@ {
        Seq::empty()
    } else {
        seq![path, path + "-wal"@, path + "-shm"@]
    }
}

/// The files that belong to the database at `path`; a database in memory has none.
pub fn db_family(path: &str) -> (r: Vec<String>)
    ensures
        text::texts(r@) == db_files(path@),
{
    let mut files: Vec<String> = Vec::new();
    if !same_text(path, ":memory:") {
        let mut wal = path.to_string();
        wal.append("-wal");
        let mut shm = path.to_string();
        shm.append("-shm");
        files.push(path.to_string());
        files.push(wal);
        files.push(shm);
    }
    assert(text::texts(files@) =~= db_files(path@));
    files
}

fn sql_text(s: &str) -> (r: SqlValue)
    ensures
        r@ == SqlView::Text(s@),
{
    SqlValue::Text(s.to_string())
}

/// The statement with this text and these values.
fn prepared(sql: &str, params: Vec<SqlValue>) -> (r: Statement)
    ensures
        r@ == statement(sql@, params@.map_values(|p: SqlValue| p@)),
{
    Statement { sql: sql.to_string(), params }
}

/// The statement that files a branch.
pub fn record_branch(branch_name: &str, project_name: &str, creator: &str, branch_ref: &str) -> (r:
    Statement)
    ensures
        r@ == statement(
            INSERT_BRANCH@,
            seq![
                SqlView::Text(branch_name@),
                SqlView::Text(project_name@),
                SqlView::Text(creator@),
                SqlView::Text(branch_ref@),
            ],
        ),
{
    prepared(
        INSERT_BRANCH,
        vec![
            sql_text(branch_name),
            sql_text(project_name),
            sql_text(creator),
            sql_text(branch_ref),
        ],
    )
}

/// The statement that finds a branch by its name and its project.
pub fn get_branch(branch_name: &str, project_name: &str) -> (r: Statement)
    ensures
        r@ == statement(
            SELECT_BRANCH@,
            seq![SqlView::Text(branch_name@), SqlView::Text(project_name@)],
        ),
{
    prepared(SELECT_BRANCH, vec![sql_text(branch_name), sql_text(project_name)])
}

/// The statement that lists the branches of a project, the oldest first.
pub fn list_branches_by_project(project_name: &str) -> (r: Statement)
    ensures
        r@ == statement(SELECT_PROJECT_BRANCHES@, seq![SqlView::Text(project_name@)]),
{
    prepared(SELECT_PROJECT_BRANCHES, vec![sql_text(project_name)])
}

/// The statement that lists the branches of all projects.
pub fn list_all_branches() -> (r: Statement)
    ensures
        r@ == statement(SELECT_ALL_BRANCHES@, Seq::<SqlView>::empty()),
{
    prepared(SELECT_ALL_BRANCHES, Vec::new())
}

/// The statement that forgets a branch.
pub fn delete_branch(branch_name: &str, project_name: &str) -> (r: Statement)
    ensures
        r@ == statement(
            DELETE_BRANCH@,
            seq![SqlView::Text(branch_name@), SqlView::Text(project_name@)],
        ),
{
    prepared(DELETE_BRANCH, vec![sql_text(branch_name), sql_text(project_name)])
}

/// The statement that files a demo state.
pub fn record_demo_state(
    project_name: &str,
    name: &str,
    branch_name: &str,
    branch_ref: &str,
    creator: &str,
) -> (r: Statement)
    ensures
        r@ == statement(
            INSERT_DEMO_STATE@,
            seq![
                SqlView::Text(project_name@),
                SqlView::Text(name@),
                SqlView::Text(branch_name@),
                SqlView::Text(branch_ref@),
                SqlView::Text(creator@),
            ],
        ),
{
    prepared(
        INSERT_DEMO_STATE,
        vec![
            sql_text(project_name),
            sql_text(name),
            sql_text(branch_name),
            sql_text(branch_ref),
            sql_text(creator),
        ],
    )
}

/// The statement that finds a demo state by its project and its name.
pub fn get_demo_state(project_name: &str, name: &str) -> (r: Statement)
    ensures
        r@ == statement(
            SELECT_DEMO_STATE@,
            seq![SqlView::Text(project_name@), SqlView::Text(name@)],
        ),
{
    prepared(SELECT_DEMO_STATE, vec![sql_text(project_name), sql_text(name)])
}

/// The statement that lists the demo states of a project, the oldest first.
pub fn list_demo_states_by_project(project_name: &str) -> (r: Statement)
    ensures
        r@ == statement(SELECT_PROJECT_DEMO_STATES@, seq![SqlView::Text(project_name@)]),
{
    prepared(SELECT_PROJECT_DEMO_STATES, vec![sql_text(project_name)])
}

/// The statement that forgets a demo state.
pub fn delete_demo_state(project_name: &str, name: &str) -> (r: Statement)
    ensures
        r@ == statement(
            DELETE_DEMO_STATE@,
            seq![SqlView::Text(project_name@), SqlView::Text(name@)],
        ),
{
    prepared(DELETE_DEMO_STATE, vec![sql_text(project_name), sql_text(name)])
}

/// Whether a statement has found a row to change, by the number of rows that it changed.
pub fn found_row(rows: usize) -> (r: bool)
    ensures
        r == (rows > 0),
{
    rows > 0
}

/// A change, and what is done once it has found its row.
#[derive(Clone, Debug)]
pub struct TwoSteps {
    pub change: Statement,
    pub follow: Statement,
    /// Whether both are run in one transaction, so that either both take effect or neither.
    pub in_transaction: bool,
}

pub struct TwoStepsView {
    pub change: StatementView,
    pub follow: StatementView,
    pub in_transaction: bool,
}

impl View for TwoSteps {
    type V = TwoStepsView;

    open spec fn view(&self) -> TwoStepsView {
        TwoStepsView {
            change: self.change@,
            follow: self.follow@,
            in_transaction: self.in_transaction,
        }
    }
}

impl TwoSteps {
    /// The second statement, where the first has changed a row.
    pub fn changed(self, rows: usize) -> (r: Option<Statement>)
        ensures
            match r {
                Some(follow) => rows > 0 && follow == self.follow,
                None => rows == 0,
            },
    {
        if rows == 0 {
            None
        } else {
            Some(self.follow)
        }
    }

    /// The second statement, where the first has changed a row; an error where it has found none.
    pub fn required(self, rows: usize) -> (r: Result<Statement, String>)
        ensures
            rows > 0 ==> (r matches Ok(follow) && follow == self.follow),
            rows == 0 ==> (r matches Err(message) && message@
                == "Error(\"Query returned no rows\")"@),
    {
        if rows == 0 {
            Err("Error(\"Query returned no rows\")".to_string())
        } else {
            Ok(self.follow)
        }
    }
}

/// The statement that notes that a demo state was restored just now, and the one that then
/// reads the demo state.
pub fn mark_demo_state_restored(project_name: &str, name: &str) -> (r: TwoSteps)
    ensures
        r.change@ == statement(
            MARK_DEMO_STATE_RESTORED@,
            seq![SqlView::Text(project_name@), SqlView::Text(name@)],
        ),
        r.follow@ == statement(
            SELECT_DEMO_STATE@,
            seq![SqlView::Text(project_name@), SqlView::Text(name@)],
        ),
        !r.in_transaction,
{
    TwoSteps {
        change: prepared(MARK_DEMO_STATE_RESTORED, vec![sql_text(project_name), sql_text(name)]),
        follow: get_demo_state(project_name, name),
        in_transaction: false,
    }
}

/// The statement that files a session under its selector, with the digest of its secret.
pub open spec fn session_insert(
    selector: Seq<char>,
    token_hash: Seq<u8>,
    identity: Seq<char>,
    permissions: Seq<Seq<char>>,
    now: i64,
    expires_at: i64,
) -> StatementView {
    statement(
        INSERT_REFRESH_SESSION@,
        seq![
            SqlView::Text(selector),
            SqlView::Blob(token_hash),
            SqlView::Text(identity),
            SqlView::Text(json::json_list_text(permissions)),
            SqlView::Integer(now),
            SqlView::Integer(expires_at),
        ],
    )
}

/// Whether the text under which these permissions are filed is read back as they were.
pub open spec fn filed_permissions_read_back(permissions: Seq<Seq<char>>) -> bool {
    json::json_list_items(json::json_list_text(permissions)) == json::read_as(permissions)
}

/// The statement that files a session under its selector, with the digest of its secret.
pub fn insert_refresh_session(
    selector: &str,
    token_hash: &[u8],
    identity: &str,
    permissions: &Vec<String>,
    now: i64,
    expires_at: i64,
) -> (r: Statement)
    ensures
        r@ == session_insert(
            selector@,
            token_hash@,
            identity@,
            text::texts(permissions@),
            now,
            expires_at,
        ),
        filed_permissions_read_back(text::texts(permissions@)),
{
    prepared(
        INSERT_REFRESH_SESSION,
        vec![
            sql_text(selector),
            SqlValue::Blob(vstd::slice::slice_to_vec(token_hash)),
            sql_text(identity),
            SqlValue::Text(json_list(permissions)),
            SqlValue::Integer(now),
            SqlValue::Integer(expires_at),
        ],
    )
}

/// The statement that finds a session by its selector.
pub fn get_refresh_session(selector: &str) -> (r: Statement)
    ensures
        r@ == statement(SELECT_REFRESH_SESSION@, seq![SqlView::Text(selector@)]),
{
    prepared(SELECT_REFRESH_SESSION, vec![sql_text(selector)])
}

/// The statement that retires a live session at `now`, and the one that then files the
/// session that replaces it, both in one transaction.
pub fn rotate_refresh_session(
    old_selector: &str,
    new_selector: &str,
    new_token_hash: &[u8],
    identity: &str,
    permissions: &Vec<String>,
    now: i64,
    expires_at: i64,
) -> (r: TwoSteps)
    ensures
        r.change@ == statement(
            RETIRE_REFRESH_SESSION@,
            seq![SqlView::Integer(now), SqlView::Text(old_selector@)],
        ),
        r.follow@ == session_insert(
            new_selector@,
            new_token_hash@,
            identity@,
            text::texts(permissions@),
            now,
            expires_at,
        ),
        r.in_transaction,
        filed_permissions_read_back(text::texts(permissions@)),
{
    TwoSteps {
        change: prepared(
            RETIRE_REFRESH_SESSION,
            vec![SqlValue::Integer(now), sql_text(old_selector)],
        ),
        follow: insert_refresh_session(
            new_selector,
            new_token_hash,
            identity,
            permissions,
            now,
            expires_at,
        ),
        in_transaction: true,
    }
}

/// The statement that revokes a live session at `now`.
pub fn revoke_refresh_session(selector: &str, now: i64) -> (r: Statement)
    ensures
        r@ == statement(
            REVOKE_REFRESH_SESSION@,
            seq![SqlView::Integer(now), SqlView::Text(selector@)],
        ),
{
    prepared(REVOKE_REFRESH_SESSION, vec![SqlValue::Integer(now), sql_text(selector)])
}

/// The statement that reads the key of session tokens.
pub fn get_jwt_secret() -> (r: Statement)
    ensures
        r@ == statement(SELECT_JWT_SECRET@, Seq::<SqlView>::empty()),
{
    prepared(SELECT_JWT_SECRET, Vec::new())
}

/// The statement that files the key of session tokens.
pub fn record_jwt_secret(secret: &[u8]) -> (r: Statement)
    ensures
        r@ == statement(INSERT_JWT_SECRET@, seq![SqlView::Blob(secret@)]),
{
    prepared(INSERT_JWT_SECRET, vec![SqlValue::Blob(vstd::slice::slice_to_vec(secret))])
}

/// The key of session tokens, and the statement that files it where it is new.
pub struct JwtSecret {
    pub secret: Vec<u8>,
    pub record: Option<Statement>,
}

/// The key that was found, or else the new one, which is then to be filed; nothing where there
/// is neither.
pub fn jwt_secret_of(existing: Option<Vec<u8>>, fresh: Option<Vec<u8>>) -> (r: Option<JwtSecret>)
    ensures
        match (existing, fresh) {
            (Some(found), _) => r matches Some(key) && key.secret == found && key.record is None,
            (None, Some(fresh)) => {
                &&& r matches Some(key)
                &&& key.secret == fresh
                &&& key.record matches Some(record)
                &&& record@ == statement(INSERT_JWT_SECRET@, seq![SqlView::Blob(fresh@)])
            },
            (None, None) => r is None,
        },
{
    match (existing, fresh) {
        (Some(secret), _) => Some(JwtSecret { secret, record: None }),
        (None, Some(secret)) => {
            let record = record_jwt_secret(secret.as_slice());
            Some(JwtSecret { secret, record: Some(record) })
        },
        (None, None) => None,
    }
}

/// The key that was found, or a new one; nothing where a new one is needed and the
/// operating system's random source fails.
pub fn ensure_jwt_secret(existing: Option<Vec<u8>>) -> (r: Option<JwtSecret>)
    ensures
        match existing {
            Some(found) => r matches Some(key) && key.secret == found && key.record is None,
            None => r matches Some(key) ==> {
                &&& key.secret@.len() == 32
                &&& key.record matches Some(record)
                &&& record@ == statement(INSERT_JWT_SECRET@, seq![SqlView::Blob(key.secret@)])
            },
        },
{
    if existing.is_some() {
        jwt_secret_of(existing, None)
    } else {
        jwt_secret_of(None, generate_jwt_secret())
    }
}

} // verus!

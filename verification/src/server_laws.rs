//! What the server is configured with, keeps and answers of itself, whatever it is given.

use vstd::prelude::*;

use crate::auth::{AuthContext, AuthorizationHeader, Claims, JwtInterceptor};
use crate::branch_laws::is_child;
use crate::config::{ConfigSource, ProjectConfig, ProjectDatabaseConnection, ServerConfig};
use crate::db::{BranchRecord, JwtSecret, Statement, TwoSteps};
use crate::fields;
use crate::fields::{
    blob_at, is_blank, is_first, is_trim_of, is_unknown, may, may_as_owner, refuses, says,
};
use crate::http::HttpRequest;
use crate::listen::ListenMode;
use crate::login_laws::{is_split_into, is_token_of, same_texts};
use crate::messages::{BranchCredentials, BranchOwnership, Versioned, WhoAmIResponse};
use crate::rate_limit::ClientAddr;
use crate::secrets::RefreshToken;
use crate::service::SupabasedService;
use crate::status::{Code, Status};
use crate::supabase::{BranchCredentialSet, BranchResponse, SupabaseClient};
use crate::text_laws::hex_value;
use crate::{
    auth, clock, config, db, http, listen, login_laws, secrets, service, text, text_laws,
};

verus! {

/// Whoever asks who they are is told their own identity and permissions.
pub proof fn law_bearer_is_told_who_they_are(
    service: SupabasedService,
    ctx: Option<AuthContext>,
    r: Result<Versioned<WhoAmIResponse>, Status>,
)
    requires
        call_ensures(SupabasedService::who_am_i, (&service, ctx), r),
    ensures
        ctx is None ==> refuses(r, Code::Unauthenticated, "authentication required"@),
        ctx matches Some(maker) ==> (r matches Ok(told) && {
            &&& told.message.identity@ == maker.identity@
            &&& same_texts(told.message.permissions@, maker.permissions@)
            &&& told.message.accessible_branches@.len() == 0
            &&& told.config_version@ == service.config_hash@
        }),
{
    if let Ok(told) = r {
        lemma_same_texts(told.message.permissions@, ctx->0.permissions@);
        assert(told.message@.accessible_branches.len() == told.message.accessible_branches@.len());
    }
}

proof fn lemma_same_texts(a: Seq<String>, b: Seq<String>)
    requires
        text::texts(a) == text::texts(b),
    ensures
        same_texts(a, b),
{
    assert(text::texts(a).len() == a.len() && text::texts(b).len() == b.len());
    assert forall|i: int| 0 <= i < a.len() implies (#[trigger] a[i])@ == b[i]@ by {
        assert(text::texts(a)[i] == a[i]@);
        assert(text::texts(b)[i] == b[i]@);
    }
}

/// Whoever asks for the projects is told the name of each that is configured, in order.
pub proof fn law_projects_are_told_by_name(
    service: SupabasedService,
    ctx: Option<AuthContext>,
    r: Result<Versioned<Vec<String>>, Status>,
)
    requires
        call_ensures(SupabasedService::list_projects, (&service, ctx), r),
    ensures
        ctx is None ==> refuses(r, Code::Unauthenticated, "authentication required"@),
        ctx is Some ==> (r matches Ok(told) && {
            let projects = service.config.projects@;
            &&& told.message@.len() == projects.len()
            &&& forall|i: int|
                0 <= i < projects.len() ==> (#[trigger] told.message@[i])@ == projects[i].name@
            &&& told.config_version@ == service.config_hash@
        }),
{
    if let Ok(told) = r {
        let projects = service.config.projects@;
        let names = text::texts(told.message@);
        let all = service::project_names(projects);
        assert(names.len() == told.message@.len() && all.len() == projects.len());
        assert forall|i: int| 0 <= i < projects.len() implies (#[trigger] told.message@[i])@
            == projects[i].name@ by {
            assert(names[i] == told.message@[i]@);
            assert(all[i] == projects[i].name@);
        }
    }
}

/// A project is found under its name: the first that has it, and none where none has.
pub proof fn law_project_is_found_by_its_name(
    config: ServerConfig,
    name: &str,
    place: int,
    r: Option<&ProjectConfig>,
)
    requires
        call_ensures(ServerConfig::resolve_project, (&config, name), r),
    ensures
        is_first(config.projects@, name@, place) ==> (r matches Some(found) && *found
            == config.projects@[place]),
        is_unknown(config.projects@, name@) ==> r is None,
{
    fields::law_first_project_of_a_name_is_meant(config.projects@, name@, place);
}

/// A request for a project is refused where no configured project has its name.
pub proof fn law_unknown_project_is_refused(
    config: ServerConfig,
    name: &str,
    place: int,
    r: Result<&ProjectConfig, Status>,
    demo: Result<&ProjectConfig, Status>,
)
    requires
        call_ensures(service::resolve_project, (&config, name), r),
        call_ensures(service::resolve_demo_project, (&config, name), demo),
    ensures
        is_unknown(config.projects@, name@) ==> refuses(
            r,
            Code::NotFound,
            "unknown project: "@ + name@,
        ) && refuses(demo, Code::NotFound, "unknown project: "@ + name@),
        is_first(config.projects@, name@, place) ==> (r matches Ok(found) && *found
            == config.projects@[place]),
        is_first(config.projects@, name@, place) && config.projects@[place].demo ==> (
        demo matches Ok(found) && *found == config.projects@[place]),
        is_first(config.projects@, name@, place) && !config.projects@[place].demo ==> refuses(
            demo,
            Code::FailedPrecondition,
            "project '"@ + name@ + "' is not configured for demo operations"@,
        ),
{
    fields::law_first_project_of_a_name_is_meant(config.projects@, name@, place);
}

/// The reference of a created branch is taken from the answer exactly where the answer describes
/// a branch of the project; otherwise it is told what is wrong with it.
pub proof fn law_reference_is_that_of_a_child(
    response: BranchResponse,
    parent: &str,
    r: Result<String, Status>,
)
    requires
        call_ensures(service::validated_branch_ref, (&response, parent), r),
    ensures
        r is Ok <==> is_child(response, parent@),
        r matches Ok(found) ==> (response.project_ref matches Some(branch_ref) && found@
            == branch_ref@),
        (response.project_ref matches Some(branch_ref) ==> branch_ref@.len() == 0) ==> refuses(
            r,
            Code::Internal,
            "Supabase branch response did not include project_ref"@,
        ),
        response.project_ref matches Some(branch_ref) ==> branch_ref@.len() > 0 && branch_ref@
            == parent@ ==> refuses(
            r,
            Code::FailedPrecondition,
            "Supabase returned the parent project as the created branch"@,
        ),
        response.project_ref matches Some(branch_ref) ==> branch_ref@.len() > 0 && branch_ref@
            != parent@ && (response.parent_project_ref matches Some(made_of) ==> made_of@
            != parent@) ==> refuses(
            r,
            Code::FailedPrecondition,
            "Supabase branch response parent did not match the configured project"@,
        ),
        response.project_ref matches Some(branch_ref) ==> (
        response.parent_project_ref matches Some(made_of) ==> branch_ref@.len() > 0 && branch_ref@
            != parent@ && made_of@ == parent@ && response.is_default != Some(false) ==> refuses(
            r,
            Code::FailedPrecondition,
            "Supabase branch response was not a non-default child branch"@,
        )),
{
}

/// The credentials of a branch are told with its project, its name and its address, and each key
/// under its modern and under its older name.
pub proof fn law_credentials_are_told_under_both_names(
    project_name: String,
    branch_name: String,
    creds: BranchCredentialSet,
    r: BranchCredentials,
)
    requires
        call_ensures(service::branch_credentials_response, (project_name, branch_name, creds), r),
    ensures
        r.project_name@ == project_name@,
        r.branch_name@ == branch_name@,
        r.api_url@ == creds.api_url@,
        r.publishable_key@ == creds.publishable_key@,
        r.anon_key@ == creds.publishable_key@,
        r.secret_key@ == creds.secret_key@,
        r.service_role_key@ == creds.secret_key@,
{
}

/// A branch is the maker's where they have filed it, another's where somebody else has, and
/// nobody's where nobody has.
pub proof fn law_branch_belongs_to_its_creator(
    ctx: AuthContext,
    record: Option<&BranchRecord>,
    r: BranchOwnership,
)
    requires
        call_ensures(service::classify_branch_ownership, (&ctx, record), r),
    ensures
        record is None ==> r == BranchOwnership::Untracked,
        record matches Some(filed) ==> (filed.creator_identity@ == ctx.identity@ ==> r
            == BranchOwnership::Yours),
        record matches Some(filed) ==> (filed.creator_identity@ != ctx.identity@ ==> r
            == BranchOwnership::Other),
{
}

/// A restore is refused exactly where it was not confirmed.
pub proof fn law_unconfirmed_restore_is_refused(confirmed: bool, r: Result<(), Status>)
    requires
        call_ensures(service::require_restore_confirmation, (confirmed,), r),
    ensures
        confirmed ==> r is Ok,
        !confirmed ==> refuses(
            r,
            Code::FailedPrecondition,
            "restore requires confirm_overwrite_main=true"@,
        ),
{
}

/// A client of the management service keeps the access token that it was made with, and every
/// request bears it.
pub proof fn law_client_keeps_its_token(
    token: String,
    client: SupabaseClient,
    branch_ref: &str,
    request: HttpRequest,
)
    requires
        call_ensures(SupabaseClient::new, (token,), client),
        call_ensures(SupabaseClient::delete_branch, (&client, branch_ref), request),
    ensures
        client.access_token() == token@,
        says(request.headers@, 0, "Authorization"@, "Bearer "@ + token@),
{
    assert(request@.headers == http::pairs(request.headers@));
    assert(http::pairs(request.headers@).len() == request.headers@.len());
    fields::lemma_says(request.headers@, 0);
}

/// A server begins with what it was given, and with nobody logged in.
pub proof fn law_server_begins_as_given(
    jwt_secret: Vec<u8>,
    org: String,
    client_id: String,
    client: SupabaseClient,
    config: ServerConfig,
    version: String,
    r: SupabasedService,
)
    requires
        call_ensures(
            SupabasedService::new,
            (jwt_secret, org, client_id, client, config, version),
            r,
        ),
    ensures
        r.wf(),
        r.jwt_secret == jwt_secret,
        r.github_org@ == org@,
        r.github_oauth_client_id@ == client_id@,
        r.supabase_client == client,
        r.config == config,
        r.config_hash@ == version@,
        forall|id: Seq<char>| !#[trigger] r.device_sessions.known().contains_key(id),
        forall|addr: ClientAddr| !#[trigger] r.rate_limiter.known().contains_key(addr),
{
}

/// Whether the project can be used as it is configured.
pub open spec fn is_usable(project: ProjectConfig) -> bool {
    &&& project.name@.len() > 0
    &&& project.project_ref@.len() > 0
    &&& project.demo ==> (project.database_password_env matches Some(env) && !is_blank(env@))
}

proof fn lemma_usable(project: ProjectConfig, path: Seq<char>)
    ensures
        is_usable(project) <==> config::config_flaw(project, path) is None,
{
    if let Some(env) = project.database_password_env {
        fields::lemma_blank(env@);
    }
}

/// A project is accepted exactly where it can be used; otherwise it is told what it lacks.
pub proof fn law_unusable_project_is_refused(
    project: ProjectConfig,
    path: &str,
    r: Result<(), String>,
)
    requires
        call_ensures(ProjectConfig::validate, (&project, path), r),
    ensures
        r is Ok <==> is_usable(project),
        r matches Err(message) ==> message@ == (if project.name@.len() == 0 {
            "project entry in "@ + path@ + " has empty name"@
        } else if project.project_ref@.len() == 0 {
            "project '"@ + project.name@ + "' in "@ + path@ + " has empty ref"@
        } else {
            "project '"@ + project.name@ + "' in "@ + path@
                + " has demo=true but missing database_password_env"@
        }),
{
    lemma_usable(project, path@);
}

proof fn lemma_first_flaw(projects: Seq<ProjectConfig>, path: Seq<char>, place: int)
    requires
        0 <= place < projects.len(),
        !is_usable(projects[place]),
        forall|i: int| 0 <= i < place ==> is_usable(#[trigger] projects[i]),
    ensures
        config::first_flaw(projects, path) == config::config_flaw(projects[place], path),
        config::config_flaw(projects[place], path) is Some,
    decreases place,
{
    lemma_usable(projects[place], path);
    if place > 0 {
        assert(is_usable(projects[0]));
        lemma_usable(projects[0], path);
        let rest = projects.skip(1);
        assert forall|i: int| 0 <= i < place - 1 implies is_usable(#[trigger] rest[i]) by {
            assert(is_usable(projects[i + 1]));
        }
        lemma_first_flaw(rest, path, place - 1);
    }
}

proof fn lemma_no_flaw(projects: Seq<ProjectConfig>, path: Seq<char>)
    requires
        forall|i: int| 0 <= i < projects.len() ==> is_usable(#[trigger] projects[i]),
    ensures
        config::first_flaw(projects, path) is None,
    decreases projects.len(),
{
    if projects.len() > 0 {
        assert(is_usable(projects[0]));
        lemma_usable(projects[0], path);
        let rest = projects.skip(1);
        assert forall|i: int| 0 <= i < rest.len() implies is_usable(#[trigger] rest[i]) by {
            assert(is_usable(projects[i + 1]));
        }
        lemma_no_flaw(rest, path);
    }
}

/// A configuration is loaded exactly where its file was read and has projects that can all be
/// used; it is loaded as it was read, and its version is the digest of the file, in base sixteen.
pub proof fn law_configuration_is_loaded_as_read(
    path: &str,
    contents: String,
    config: ServerConfig,
    r: Result<(ServerConfig, String), String>,
)
    requires
        call_ensures(
            config::load_config,
            (path, ConfigSource::Parsed { contents, config }),
            r,
        ),
    ensures
        r is Ok <==> config.projects@.len() > 0 && forall|i: int|
            0 <= i < config.projects@.len() ==> is_usable(#[trigger] config.projects@[i]),
        r matches Ok(loaded) ==> {
            let digest = secrets::sha256(vstd::utf8::encode_utf8(contents@));
            &&& loaded.0 == config
            &&& loaded.1@.len() == 2 * digest.len()
            &&& forall|i: int|
                0 <= i < digest.len() ==> #[trigger] digest[i] as int == hex_value(
                    loaded.1@[2 * i],
                ) * 16 + hex_value(loaded.1@[2 * i + 1])
        },
{
    let projects = config.projects@;
    if forall|i: int| 0 <= i < projects.len() ==> is_usable(#[trigger] projects[i]) {
        lemma_no_flaw(projects, path@);
    } else {
        let bad = choose|i: int| 0 <= i < projects.len() && !is_usable(#[trigger] projects[i]);
        let place = lemma_first_bad(projects, bad);
        lemma_first_flaw(projects, path@, place);
    }
    text_laws::lemma_hex_values(secrets::sha256(vstd::utf8::encode_utf8(contents@)));
}

proof fn lemma_first_bad(projects: Seq<ProjectConfig>, bad: int) -> (place: int)
    requires
        0 <= bad < projects.len(),
        !is_usable(projects[bad]),
    ensures
        0 <= place <= bad,
        !is_usable(projects[place]),
        forall|i: int| 0 <= i < place ==> is_usable(#[trigger] projects[i]),
    decreases bad,
{
    if exists|i: int| 0 <= i < bad && !is_usable(#[trigger] projects[i]) {
        let i = choose|i: int| 0 <= i < bad && !is_usable(#[trigger] projects[i]);
        lemma_first_bad(projects, i)
    } else {
        bad
    }
}

/// Of a configuration that is refused it is told what is wrong with the first project that
/// cannot be used, or that it has none.
pub proof fn law_refused_configuration_is_told(
    path: &str,
    contents: String,
    config: ServerConfig,
    place: int,
    r: Result<(ServerConfig, String), String>,
)
    requires
        call_ensures(
            config::load_config,
            (path, ConfigSource::Parsed { contents, config }),
            r,
        ),
    ensures
        config.projects@.len() == 0 ==> (r matches Err(message) && message@ == "config file "@
            + path@ + " must define at least one [[projects]] entry"@),
        0 <= place < config.projects@.len() && !is_usable(config.projects@[place]) && (forall|i: int|
            0 <= i < place ==> is_usable(#[trigger] config.projects@[i])) ==> (r matches Err(
            message,
        ) && ({
            let project = config.projects@[place];
            message@ == (if project.name@.len() == 0 {
                "project entry in "@ + path@ + " has empty name"@
            } else if project.project_ref@.len() == 0 {
                "project '"@ + project.name@ + "' in "@ + path@ + " has empty ref"@
            } else {
                "project '"@ + project.name@ + "' in "@ + path@
                    + " has demo=true but missing database_password_env"@
            })
        })),
{
    let projects = config.projects@;
    if 0 <= place < projects.len() && !is_usable(projects[place]) && (forall|i: int|
        0 <= i < place ==> is_usable(#[trigger] projects[i])) {
        lemma_first_flaw(projects, path@, place);
        lemma_usable(projects[place], path@);
    }
}

/// A file that is no configuration is refused with the reason.
pub proof fn law_unread_configuration_is_told(
    path: &str,
    error: String,
    unread: Result<(ServerConfig, String), String>,
    malformed: Result<(ServerConfig, String), String>,
)
    requires
        call_ensures(config::load_config, (path, ConfigSource::Unreadable(error)), unread),
        call_ensures(config::load_config, (path, ConfigSource::Malformed(error)), malformed),
    ensures
        unread matches Err(message) && message@ == "failed to read config file "@ + path@ + ": "@
            + error@,
        malformed matches Err(message) && message@ == "failed to parse config file "@ + path@
            + ": "@ + error@,
{
}

/// The variable of a project's database password is the one that is configured, without white
/// space around it.
pub proof fn law_password_variable_is_trimmed(project: ProjectConfig, r: Result<String, String>)
    requires
        call_ensures(ProjectConfig::password_env, (&project,), r),
    ensures
        r is Ok <==> (project.database_password_env matches Some(env) && !is_blank(env@)),
        r matches Ok(found) ==> is_trim_of(found@, project.database_password_env->0@),
        r matches Err(message) ==> message@ == "project '"@ + project.name@
            + "' is missing database_password_env for demo restore operations"@,
{
    if let Some(env) = project.database_password_env {
        fields::lemma_blank(env@);
        fields::lemma_trim(env@);
    }
}

/// The server listens with the certificate and the key that are configured, each as what it is;
/// without them it listens in plaintext on a loopback address alone.
pub proof fn law_server_listens_safely(
    addr: ClientAddr,
    cert: Option<String>,
    key: Option<String>,
    r: Result<ListenMode, String>,
)
    requires
        call_ensures(listen::listen_mode, (addr, cert, key), r),
    ensures
        cert is Some && key is Some ==> (r matches Ok(ListenMode::Tls { cert_path, key_path })
            && cert_path@ == cert->0@ && key_path@ == key->0@),
        cert is Some != key is Some ==> (r matches Err(message) && message@
            == "both TLS_CERT and TLS_KEY must be set, or neither"@),
        cert is None && key is None ==> ({
            let local = match addr {
                ClientAddr::V4(bits) => 0x7f00_0000 <= bits <= 0x7fff_ffff,
                ClientAddr::V6(bits) => bits == 1,
            };
            &&& local ==> (r matches Ok(ListenMode::Plaintext))
            &&& !local ==> (r matches Err(message) && message@
                == "TLS_CERT and TLS_KEY are required when binding plaintext outside loopback"@)
        }),
{
}

/// The tables of the database, in the order in which they came to be.
pub proof fn law_tables_are_made(r: Vec<String>)
    requires
        call_ensures(db::migrations, (), r),
    ensures
        r@.len() == 4,
        r@[0]@ == "CREATE TABLE jwt_secrets (
    id INTEGER PRIMARY KEY CHECK (id = 1),
    secret BLOB NOT NULL,
    created_at TEXT NOT NULL DEFAULT (datetime('now'))
);"@,
        r@[1]@ == "CREATE TABLE branches (
    branch_name TEXT NOT NULL,
    project_name TEXT NOT NULL,
    creator_identity TEXT NOT NULL,
    branch_ref TEXT NOT NULL,
    created_at TEXT NOT NULL DEFAULT (datetime('now')),
    PRIMARY KEY (branch_name, project_name)
);"@,
        r@[2]@ == "CREATE TABLE refresh_sessions (
    selector TEXT PRIMARY KEY,
    token_hash BLOB NOT NULL,
    identity TEXT NOT NULL,
    permissions_json TEXT NOT NULL,
    created_at INTEGER NOT NULL,
    expires_at INTEGER NOT NULL,
    last_used_at INTEGER,
    revoked_at INTEGER
);"@,
        r@[3]@ == "CREATE TABLE demo_states (
    project_name TEXT NOT NULL,
    name TEXT NOT NULL,
    branch_name TEXT NOT NULL,
    branch_ref TEXT NOT NULL,
    creator_identity TEXT NOT NULL,
    created_at TEXT NOT NULL DEFAULT (datetime('now')),
    last_restored_at TEXT,
    PRIMARY KEY (project_name, name)
);"@,
{
    let views = text::texts(r@);
    assert(views.len() == r@.len());
    assert(views[0] == r@[0]@ && views[1] == r@[1]@ && views[2] == r@[2]@ && views[3] == r@[3]@);
}

/// The settings of a database that was opened.
pub proof fn law_database_is_set_up(r: Vec<(String, String)>)
    requires
        call_ensures(db::pragmas, (), r),
    ensures
        r@.len() == 3,
        says(r@, 0, "journal_mode"@, "WAL"@),
        says(r@, 1, "synchronous"@, "NORMAL"@),
        says(r@, 2, "foreign_keys"@, "ON"@),
{
    assert(http::pairs(r@).len() == r@.len());
    fields::lemma_says(r@, 0);
    fields::lemma_says(r@, 1);
    fields::lemma_says(r@, 2);
}

/// The files of a database are its own, its log and its index; a database in memory has none.
pub proof fn law_files_of_a_database(path: &str, r: Vec<String>)
    requires
        call_ensures(db::db_family, (path,), r),
    ensures
        path@ == ":memory:"@ ==> r@.len() == 0,
        path@ != ":memory:"@ ==> r@.len() == 3 && r@[0]@ == path@ && r@[1]@ == path@ + "-wal"@
            && r@[2]@ == path@ + "-shm"@,
{
    let views = text::texts(r@);
    assert(views.len() == r@.len());
    if path@ != ":memory:"@ {
        assert(views[0] == r@[0]@ && views[1] == r@[1]@ && views[2] == r@[2]@);
    }
}

/// Whether the statement files this key of session tokens.
pub open spec fn files_key(statement: Statement, secret: Seq<u8>) -> bool {
    &&& statement.sql@ == "INSERT INTO jwt_secrets (id, secret) VALUES (1, ?1)"@
    &&& statement.params@.len() == 1
    &&& blob_at(statement, 0, secret)
}

proof fn lemma_files_key(statement: Statement, secret: Seq<u8>)
    requires
        statement@ == db::statement(db::INSERT_JWT_SECRET@, seq![db::SqlView::Blob(secret)]),
    ensures
        files_key(statement, secret),
{
    assert(statement@.params.len() == statement.params@.len());
    fields::lemma_param(statement, 0);
}

/// The key of session tokens is read from its table, and is filed there as it is.
pub proof fn law_key_is_read_and_filed(secret: &[u8], read: Statement, filed: Statement)
    requires
        call_ensures(db::get_jwt_secret, (), read),
        call_ensures(db::record_jwt_secret, (secret,), filed),
    ensures
        read.sql@ == "SELECT secret FROM jwt_secrets WHERE id = 1"@,
        read.params@.len() == 0,
        files_key(filed, secret@),
{
    assert(read@.params.len() == read.params@.len());
    lemma_files_key(filed, secret@);
}

/// A key that was found is kept and not filed again; a new one is filed, and is the one that is
/// used.
pub proof fn law_key_is_made_once(
    existing: Option<Vec<u8>>,
    fresh: Option<Vec<u8>>,
    chosen: Option<JwtSecret>,
    ensured: Option<JwtSecret>,
)
    requires
        call_ensures(db::jwt_secret_of, (existing, fresh), chosen),
        call_ensures(db::ensure_jwt_secret, (existing,), ensured),
    ensures
        existing matches Some(found) ==> (chosen matches Some(key) && key.secret@ == found@
            && key.record is None),
        existing matches Some(found) ==> (ensured matches Some(key) && key.secret@ == found@
            && key.record is None),
        existing is None ==> (fresh matches Some(made) ==> (chosen matches Some(key) && key.secret@
            == made@ && (key.record matches Some(record) && files_key(record, made@)))),
        existing is None && fresh is None ==> chosen is None,
        existing is None ==> (ensured matches Some(key) ==> key.secret@.len() == 32 && (
        key.record matches Some(record) && files_key(record, key.secret@))),
{
    if existing is None {
        if let Some(key) = chosen {
            lemma_files_key(key.record->0, key.secret@);
        }
        if let Some(key) = ensured {
            lemma_files_key(key.record->0, key.secret@);
        }
    }
}

/// A change that has found its row is followed by its second statement, and one that has not is
/// not.
pub proof fn law_second_step_needs_the_first(
    steps: TwoSteps,
    rows: usize,
    changed: Option<Statement>,
    required: Result<Statement, String>,
)
    requires
        call_ensures(TwoSteps::changed, (steps, rows), changed),
        call_ensures(TwoSteps::required, (steps, rows), required),
    ensures
        rows > 0 ==> changed == Some(steps.follow),
        rows > 0 ==> required == Ok::<Statement, String>(steps.follow),
        rows == 0 ==> changed is None,
        rows == 0 ==> (required matches Err(message) && message@
            == "Error(\"Query returned no rows\")"@),
{
}

/// A refresh token is its selector, a dot and its secret; with it go that selector and the digest
/// of that secret.
pub proof fn law_refresh_token_is_its_parts(selector: String, secret: &str, r: RefreshToken)
    requires
        call_ensures(secrets::refresh_token_of, (selector, secret), r),
    ensures
        r.token@ == selector@ + "."@ + secret@,
        r.selector@ == selector@,
        r.token_hash@ == secrets::sha256(vstd::utf8::encode_utf8(secret@)),
{
}

/// The digest of a secret is that of its bytes.
pub proof fn law_secret_is_kept_by_its_digest(secret: &str, r: Vec<u8>)
    requires
        call_ensures(secrets::hash_refresh_secret, (secret,), r),
    ensures
        r@ == secrets::sha256(vstd::utf8::encode_utf8(secret@)),
{
}

/// A generated refresh token has a selector of 32 digits and a secret of 64, and the digest of
/// that secret.
pub proof fn law_generated_token_has_its_digest(token: RefreshToken) -> (secret: Seq<char>)
    requires
        call_ensures(secrets::generate_refresh_token, (), Some(token)),
    ensures
        is_split_into(token.token@, token.selector@, secret, token.token_hash@),
{
    login_laws::lemma_fresh(token)
}

/// What a token says of its bearer: who they are, that they are a developer, what they may do,
/// from when on and, eight hours later, until when.
pub proof fn law_token_says_who_its_bearer_is(
    identity: &str,
    permissions: &[String],
    now: i64,
    r: Claims,
)
    requires
        now + 28_800 <= i64::MAX,
        call_ensures(auth::token_claims, (identity, permissions, now), r),
    ensures
        r.sub@ == identity@,
        r.role@ == "developer"@,
        same_texts(r.permissions@, permissions@),
        r.iat == now,
        r.exp == now + 28_800,
{
    lemma_same_texts(r.permissions@, permissions@);
}

/// The token in a header is what stands behind `Bearer `; a request without a header bears none,
/// and any other header is refused.
pub proof fn law_token_stands_behind_bearer(
    header: AuthorizationHeader,
    r: Result<Option<String>, Status>,
)
    requires
        call_ensures(auth::bearer_token, (&header,), r),
    ensures
        header is Absent ==> r matches Ok(None),
        header is Unreadable ==> refuses(
            r,
            Code::Unauthenticated,
            "invalid authorization header"@,
        ),
        header matches AuthorizationHeader::Text(value) ==> match r {
            Ok(found) => found matches Some(token) && value@ == "Bearer "@ + token@,
            Err(_) => refuses(r, Code::Unauthenticated, "expected Bearer token"@) && forall|
                token: Seq<char>,
            |
                value@ != #[trigger] ("Bearer "@ + token),
        },
{
    if let AuthorizationHeader::Text(value) = header {
        let n = "Bearer "@.len() as int;
        match r {
            Ok(found) => {
                let token = found->0;
                assert(value@.subrange(0, n) == "Bearer "@);
                assert(value@ =~= "Bearer "@ + token@);
            },
            Err(_) => {
                assert forall|token: Seq<char>| value@ != #[trigger] ("Bearer "@ + token) by {
                    if value@ == "Bearer "@ + token {
                        assert(value@.subrange(0, n) =~= "Bearer "@);
                    }
                }
            },
        }
    }
}

/// Whoever bears a good token is who the token says, and may do what it says; a token that is not
/// good is refused with the reason.
pub proof fn law_bearer_is_who_the_token_says(
    verified: Result<Claims, String>,
    r: Result<AuthContext, Status>,
)
    requires
        call_ensures(auth::admitted, (verified,), r),
    ensures
        verified matches Ok(claims) ==> (r matches Ok(ctx) && ctx.identity@ == claims.sub@
            && same_texts(ctx.permissions@, claims.permissions@)),
        verified matches Err(message) ==> refuses(
            r,
            Code::Unauthenticated,
            "invalid token: "@ + message@,
        ),
{
}

/// A request is made by whoever the token in its header says, under the secret of the server, and
/// by nobody where it has no header.
pub proof fn law_request_is_made_by_the_bearer(
    interceptor: JwtInterceptor,
    secret: Vec<u8>,
    token: Seq<char>,
    value: String,
    r: Result<Option<AuthContext>, Status>,
)
    requires
        call_ensures(JwtInterceptor::new, (secret,), interceptor) || call_ensures(
            auth::make_interceptor,
            (secret,),
            interceptor,
        ),
        value@ == "Bearer "@ + token,
        call_ensures(
            JwtInterceptor::call,
            (&interceptor, &AuthorizationHeader::Text(value)),
            r,
        ),
    ensures
        r matches Ok(found) ==> (found matches Some(ctx) && (auth::jwt_claims(
            secret@,
            token,
        ) matches Ok(claims) && ctx.identity@ == claims.sub && text::texts(ctx.permissions@)
            == claims.permissions)),
        r is Err ==> refuses(r, Code::Unauthenticated, "invalid token: "@ + "ExpiredSignature"@)
            || refuses(
            r,
            Code::Unauthenticated,
            "invalid token: "@ + "the system clock gives no usable time"@,
        ) || (auth::jwt_claims(secret@, token) matches Err(error) && refuses(
            r,
            Code::Unauthenticated,
            "invalid token: "@ + error,
        )),
{
    auth::law_sent_token_is_found(value, token);
}

/// A permission is required of the maker of a request: they are refused exactly where they lack
/// it.
pub proof fn law_permission_is_required(ctx: AuthContext, permission: &str, r: Result<(), Status>)
    requires
        call_ensures(auth::require_permission, (&ctx, permission), r),
    ensures
        may(ctx, permission@) ==> r is Ok,
        !may(ctx, permission@) ==> refuses(
            r,
            Code::PermissionDenied,
            "missing required permission: "@ + permission@,
        ),
{
    fields::lemma_may(ctx, permission@);
}

/// What somebody owns may be acted on by them, where they may act on their own, and by whoever may
/// act on anything, and by nobody else.
pub proof fn law_ownership_or_permission_is_required(
    ctx: AuthContext,
    own: &str,
    any: &str,
    owner: &str,
    r: Result<(), Status>,
)
    requires
        call_ensures(auth::require_permission_or_owner, (&ctx, own, any, owner), r),
    ensures
        may_as_owner(ctx, own@, any@, owner@) ==> r is Ok,
        !may_as_owner(ctx, own@, any@, owner@) ==> refuses(
            r,
            Code::PermissionDenied,
            "missing required permission: "@ + (any@ + " or "@ + own@ + " (as owner)"@),
        ),
{
    fields::lemma_may(ctx, own@);
    fields::lemma_may(ctx, any@);
}

/// A request without a header is made by nobody, and one with a header that is no token is refused.
pub proof fn law_request_without_a_token(
    interceptor: JwtInterceptor,
    absent: Result<Option<AuthContext>, Status>,
    unreadable: Result<Option<AuthContext>, Status>,
)
    requires
        call_ensures(JwtInterceptor::call, (&interceptor, &AuthorizationHeader::Absent), absent),
        call_ensures(
            JwtInterceptor::call,
            (&interceptor, &AuthorizationHeader::Unreadable),
            unreadable,
        ),
    ensures
        absent matches Ok(None),
        refuses(unreadable, Code::Unauthenticated, "invalid authorization header"@),
{
}

/// Without the password in its variable, a database is not reached.
pub proof fn law_password_is_needed(
    project: ProjectConfig,
    project_ref: &str,
    r: Result<ProjectDatabaseConnection, String>,
)
    requires
        call_ensures(
            ProjectConfig::database_connection_for_ref,
            (&project, project_ref, None::<String>),
            r,
        ),
    ensures
        r is Err,
        !(project.database_password_env matches Some(env) && !is_blank(env@)) ==> r->Err_0@
            == "project '"@ + project.name@
            + "' is missing database_password_env for demo restore operations"@,
        (project.database_password_env matches Some(env) && !is_blank(env@)) ==> exists|
            env: Seq<char>,
        |
            is_trim_of(env, project.database_password_env->0@) && r->Err_0@ == #[trigger] (env
                + " environment variable is required for demo restore operations"@),
{
    if let Some(env) = project.database_password_env {
        fields::lemma_blank(env@);
        fields::lemma_trim(env@);
        if !is_blank(env@) {
            assert(r->Err_0@ == text::trimmed(env@)
                + " environment variable is required for demo restore operations"@);
        }
    }
}

/// A refresh token is parsed into what stands before its first dot and what stands behind it.
pub proof fn law_token_is_parsed_at_its_dot(
    token: &str,
    selector: Seq<char>,
    secret: Seq<char>,
    r: Result<(String, String), Status>,
)
    requires
        call_ensures(secrets::parse_refresh_token, (token,), r),
    ensures
        is_token_of(token@, selector, secret) ==> (r matches Ok(parts) && parts.0@ == selector
            && parts.1@ == secret),
        r matches Ok(parts) ==> is_token_of(token@, parts.0@, parts.1@),
        r is Err ==> refuses(r, Code::Unauthenticated, "invalid refresh token"@),
{
    login_laws::lemma_token_parts(token@, selector, secret);
}

/// A refresh token is made where there are both a selector and a secret, of these.
pub proof fn law_token_needs_both_parts(
    selector: Option<String>,
    secret: Option<String>,
    r: Option<RefreshToken>,
)
    requires
        call_ensures(secrets::refresh_token_of_any, (selector, secret), r),
    ensures
        r is Some <==> selector is Some && secret is Some,
        r matches Some(token) ==> token.token@ == selector->0@ + "."@ + secret->0@
            && token.selector@ == selector->0@ && token.token_hash@ == secrets::sha256(
            vstd::utf8::encode_utf8(secret->0@),
        ),
{
}

/// The digest of a text is spelled in base sixteen.
pub proof fn law_digest_is_spelled(contents: &str, r: String)
    requires
        call_ensures(secrets::sha256_hex, (contents,), r),
    ensures
        ({
            let digest = secrets::sha256(vstd::utf8::encode_utf8(contents@));
            &&& r@.len() == 2 * digest.len()
            &&& forall|i: int|
                0 <= i < digest.len() ==> #[trigger] digest[i] as int == hex_value(r@[2 * i]) * 16
                    + hex_value(r@[2 * i + 1])
        }),
{
    text_laws::lemma_hex_values(secrets::sha256(vstd::utf8::encode_utf8(contents@)));
}

/// The first bytes are spelled in base sixteen, as many as are asked for and there.
pub proof fn law_first_bytes_are_spelled(
    bytes: Vec<u8>,
    len: usize,
    r: Option<String>,
    none: Option<String>,
)
    requires
        call_ensures(secrets::hex_of_any, (Some(bytes), len), r),
        call_ensures(secrets::hex_of_any, (None::<Vec<u8>>, len), none),
    ensures
        none is None,
        r matches Some(spelled) && ({
            let n = if len <= bytes@.len() {
                len as int
            } else {
                bytes@.len() as int
            };
            &&& spelled@.len() == 2 * n
            &&& forall|i: int|
                0 <= i < n ==> #[trigger] bytes@[i] as int == hex_value(spelled@[2 * i]) * 16
                    + hex_value(spelled@[2 * i + 1])
        }),
{
    let n = if len <= bytes@.len() {
        len as int
    } else {
        bytes@.len() as int
    };
    let part = bytes@.take(n);
    text_laws::lemma_hex_values(part);
    assert forall|i: int| 0 <= i < n implies #[trigger] bytes@[i] as int == hex_value(
        r->0@[2 * i],
    ) * 16 + hex_value(r->0@[2 * i + 1]) by {
        assert(part[i] == bytes@[i]);
    }
}

/// Identifiers of logins have 64 digits, and other random identifiers two for each byte.
pub proof fn law_identifiers_have_their_length(
    id: String,
    len: usize,
    other: String,
    key: Vec<u8>,
)
    requires
        call_ensures(secrets::generate_auth_session_id, (), Some(id)),
        len <= 32,
        call_ensures(secrets::random_hex, (len,), Some(other)),
        call_ensures(secrets::generate_jwt_secret, (), Some(key)),
    ensures
        id@.len() == 64,
        other@.len() == 2 * len,
        key@.len() == 32,
{
}

/// The seconds of the clock are counted as they are, as long as they can be.
pub proof fn law_seconds_are_counted(seconds: Option<u64>, r: Option<i64>)
    requires
        call_ensures(clock::counted_seconds, (seconds,), r),
    ensures
        seconds matches Some(n) ==> n <= i64::MAX ==> (r matches Some(now) && now == n),
        seconds matches Some(n) ==> n > i64::MAX ==> r is None,
        seconds is None ==> r is None,
{
}

/// A refusal has the code and the message that it was made with.
pub proof fn law_refusal_says_what_it_was_made_with(
    code: Code,
    message: &str,
    detail: &str,
    plain: Status,
    detailed: Status,
    told: Code,
    read: &str,
)
    requires
        call_ensures(Status::new, (code, message), plain),
        call_ensures(Status::with_detail, (code, message, detail), detailed),
        call_ensures(Status::code, (&detailed,), told),
        call_ensures(Status::message, (&detailed,), read),
    ensures
        plain.code == code && plain.message@ == message@,
        detailed.code == code && detailed.message@ == message@ + detail@,
        told == code,
        read@ == message@ + detail@,
{
}

} // verus!

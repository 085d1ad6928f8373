//! Branches: how they are created, listed, deleted and opened to their users.
//!
//! Each operation is a chain of steps. A step says what is to be asked of the management
//! service or of the database next; the one after it takes the answer.

use vstd::prelude::*;

use crate::auth::{
    require_permission, require_permission_or_owner, AuthContext, AuthContextView,
};
use crate::config::{ProjectConfig, ServerConfig};
use crate::db::{BranchRecord, Statement, StatementView};
use crate::http::{HttpReply, HttpReplyView, HttpRequest, HttpRequestView};
use crate::messages::{
    BranchCredentials, BranchCredentialsView, BranchInfo, BranchInfoView, BranchOwnership,
    ListBranchesResponse, Versioned, VersionedView,
};
use crate::service::{
    authenticated, branch_credentials_response, classify_branch_ownership, database_error,
    resolve_project, string_or_empty, validated_branch_ref, SupabasedService,
};
use crate::status::{Code, Status, StatusView};
use crate::supabase::{
    created_branch, deleted_branch, extract_credentials, listed_api_keys, listed_branches,
    ApiKeyResponse, BranchResponse, DeleteBranchOutcome,
};
use crate::tables::Step;
use crate::text::same_text;
use crate::{auth, db, http, messages, service, status, supabase, tables, text};

verus! {

/// A branch that the management service is to be asked for.
#[derive(Clone, Debug)]
pub struct BranchToCreate {
    pub identity: String,
    pub project_name: String,
    pub branch_name: String,
    pub project_ref: String,
    pub request: HttpRequest,
}

pub struct BranchToCreateView {
    pub identity: Seq<char>,
    pub project_name: Seq<char>,
    pub branch_name: Seq<char>,
    pub project_ref: Seq<char>,
    pub request: HttpRequestView,
}

impl View for BranchToCreate {
    type V = BranchToCreateView;

    open spec fn view(&self) -> BranchToCreateView {
        BranchToCreateView {
            identity: self.identity@,
            project_name: self.project_name@,
            branch_name: self.branch_name@,
            project_ref: self.project_ref@,
            request: self.request@,
        }
    }
}

/// What a request for a new branch leads to.
pub open spec fn branch_to_create(
    config: ServerConfig,
    token: Seq<char>,
    ctx: Option<AuthContextView>,
    project_name: Seq<char>,
    branch_name: Seq<char>,
) -> Result<BranchToCreateView, StatusView> {
    match ctx {
        None => Err(service::authentication_required()),
        Some(ctx) => if !auth::permits(ctx, "branches.create"@) {
            Err(auth::missing_permission("branches.create"@))
        } else {
            match service::project_named(config, project_name) {
                Err(failure) => Err(failure),
                Ok(project) => Ok(
                    BranchToCreateView {
                        identity: ctx.identity,
                        project_name,
                        branch_name,
                        project_ref: project.project_ref@,
                        request: supabase::create_request(token, project.project_ref@, branch_name),
                    },
                ),
            }
        },
    }
}

/// A branch that was created and is to be filed.
#[derive(Clone, Debug)]
pub struct BranchToRecord {
    pub branch: BranchInfo,
    pub record: Statement,
}

pub struct BranchToRecordView {
    pub branch: BranchInfoView,
    pub record: StatementView,
}

impl View for BranchToRecord {
    type V = BranchToRecordView;

    open spec fn view(&self) -> BranchToRecordView {
        BranchToRecordView {
            branch: self.branch@,
            record: self.record@,
        }
    }
}

/// The statement that files a branch.
pub open spec fn branch_insert(
    branch_name: Seq<char>,
    project_name: Seq<char>,
    identity: Seq<char>,
    branch_ref: Seq<char>,
) -> StatementView {
    db::statement(
        db::INSERT_BRANCH@,
        seq![
            db::SqlView::Text(branch_name),
            db::SqlView::Text(project_name),
            db::SqlView::Text(identity),
            db::SqlView::Text(branch_ref),
        ],
    )
}

/// What the reply to the creation of a branch leads to.
pub open spec fn branch_to_record(
    asked: BranchToCreateView,
    reply: HttpReplyView,
    parsed: Result<BranchResponse, String>,
) -> Result<BranchToRecordView, StatusView> {
    match supabase::creation_result(reply, parsed) {
        Err(failure) => Err(failure),
        Ok(response) => match service::child_branch_ref(response, asked.project_ref) {
            Err(failure) => Err(failure),
            Ok(branch_ref) => Ok(
                BranchToRecordView {
                    branch: BranchInfoView {
                        branch_name: asked.branch_name,
                        project_name: asked.project_name,
                        status: service::text_or_empty(response.status),
                        created_at: service::text_or_empty(response.created_at),
                        ownership: BranchOwnership::Yours,
                    },
                    record: branch_insert(
                        asked.branch_name,
                        asked.project_name,
                        asked.identity,
                        branch_ref,
                    ),
                },
            ),
        },
    }
}

/// What the filing of a branch leads to.
pub open spec fn branch_recorded_result(
    created: BranchToRecordView,
    recorded: Result<(), String>,
    config_version: Seq<char>,
) -> Result<VersionedView<BranchInfoView>, StatusView> {
    match recorded {
        Ok(()) => Ok(messages::versioned(created.branch, config_version)),
        Err(error) => Err(
            status::refusal(Code::Internal, "failed to record branch: "@ + error@),
        ),
    }
}

impl SupabasedService {
    /// A request of `ctx` for a new branch of a project.
    pub fn create_branch(&self, ctx: Option<AuthContext>, project_name: &str, branch_name: &str) -> (r:
        Result<BranchToCreate, Status>)
        ensures
            status::seen(r) == branch_to_create(
                self.config,
                self.supabase_client.access_token(),
                service::maker(ctx),
                project_name@,
                branch_name@,
            ),
    {
        let ctx = match authenticated(ctx) {
            Ok(ctx) => ctx,
            Err(status) => {
                return Err(status);
            },
        };
        if let Err(status) = require_permission(&ctx, "branches.create") {
            return Err(status);
        }
        match resolve_project(&self.config, project_name) {
            Err(status) => Err(status),
            Ok(project) => {
                let request = self.supabase_client.create_branch(
                    project.project_ref.as_str(),
                    branch_name,
                );
                Ok(
                    BranchToCreate {
                        identity: ctx.identity,
                        project_name: project_name.to_string(),
                        branch_name: branch_name.to_string(),
                        project_ref: project.project_ref.clone(),
                        request,
                    },
                )
            },
        }
    }

    /// The management service has replied to the request for a new branch.
    pub fn branch_created(
        &self,
        asked: BranchToCreate,
        reply: &HttpReply,
        parsed: Result<BranchResponse, String>,
    ) -> (r: Result<BranchToRecord, Status>)
        ensures
            status::seen(r) == branch_to_record(asked@, reply@, parsed),
    {
        let response = match created_branch(reply, parsed) {
            Ok(response) => response,
            Err(status) => {
                return Err(status);
            },
        };
        let branch_ref = match validated_branch_ref(&response, asked.project_ref.as_str()) {
            Ok(branch_ref) => branch_ref,
            Err(status) => {
                return Err(status);
            },
        };
        let record = db::record_branch(
            asked.branch_name.as_str(),
            asked.project_name.as_str(),
            asked.identity.as_str(),
            branch_ref.as_str(),
        );
        let branch = BranchInfo {
            branch_name: asked.branch_name,
            project_name: asked.project_name,
            status: string_or_empty(response.status),
            created_at: string_or_empty(response.created_at),
            ownership: BranchOwnership::Yours,
        };
        Ok(BranchToRecord { branch, record })
    }

    /// The new branch was filed, or the database has failed.
    pub fn branch_recorded(&self, created: BranchToRecord, recorded: Result<(), String>) -> (r:
        Result<Versioned<BranchInfo>, Status>)
        ensures
            status::seen(r) == branch_recorded_result(created@, recorded, self.config_hash@),
    {
        match recorded {
            Ok(()) => Ok(self.with_config_version(created.branch)),
            Err(error) => Err(
                Status::with_detail(Code::Internal, "failed to record branch: ", error.as_str()),
            ),
        }
    }
}

/// A branch that is to be looked up in the database for `ctx`.
#[derive(Clone, Debug)]
pub struct BranchToFind {
    pub ctx: AuthContext,
    pub project_name: String,
    pub branch_name: String,
    pub lookup: Statement,
}

pub struct BranchToFindView {
    pub ctx: AuthContextView,
    pub project_name: Seq<char>,
    pub branch_name: Seq<char>,
    pub lookup: StatementView,
}

impl View for BranchToFind {
    type V = BranchToFindView;

    open spec fn view(&self) -> BranchToFindView {
        BranchToFindView {
            ctx: self.ctx@,
            project_name: self.project_name@,
            branch_name: self.branch_name@,
            lookup: self.lookup@,
        }
    }
}

/// What a request that concerns a branch leads to.
pub open spec fn branch_to_find(
    ctx: Option<AuthContextView>,
    project_name: Seq<char>,
    branch_name: Seq<char>,
) -> Result<BranchToFindView, StatusView> {
    match ctx {
        None => Err(service::authentication_required()),
        Some(ctx) => Ok(
            BranchToFindView {
                ctx,
                project_name,
                branch_name,
                lookup: db::statement(
                    db::SELECT_BRANCH@,
                    seq![db::SqlView::Text(branch_name), db::SqlView::Text(project_name)],
                ),
            },
        ),
    }
}

/// The record of a branch that `ctx` may use as it asks to, or why there is none.
pub open spec fn branch_found(
    sought: BranchToFindView,
    own: Seq<char>,
    any: Seq<char>,
    found: Result<Option<BranchRecord>, String>,
) -> Result<BranchRecord, StatusView> {
    match found {
        Err(error) => Err(service::database_failure(error@)),
        Ok(None) => Err(
            status::refusal(
                Code::NotFound,
                "branch '"@ + sought.branch_name + "' not found in project '"@
                    + sought.project_name + "'"@,
            ),
        ),
        Ok(Some(record)) => if auth::permits_as_owner(
            sought.ctx,
            own,
            any,
            record.creator_identity@,
        ) {
            Ok(record)
        } else {
            Err(auth::missing_ownership(own, any))
        },
    }
}

fn find_branch(ctx: Option<AuthContext>, project_name: &str, branch_name: &str) -> (r: Result<
    BranchToFind,
    Status,
>)
    ensures
        status::seen(r) == branch_to_find(service::maker(ctx), project_name@, branch_name@),
{
    match authenticated(ctx) {
        Err(status) => Err(status),
        Ok(ctx) => Ok(
            BranchToFind {
                ctx,
                project_name: project_name.to_string(),
                branch_name: branch_name.to_string(),
                lookup: db::get_branch(branch_name, project_name),
            },
        ),
    }
}

fn permitted_branch(
    sought: &BranchToFind,
    own: &str,
    any: &str,
    found: Result<Option<BranchRecord>, String>,
) -> (r: Result<BranchRecord, Status>)
    ensures
        status::outcome(r) == branch_found(sought@, own@, any@, found),
{
    match found {
        Err(error) => Err(database_error(error.as_str())),
        Ok(None) => {
            let mut message = "branch '".to_string();
            message.append(sought.branch_name.as_str());
            message.append("' not found in project '");
            message.append(sought.project_name.as_str());
            message.append("'");
            Err(Status { code: Code::NotFound, message })
        },
        Ok(Some(record)) => match require_permission_or_owner(
            &sought.ctx,
            own,
            any,
            record.creator_identity.as_str(),
        ) {
            Ok(()) => Ok(record),
            Err(status) => Err(status),
        },
    }
}

/// A branch that the management service is to be asked to delete.
#[derive(Clone, Debug)]
pub struct BranchToDelete {
    pub project_name: String,
    pub branch_name: String,
    pub branch_ref: String,
    pub request: HttpRequest,
}

pub struct BranchToDeleteView {
    pub project_name: Seq<char>,
    pub branch_name: Seq<char>,
    pub branch_ref: Seq<char>,
    pub request: HttpRequestView,
}

impl View for BranchToDelete {
    type V = BranchToDeleteView;

    open spec fn view(&self) -> BranchToDeleteView {
        BranchToDeleteView {
            project_name: self.project_name@,
            branch_name: self.branch_name@,
            branch_ref: self.branch_ref@,
            request: self.request@,
        }
    }
}

/// What the record of a branch that is to be deleted leads to.
pub open spec fn branch_to_delete(
    token: Seq<char>,
    sought: BranchToFindView,
    found: Result<Option<BranchRecord>, String>,
) -> Result<BranchToDeleteView, StatusView> {
    match branch_found(sought, "branches.delete_own"@, "branches.delete_any"@, found) {
        Err(failure) => Err(failure),
        Ok(record) => Ok(
            BranchToDeleteView {
                project_name: sought.project_name,
                branch_name: sought.branch_name,
                branch_ref: record.branch_ref@,
                request: supabase::delete_request(token, record.branch_ref@),
            },
        ),
    }
}

/// The statement that forgets a branch.
pub open spec fn branch_removal(branch_name: Seq<char>, project_name: Seq<char>) -> StatementView {
    db::statement(
        db::DELETE_BRANCH@,
        seq![db::SqlView::Text(branch_name), db::SqlView::Text(project_name)],
    )
}

/// What the reply to the deletion of a branch leads to: the statement that forgets it.
pub open spec fn branch_to_forget(asked: BranchToDeleteView, reply: HttpReplyView) -> Result<
    StatementView,
    StatusView,
> {
    match supabase::deletion_result(reply) {
        Err(failure) => Err(failure),
        Ok(DeleteBranchOutcome::Missing) => Err(
            status::refusal(
                Code::NotFound,
                "Supabase branch '"@ + asked.branch_ref + "' was not found"@,
            ),
        ),
        Ok(DeleteBranchOutcome::Deleted) => Ok(
            branch_removal(asked.branch_name, asked.project_name),
        ),
    }
}

impl SupabasedService {
    /// A request of `ctx` to delete a branch.
    pub fn delete_branch(&self, ctx: Option<AuthContext>, project_name: &str, branch_name: &str) -> (r:
        Result<BranchToFind, Status>)
        ensures
            status::seen(r) == branch_to_find(service::maker(ctx), project_name@, branch_name@),
    {
        find_branch(ctx, project_name, branch_name)
    }

    /// The database was asked for the branch that is to be deleted.
    pub fn branch_to_delete_found(
        &self,
        sought: BranchToFind,
        found: Result<Option<BranchRecord>, String>,
    ) -> (r: Result<BranchToDelete, Status>)
        ensures
            status::seen(r) == branch_to_delete(
                self.supabase_client.access_token(),
                sought@,
                found,
            ),
    {
        match permitted_branch(&sought, "branches.delete_own", "branches.delete_any", found) {
            Err(status) => Err(status),
            Ok(record) => {
                let request = self.supabase_client.delete_branch(record.branch_ref.as_str());
                Ok(
                    BranchToDelete {
                        project_name: sought.project_name,
                        branch_name: sought.branch_name,
                        branch_ref: record.branch_ref,
                        request,
                    },
                )
            },
        }
    }

    /// The management service has replied to the request to delete a branch.
    pub fn branch_deleted(&self, asked: BranchToDelete, reply: &HttpReply) -> (r: Result<
        Statement,
        Status,
    >)
        ensures
            status::seen(r) == branch_to_forget(asked@, reply@),
    {
        match deleted_branch(reply) {
            Err(status) => Err(status),
            Ok(DeleteBranchOutcome::Missing) => {
                let mut message = "Supabase branch '".to_string();
                message.append(asked.branch_ref.as_str());
                message.append("' was not found");
                Err(Status { code: Code::NotFound, message })
            },
            Ok(DeleteBranchOutcome::Deleted) => Ok(
                db::delete_branch(asked.branch_name.as_str(), asked.project_name.as_str()),
            ),
        }
    }

    /// The branch was forgotten, or the database has failed. The value says that the branch
    /// is deleted.
    pub fn branch_forgotten(&self, forgotten: Result<(), String>) -> (r: Result<
        Versioned<bool>,
        Status,
    >)
        ensures
            match forgotten {
                Ok(()) => r matches Ok(reply) && reply.message && reply.config_version
                    == self.config_hash,
                Err(error) => r matches Err(status) && status@ == service::database_failure(error@),
            },
    {
        match forgotten {
            Ok(()) => Ok(self.with_config_version(true)),
            Err(error) => Err(database_error(error.as_str())),
        }
    }
}

/// A branch whose keys the management service is to be asked for.
#[derive(Clone, Debug)]
pub struct CredentialsToFetch {
    pub project_name: String,
    pub branch_name: String,
    pub branch_ref: String,
    pub request: HttpRequest,
}

pub struct CredentialsToFetchView {
    pub project_name: Seq<char>,
    pub branch_name: Seq<char>,
    pub branch_ref: Seq<char>,
    pub request: HttpRequestView,
}

impl View for CredentialsToFetch {
    type V = CredentialsToFetchView;

    open spec fn view(&self) -> CredentialsToFetchView {
        CredentialsToFetchView {
            project_name: self.project_name@,
            branch_name: self.branch_name@,
            branch_ref: self.branch_ref@,
            request: self.request@,
        }
    }
}

/// What the record of a branch whose credentials are asked for leads to.
pub open spec fn credentials_to_fetch(
    token: Seq<char>,
    sought: BranchToFindView,
    found: Result<Option<BranchRecord>, String>,
) -> Result<CredentialsToFetchView, StatusView> {
    match branch_found(
        sought,
        "branches.get_credentials_own"@,
        "branches.get_credentials_any"@,
        found,
    ) {
        Err(failure) => Err(failure),
        Ok(record) => Ok(
            CredentialsToFetchView {
                project_name: sought.project_name,
                branch_name: sought.branch_name,
                branch_ref: record.branch_ref@,
                request: supabase::keys_request(token, record.branch_ref@),
            },
        ),
    }
}

/// What the keys of a branch lead to.
pub open spec fn credentials_result(
    asked: CredentialsToFetchView,
    reply: HttpReplyView,
    parsed: Result<Vec<ApiKeyResponse>, String>,
) -> Result<BranchCredentialsView, StatusView> {
    match supabase::supabase_result(reply, parsed) {
        Err(failure) => Err(failure),
        Ok(keys) => {
            let views = supabase::key_views(keys@);
            match supabase::modern_key(views, "publishable"@, "sb_publishable_"@) {
                Err(message) => Err(status::refusal(Code::Internal, message)),
                Ok(public) => match supabase::modern_key(views, "secret"@, "sb_secret_"@) {
                    Err(message) => Err(status::refusal(Code::Internal, message)),
                    Ok(private) => Ok(
                        BranchCredentialsView {
                            branch_name: asked.branch_name,
                            project_name: asked.project_name,
                            api_url: supabase::branch_api_url(asked.branch_ref),
                            publishable_key: public,
                            secret_key: private,
                            anon_key: public,
                            service_role_key: private,
                        },
                    ),
                },
            }
        },
    }
}

impl SupabasedService {
    /// A request of `ctx` for the credentials of a branch.
    pub fn get_branch_credentials(
        &self,
        ctx: Option<AuthContext>,
        project_name: &str,
        branch_name: &str,
    ) -> (r: Result<BranchToFind, Status>)
        ensures
            status::seen(r) == branch_to_find(service::maker(ctx), project_name@, branch_name@),
    {
        find_branch(ctx, project_name, branch_name)
    }

    /// The database was asked for the branch whose credentials are wanted.
    pub fn branch_with_credentials_found(
        &self,
        sought: BranchToFind,
        found: Result<Option<BranchRecord>, String>,
    ) -> (r: Result<CredentialsToFetch, Status>)
        ensures
            status::seen(r) == credentials_to_fetch(
                self.supabase_client.access_token(),
                sought@,
                found,
            ),
    {
        match permitted_branch(
            &sought,
            "branches.get_credentials_own",
            "branches.get_credentials_any",
            found,
        ) {
            Err(status) => Err(status),
            Ok(record) => {
                let request = self.supabase_client.get_api_keys(record.branch_ref.as_str());
                Ok(
                    CredentialsToFetch {
                        project_name: sought.project_name,
                        branch_name: sought.branch_name,
                        branch_ref: record.branch_ref,
                        request,
                    },
                )
            },
        }
    }

    /// The management service has replied to the request for the keys of a branch.
    pub fn credentials_fetched(
        &self,
        asked: CredentialsToFetch,
        reply: &HttpReply,
        parsed: Result<Vec<ApiKeyResponse>, String>,
    ) -> (r: Result<Versioned<BranchCredentials>, Status>)
        ensures
            status::seen(r) == match credentials_result(asked@, reply@, parsed) {
                Ok(credentials) => Ok(messages::versioned(credentials, self.config_hash@)),
                Err(failure) => Err(failure),
            },
    {
        let keys = match listed_api_keys(reply, parsed) {
            Ok(keys) => keys,
            Err(status) => {
                return Err(status);
            },
        };
        match extract_credentials(keys.as_slice(), asked.branch_ref.as_str()) {
            Err(status) => Err(status),
            Ok(creds) => {
                let response = branch_credentials_response(
                    asked.project_name,
                    asked.branch_name,
                    creds,
                );
                Ok(self.with_config_version(response))
            },
        }
    }
}

/// A list of branches for which the database is to be asked what is filed.
#[derive(Clone, Debug)]
pub struct BranchesToLookUp {
    pub ctx: AuthContext,
    pub targets: Vec<(String, String)>,
    pub lookup: Statement,
}

/// The projects of `targets` have a name and a reference each.
pub struct BranchesToLookUpView {
    pub ctx: AuthContextView,
    pub targets: Seq<(Seq<char>, Seq<char>)>,
    pub lookup: StatementView,
}

impl View for BranchesToLookUp {
    type V = BranchesToLookUpView;

    open spec fn view(&self) -> BranchesToLookUpView {
        BranchesToLookUpView {
            ctx: self.ctx@,
            targets: http::pairs(self.targets@),
            lookup: self.lookup@,
        }
    }
}

/// Each project, with its name and its reference.
pub open spec fn project_pairs(projects: Seq<ProjectConfig>) -> Seq<(Seq<char>, Seq<char>)> {
    projects.map_values(|p: ProjectConfig| (p.name@, p.project_ref@))
}

/// The projects whose branches are to be listed: all, or the one that is named.
pub open spec fn list_targets(config: ServerConfig, project_name: Seq<char>) -> Result<
    Seq<(Seq<char>, Seq<char>)>,
    StatusView,
> {
    if project_name.len() == 0 {
        Ok(project_pairs(config.projects@))
    } else {
        match service::project_named(config, project_name) {
            Ok(project) => Ok(seq![(project.name@, project.project_ref@)]),
            Err(failure) => Err(failure),
        }
    }
}

/// The statement that lists what is filed of the branches of one or of all projects.
pub open spec fn list_lookup(project_name: Seq<char>) -> StatementView {
    if project_name.len() == 0 {
        db::statement(db::SELECT_ALL_BRANCHES@, Seq::empty())
    } else {
        db::statement(db::SELECT_PROJECT_BRANCHES@, seq![db::SqlView::Text(project_name)])
    }
}

/// What a request for a list of branches leads to.
pub open spec fn branches_to_look_up(
    config: ServerConfig,
    ctx: Option<AuthContextView>,
    project_name: Seq<char>,
) -> Result<BranchesToLookUpView, StatusView> {
    match ctx {
        None => Err(service::authentication_required()),
        Some(ctx) => if !auth::permits(ctx, "branches.list"@) {
            Err(auth::missing_permission("branches.list"@))
        } else {
            match list_targets(config, project_name) {
                Err(failure) => Err(failure),
                Ok(targets) => Ok(
                    BranchesToLookUpView { ctx, targets, lookup: list_lookup(project_name) },
                ),
            }
        },
    }
}

/// What is filed of a branch: the last of the records for its project and its name.
pub open spec fn record_of(
    records: Seq<BranchRecord>,
    project_name: Seq<char>,
    branch_name: Seq<char>,
) -> Option<BranchRecord>
    decreases records.len(),
{
    if records.len() == 0 {
        None
    } else if records.last().project_name@ == project_name && records.last().branch_name@
        == branch_name {
        Some(records.last())
    } else {
        record_of(records.drop_last(), project_name, branch_name)
    }
}

/// The property of a branch of not being the project itself.
pub open spec fn not_default() -> spec_fn(BranchResponse) -> bool {
    |b: BranchResponse| b.is_default != Some(true)
}

/// A branch of the project, as it is listed for `ctx`.
pub open spec fn listed(
    ctx: AuthContextView,
    project_name: Seq<char>,
    records: Seq<BranchRecord>,
    branch: BranchResponse,
) -> BranchInfoView {
    let branch_name = service::text_or_empty(branch.name);
    BranchInfoView {
        branch_name,
        project_name,
        status: service::text_or_empty(branch.status),
        created_at: service::text_or_empty(branch.created_at),
        ownership: service::ownership(ctx, record_of(records, project_name, branch_name)),
    }
}

/// How the branches of the project are listed for `ctx`.
pub open spec fn listing(
    ctx: AuthContextView,
    project_name: Seq<char>,
    records: Seq<BranchRecord>,
) -> spec_fn(BranchResponse) -> BranchInfoView {
    |b: BranchResponse| listed(ctx, project_name, records, b)
}

/// The branches of one project, as they are listed for `ctx`.
pub open spec fn project_listing(
    ctx: AuthContextView,
    project_name: Seq<char>,
    records: Seq<BranchRecord>,
    branches: Seq<BranchResponse>,
) -> Seq<BranchInfoView> {
    branches.filter(not_default()).map_values(listing(ctx, project_name, records))
}

fn find_record<'a>(records: &'a Vec<BranchRecord>, project_name: &str, branch_name: &str) -> (r:
    Option<&'a BranchRecord>)
    ensures
        match record_of(records@, project_name@, branch_name@) {
            Some(record) => r matches Some(found) && *found == record,
            None => r is None,
        },
{
    let mut n: usize = records.len();
    assert(records@.take(n as int) =~= records@);
    while n > 0
        invariant
            n <= records.len(),
            record_of(records@, project_name@, branch_name@) == record_of(
                records@.take(n as int),
                project_name@,
                branch_name@,
            ),
        decreases n,
    {
        assert(records@.take(n as int).drop_last() =~= records@.take(n - 1));
        let record = &records[n - 1];
        if same_text(record.project_name.as_str(), project_name) && same_text(
            record.branch_name.as_str(),
            branch_name,
        ) {
            return Some(record);
        }
        n -= 1;
    }
    None
}

/// The branches of one project, as they are listed for `ctx`.
pub fn list_project_branches(
    ctx: &AuthContext,
    project_name: &str,
    records: &Vec<BranchRecord>,
    branches: &Vec<BranchResponse>,
) -> (r: Vec<BranchInfo>)
    ensures
        messages::branch_views(r@) == project_listing(
            ctx@,
            project_name@,
            records@,
            branches@,
        ),
{
    let mut infos: Vec<BranchInfo> = Vec::new();
    let ghost keep = not_default();
    let ghost show = listing(ctx@, project_name@, records@);
    let mut i: usize = 0;
    assert(branches@.take(0).filter(keep) =~= Seq::empty()) by {
        reveal(Seq::filter);
    }
    assert(messages::branch_views(infos@) =~= branches@.take(0).filter(keep).map_values(show));
    while i < branches.len()
        invariant
            i <= branches.len(),
            keep == not_default(),
            show == listing(ctx@, project_name@, records@),
            messages::branch_views(infos@) == branches@.take(i as int).filter(keep).map_values(
                show,
            ),
        decreases branches.len() - i,
    {
        let ghost before = infos@;
        let branch = &branches[i];
        assert(branches@.take(i + 1).drop_last() =~= branches@.take(i as int));
        let is_default = match branch.is_default {
            Some(is_default) => is_default,
            None => false,
        };
        proof {
            reveal(Seq::filter);
        }
        if !is_default {
            let branch_name = string_or_empty(branch.name.clone());
            let ownership = classify_branch_ownership(
                ctx,
                find_record(records, project_name, branch_name.as_str()),
            );
            infos.push(
                BranchInfo {
                    branch_name,
                    project_name: project_name.to_string(),
                    status: string_or_empty(branch.status.clone()),
                    created_at: string_or_empty(branch.created_at.clone()),
                    ownership,
                },
            );
            assert(keep(branches@[i as int]));
            assert(infos@.last()@ == show(branches@[i as int]));
            assert(messages::branch_views(infos@) =~= messages::branch_views(before).push(
                show(branches@[i as int]),
            ));
            assert(branches@.take(i + 1).filter(keep).map_values(show) =~= branches@.take(
                i as int,
            ).filter(keep).map_values(show).push(show(branches@[i as int])));
        }
        i += 1;
    }
    assert(branches@.take(i as int) =~= branches@);
    infos
}

/// A list of branches for which the management service is asked project by project.
#[derive(Clone, Debug)]
pub struct BranchesToList {
    pub ctx: AuthContext,
    pub targets: Vec<(String, String)>,
    pub records: Vec<BranchRecord>,
    pub answered: usize,
    pub branches: Vec<BranchInfo>,
}

/// `answered` of the projects were answered for.
pub struct BranchesToListView {
    pub ctx: AuthContextView,
    pub targets: Seq<(Seq<char>, Seq<char>)>,
    pub records: Seq<BranchRecord>,
    pub answered: nat,
    pub branches: Seq<BranchInfoView>,
}

impl View for BranchesToList {
    type V = BranchesToListView;

    open spec fn view(&self) -> BranchesToListView {
        BranchesToListView {
            ctx: self.ctx@,
            targets: http::pairs(self.targets@),
            records: self.records@,
            answered: self.answered as nat,
            branches: messages::branch_views(self.branches@),
        }
    }
}

/// What the records of the database lead to.
pub open spec fn branches_to_list(
    asked: BranchesToLookUpView,
    found: Result<Vec<BranchRecord>, String>,
) -> Result<BranchesToListView, StatusView> {
    match found {
        Err(error) => Err(service::database_failure(error@)),
        Ok(records) => Ok(
            BranchesToListView {
                ctx: asked.ctx,
                targets: asked.targets,
                records: records@,
                answered: 0,
                branches: Seq::empty(),
            },
        ),
    }
}

/// The list once the next project is answered for with `branches`.
pub open spec fn with_answer(
    list: BranchesToListView,
    branches: Seq<BranchResponse>,
) -> BranchesToListView {
    BranchesToListView {
        answered: list.answered + 1,
        branches: list.branches + project_listing(
            list.ctx,
            list.targets[list.answered as int].0,
            list.records,
            branches,
        ),
        ..list
    }
}

/// What the reply for the next project leads to.
pub open spec fn answered_list(
    list: BranchesToListView,
    reply: HttpReplyView,
    parsed: Result<Vec<BranchResponse>, String>,
) -> Result<BranchesToListView, StatusView> {
    match supabase::supabase_result(reply, parsed) {
        Err(failure) => Err(failure),
        Ok(branches) => Ok(with_answer(list, branches@)),
    }
}

impl SupabasedService {
    /// A request of `ctx` for the branches of one project, or of all where the name is empty.
    pub fn list_branches(&self, ctx: Option<AuthContext>, project_name: &str) -> (r: Result<
        BranchesToLookUp,
        Status,
    >)
        ensures
            status::seen(r) == branches_to_look_up(
                self.config,
                service::maker(ctx),
                project_name@,
            ),
    {
        let ctx = match authenticated(ctx) {
            Ok(ctx) => ctx,
            Err(status) => {
                return Err(status);
            },
        };
        if let Err(status) = require_permission(&ctx, "branches.list") {
            return Err(status);
        }
        let mut targets: Vec<(String, String)> = Vec::new();
        let lookup;
        if project_name.is_empty() {
            let ghost all = project_pairs(self.config.projects@);
            let mut i: usize = 0;
            while i < self.config.projects.len()
                invariant
                    i <= self.config.projects.len(),
                    all == project_pairs(self.config.projects@),
                    http::pairs(targets@) == all.take(i as int),
                decreases self.config.projects.len() - i,
            {
                let ghost before = targets@;
                let project = &self.config.projects[i];
                targets.push((project.name.clone(), project.project_ref.clone()));
                assert(http::pairs(targets@) =~= http::pairs(before).push(all[i as int]));
                assert(all.take(i + 1) =~= all.take(i as int).push(all[i as int]));
                i += 1;
            }
            assert(all.take(i as int) =~= all);
            lookup = db::list_all_branches();
        } else {
            match resolve_project(&self.config, project_name) {
                Err(status) => {
                    return Err(status);
                },
                Ok(project) => {
                    targets.push((project.name.clone(), project.project_ref.clone()));
                    assert(http::pairs(targets@) =~= seq![(project.name@, project.project_ref@)]);
                },
            }
            lookup = db::list_branches_by_project(project_name);
        }
        Ok(BranchesToLookUp { ctx, targets, lookup })
    }

    /// The database was asked what is filed of the branches.
    pub fn branches_looked_up(
        &self,
        asked: BranchesToLookUp,
        found: Result<Vec<BranchRecord>, String>,
    ) -> (r: Result<BranchesToList, Status>)
        ensures
            status::seen(r) == branches_to_list(asked@, found),
    {
        match found {
            Err(error) => Err(database_error(error.as_str())),
            Ok(records) => {
                let list = BranchesToList {
                    ctx: asked.ctx,
                    targets: asked.targets,
                    records,
                    answered: 0,
                    branches: Vec::new(),
                };
                assert(list@.branches =~= Seq::empty());
                Ok(list)
            },
        }
    }

    /// The request for the branches of the next project, where one is left.
    pub fn next_list_request(&self, list: &BranchesToList) -> (r: Option<HttpRequest>)
        ensures
            match r {
                Some(request) => {
                    &&& list@.answered < list@.targets.len()
                    &&& request@ == supabase::list_request(
                        self.supabase_client.access_token(),
                        list@.targets[list@.answered as int].1,
                    )
                },
                None => list@.answered >= list@.targets.len(),
            },
    {
        if list.answered < list.targets.len() {
            Some(self.supabase_client.list_branches(list.targets[list.answered].1.as_str()))
        } else {
            None
        }
    }

    /// The management service has replied to the request for the next project.
    pub fn project_listed(
        &self,
        list: BranchesToList,
        reply: &HttpReply,
        parsed: Result<Vec<BranchResponse>, String>,
    ) -> (r: Result<BranchesToList, Status>)
        requires
            list@.answered < list@.targets.len(),
        ensures
            status::seen(r) == answered_list(list@, reply@, parsed),
    {
        let branches = match listed_branches(reply, parsed) {
            Ok(branches) => branches,
            Err(status) => {
                return Err(status);
            },
        };
        let ghost before = list@;
        let mut list = list;
        assert(list.answered < list.targets.len());
        let mut infos = list_project_branches(
            &list.ctx,
            list.targets[list.answered].0.as_str(),
            &list.records,
            &branches,
        );
        let ghost more = infos@;
        list.branches.append(&mut infos);
        assert(list@.branches =~= before.branches + messages::branch_views(more));
        list.answered = list.answered + 1;
        Ok(list)
    }

    /// The list of branches, once every project is answered for.
    pub fn branches_listed(&self, list: BranchesToList) -> (r: Versioned<ListBranchesResponse>)
        ensures
            r@ == messages::versioned(list@.branches, self.config_hash@),
    {
        self.with_config_version(ListBranchesResponse { branches: list.branches })
    }
}

/// The list once the first projects are answered for, each with its branches.
pub open spec fn after_answers(
    list: BranchesToListView,
    answers: Seq<Seq<BranchResponse>>,
) -> BranchesToListView
    decreases answers.len(),
{
    if answers.len() == 0 {
        list
    } else {
        with_answer(after_answers(list, answers.drop_last()), answers.last())
    }
}

proof fn lemma_after_answers(list: BranchesToListView, answers: Seq<Seq<BranchResponse>>)
    requires
        list.answered == 0,
    ensures
        after_answers(list, answers) == (BranchesToListView {
            answered: answers.len(),
            branches: after_answers(list, answers).branches,
            ..list
        }),
    decreases answers.len(),
{
    if answers.len() > 0 {
        lemma_after_answers(list, answers.drop_last());
    }
}

/// A list holds every branch that a project was answered for with, but for the project
/// itself, as that project's.
pub proof fn law_every_branch_is_listed(
    list: BranchesToListView,
    answers: Seq<Seq<BranchResponse>>,
    i: int,
    j: int,
)
    requires
        list.answered == 0,
        0 <= i < answers.len(),
        0 <= j < answers[i].len(),
        answers[i][j].is_default != Some(true),
    ensures
        after_answers(list, answers).branches.contains(
            listed(list.ctx, list.targets[i].0, list.records, answers[i][j]),
        ),
    decreases answers.len(),
{
    let before = after_answers(list, answers.drop_last());
    lemma_after_answers(list, answers.drop_last());
    let info = listed(list.ctx, list.targets[i].0, list.records, answers[i][j]);
    let last = project_listing(
        list.ctx,
        list.targets[answers.len() - 1].0,
        list.records,
        answers.last(),
    );
    if i < answers.len() - 1 {
        law_every_branch_is_listed(list, answers.drop_last(), i, j);
        let k = choose|k: int| 0 <= k < before.branches.len() && before.branches[k] == info;
        assert((before.branches + last)[k] == info);
    } else {
        let kept = answers[i].filter(not_default());
        answers[i].lemma_filter_contains(not_default(), j);
        let k = choose|k: int| 0 <= k < kept.len() && kept[k] == answers[i][j];
        assert(last[k] == info);
        assert((before.branches + last)[before.branches.len() + k] == info);
    }
}

/// Whether a listed branch is one that the project `i` was answered for with, and is not the
/// project itself.
pub open spec fn answered_with_branch(
    list: BranchesToListView,
    answers: Seq<Seq<BranchResponse>>,
    info: BranchInfoView,
    i: int,
    j: int,
) -> bool {
    &&& 0 <= i < answers.len()
    &&& 0 <= j < answers[i].len()
    &&& answers[i][j].is_default != Some(true)
    &&& info == listed(list.ctx, list.targets[i].0, list.records, answers[i][j])
}

/// A list holds nothing else: every branch in it is one that a project was answered for
/// with, and never the project itself.
pub proof fn law_nothing_else_is_listed(
    list: BranchesToListView,
    answers: Seq<Seq<BranchResponse>>,
    k: int,
)
    requires
        list.answered == 0,
        list.branches.len() == 0,
        0 <= k < after_answers(list, answers).branches.len(),
    ensures
        exists|i: int, j: int|
            answered_with_branch(list, answers, after_answers(list, answers).branches[k], i, j),
    decreases answers.len(),
{
    if answers.len() > 0 {
        let before = after_answers(list, answers.drop_last());
        lemma_after_answers(list, answers.drop_last());
        let info = after_answers(list, answers).branches[k];
        if k < before.branches.len() {
            law_nothing_else_is_listed(list, answers.drop_last(), k);
            let (i, j) = choose|i: int, j: int|
                answered_with_branch(list, answers.drop_last(), before.branches[k], i, j);
            assert(answered_with_branch(list, answers, info, i, j));
        } else {
            let i = answers.len() - 1;
            let kept = answers[i].filter(not_default());
            let m = k - before.branches.len();
            answers[i].lemma_filter_contains_rev(not_default(), kept[m]);
            assert(kept.contains(kept[m]));
            let j = choose|j: int| 0 <= j < answers[i].len() && answers[i][j] == kept[m];
            assert(kept.all(not_default()));
            assert(answered_with_branch(list, answers, info, i, j));
        }
    }
}

/// A branch that is filed was asked for by somebody who may create branches, is filed as
/// theirs, and is a child of the configured project, not the project itself.
pub proof fn law_filed_branch_is_the_makers(
    config: ServerConfig,
    token: Seq<char>,
    ctx: Option<AuthContextView>,
    project_name: Seq<char>,
    branch_name: Seq<char>,
    reply: HttpReplyView,
    parsed: Result<BranchResponse, String>,
)
    requires
        branch_to_create(config, token, ctx, project_name, branch_name) is Ok,
        branch_to_record(
            branch_to_create(config, token, ctx, project_name, branch_name)->Ok_0,
            reply,
            parsed,
        ) is Ok,
    ensures
        ({
            let asked = branch_to_create(config, token, ctx, project_name, branch_name)->Ok_0;
            let created = branch_to_record(asked, reply, parsed)->Ok_0;
            &&& ctx matches Some(maker)
            &&& auth::permits(maker, "branches.create"@)
            &&& parsed matches Ok(response)
            &&& response.project_ref matches Some(branch_ref)
            &&& service::project_named(config, project_name) matches Ok(project)
            &&& branch_ref@ != project.project_ref@
            &&& created.record == branch_insert(
                branch_name,
                project_name,
                maker.identity,
                branch_ref@,
            )
        }),
{
}

/// A branch is forgotten exactly where the management service has deleted it: not where it
/// has refused to, and not where it did not know the branch.
pub proof fn law_branch_is_forgotten_once_deleted(asked: BranchToDeleteView, reply: HttpReplyView)
    ensures
        branch_to_forget(asked, reply) is Ok <==> (reply matches HttpReplyView::Answered {
            status,
            ..
        } && http::success(status)),
{
}

/// Only somebody who may delete any branch, or who may delete their own and has created this
/// one, has a branch deleted; and what is deleted is the branch that is filed.
pub proof fn law_deleted_branch_was_deletable(
    token: Seq<char>,
    sought: BranchToFindView,
    found: Result<Option<BranchRecord>, String>,
)
    requires
        branch_to_delete(token, sought, found) is Ok,
    ensures
        found matches Ok(Some(record)) && auth::permits_as_owner(
            sought.ctx,
            "branches.delete_own"@,
            "branches.delete_any"@,
            record.creator_identity@,
        ) && branch_to_delete(token, sought, found)->Ok_0.request == supabase::delete_request(
            token,
            record.branch_ref@,
        ),
{
}

/// Only somebody who may see the credentials of any branch, or who may see those of their own
/// and has created this one, is given credentials.
pub proof fn law_credentials_go_to_the_permitted(
    token: Seq<char>,
    sought: BranchToFindView,
    found: Result<Option<BranchRecord>, String>,
)
    requires
        credentials_to_fetch(token, sought, found) is Ok,
    ensures
        found matches Ok(Some(record)) && auth::permits_as_owner(
            sought.ctx,
            "branches.get_credentials_own"@,
            "branches.get_credentials_any"@,
            record.creator_identity@,
        ),
{
}

/// A branch is filed, looked up and forgotten under the same key: its name and its project; the
/// statements are those that file and forget a row of the table.
pub proof fn law_branch_keeps_its_key(
    ctx: AuthContextView,
    branch_name: Seq<char>,
    project_name: Seq<char>,
    identity: Seq<char>,
    branch_ref: Seq<char>,
)
    ensures
        ({
            let key = seq![db::SqlView::Text(branch_name), db::SqlView::Text(project_name)];
            &&& branch_insert(branch_name, project_name, identity, branch_ref).params.take(2) == key
            &&& branch_to_find(Some(ctx), project_name, branch_name)->Ok_0.lookup.params == key
            &&& branch_removal(branch_name, project_name).params == key
            &&& branch_statement(
                Step::Filed(
                    (branch_name, project_name),
                    BranchRowView { creator_identity: identity, branch_ref },
                ),
            ) == branch_insert(branch_name, project_name, identity, branch_ref)
            &&& branch_statement(Step::Forgotten((branch_name, project_name))) == branch_removal(
                branch_name,
                project_name,
            )
        }),
{
    let key = seq![db::SqlView::Text(branch_name), db::SqlView::Text(project_name)];
    assert(branch_insert(branch_name, project_name, identity, branch_ref).params.take(2) =~= key);
}

/// What is filed of a branch under its name and its project.
pub struct BranchRowView {
    pub creator_identity: Seq<char>,
    pub branch_ref: Seq<char>,
}

/// The statement that does this to the table of branches.
pub open spec fn branch_statement(step: Step<BranchRowView>) -> StatementView {
    match step {
        Step::Filed(key, row) => branch_insert(key.0, key.1, row.creator_identity, row.branch_ref),
        Step::Forgotten(key) => branch_removal(key.0, key.1),
    }
}

/// Whether `found` is what a lookup of the branch finds among the rows.
pub open spec fn branch_among(
    rows: Map<(Seq<char>, Seq<char>), BranchRowView>,
    branch_name: Seq<char>,
    project_name: Seq<char>,
    found: Option<BranchRecord>,
) -> bool {
    match found {
        Some(record) => {
            &&& rows.contains_key((branch_name, project_name))
            &&& record.branch_name@ == branch_name
            &&& record.project_name@ == project_name
            &&& record.creator_identity@ == rows[(branch_name, project_name)].creator_identity
            &&& record.branch_ref@ == rows[(branch_name, project_name)].branch_ref
        },
        None => !rows.contains_key((branch_name, project_name)),
    }
}

/// A branch that was filed is found, with its creator and its reference, until it is forgotten,
/// whatever else is filed and forgotten; another of its name in its project is refused each time.
pub proof fn law_filed_branch_is_found_until_forgotten(
    rows: Map<(Seq<char>, Seq<char>), BranchRowView>,
    branch_name: Seq<char>,
    project_name: Seq<char>,
    row: BranchRowView,
    steps: Seq<Step<BranchRowView>>,
    another: BranchRowView,
    found: Option<BranchRecord>,
)
    requires
        tables::after(rows, Step::Filed((branch_name, project_name), row)) is Some,
        tables::never_forgotten(steps, (branch_name, project_name)),
        branch_among(
            tables::after_all(
                tables::after(rows, Step::Filed((branch_name, project_name), row))->0,
                steps,
            ),
            branch_name,
            project_name,
            found,
        ),
    ensures
        ({
            let key = (branch_name, project_name);
            let later = tables::after_all(tables::after(rows, Step::Filed(key, row))->0, steps);
            &&& found matches Some(record)
            &&& record.branch_name@ == branch_name
            &&& record.project_name@ == project_name
            &&& record.creator_identity@ == row.creator_identity
            &&& record.branch_ref@ == row.branch_ref
            &&& tables::after(later, Step::Filed(key, another)) is None
        }),
{
    tables::law_row_stays_until_forgotten(
        rows,
        (branch_name, project_name),
        row,
        steps,
        another,
    );
}

/// A branch of the same name in another project has a record of its own: filing or forgetting the
/// one changes neither the other's record nor whether the other may be filed.
pub proof fn law_branches_of_projects_are_apart(
    rows: Map<(Seq<char>, Seq<char>), BranchRowView>,
    branch_name: Seq<char>,
    project_name: Seq<char>,
    other_project: Seq<char>,
    step: Step<BranchRowView>,
    found: Option<BranchRecord>,
)
    requires
        project_name != other_project,
        match step {
            Step::Filed(key, _) => key == (branch_name, project_name),
            Step::Forgotten(key) => key == (branch_name, project_name),
        },
        tables::after(rows, step) is Some,
    ensures
        branch_among(rows, branch_name, other_project, found) <==> branch_among(
            tables::after(rows, step)->0,
            branch_name,
            other_project,
            found,
        ),
{
    tables::law_keys_are_apart(rows, step, (branch_name, other_project));
}

/// A branch that was forgotten is not found, and its name is free again in its project.
pub proof fn law_forgotten_branch_is_not_found(
    rows: Map<(Seq<char>, Seq<char>), BranchRowView>,
    branch_name: Seq<char>,
    project_name: Seq<char>,
    another: BranchRowView,
)
    ensures
        ({
            let key = (branch_name, project_name);
            &&& tables::after(rows, Step::Forgotten(key)) matches Some(left)
            &&& branch_among(left, branch_name, project_name, None)
            &&& tables::after(left, Step::Filed(key, another)) is Some
        }),
{
    tables::law_forgotten_row_is_gone(rows, (branch_name, project_name), another);
}

} // verus!

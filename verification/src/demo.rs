//! Demo states: branches that hold a project's data, to be put back into the project later.
//!
//! Each operation is a chain of steps. A step says what is to be asked of the management
//! service or of the database next; the one after it takes the answer.

use vstd::prelude::*;

use crate::auth::{
    require_permission, require_permission_or_owner, AuthContext, AuthContextView,
};
use crate::branch_names::sanitized_demo_branch_name;
use crate::config::{ConnectionView, ProjectConfig, ProjectDatabaseConnection, ServerConfig};
use crate::db::{DemoStateRecord, Statement, StatementView, TwoSteps, TwoStepsView};
use crate::http::{HttpReply, HttpReplyView, HttpRequest, HttpRequestView};
use crate::messages::{
    DeleteDemoStateResponse, DeleteDemoStateView, DemoStateInfo, DemoStateInfoView,
    ListDemoStatesResponse, Versioned, VersionedView,
};
use crate::service::{
    authenticated, database_error, demo_state_info, require_restore_confirmation,
    resolve_demo_project, resolve_project, validated_branch_ref, SupabasedService,
};
use crate::status::{Code, Status, StatusView};
use crate::supabase::{created_branch, deleted_branch, BranchResponse, DeleteBranchOutcome};
use crate::tables::Step;
use crate::text::trim;
use crate::{auth, branch_names, config, db, messages, service, status, supabase, tables, text};

verus! {

/// The statement that finds a demo state by its project and its name.
pub open spec fn state_lookup(project_name: Seq<char>, name: Seq<char>) -> StatementView {
    db::statement(
        db::SELECT_DEMO_STATE@,
        seq![db::SqlView::Text(project_name), db::SqlView::Text(name)],
    )
}

/// A demo state that is to be saved, unless the database knows it already.
#[derive(Clone, Debug)]
pub struct DemoStateToSave {
    pub identity: String,
    pub project_name: String,
    pub name: String,
    pub project_ref: String,
    pub lookup: Statement,
}

pub struct DemoStateToSaveView {
    pub identity: Seq<char>,
    pub project_name: Seq<char>,
    pub name: Seq<char>,
    pub project_ref: Seq<char>,
    pub lookup: StatementView,
}

impl View for DemoStateToSave {
    type V = DemoStateToSaveView;

    open spec fn view(&self) -> DemoStateToSaveView {
        DemoStateToSaveView {
            identity: self.identity@,
            project_name: self.project_name@,
            name: self.name@,
            project_ref: self.project_ref@,
            lookup: self.lookup@,
        }
    }
}

/// What a request to save a demo state leads to.
pub open spec fn state_to_save(
    config: ServerConfig,
    ctx: Option<AuthContextView>,
    project_name: Seq<char>,
    name: Seq<char>,
) -> Result<DemoStateToSaveView, StatusView> {
    match ctx {
        None => Err(service::authentication_required()),
        Some(ctx) => if !auth::permits(ctx, "demo.save"@) {
            Err(auth::missing_permission("demo.save"@))
        } else if text::trimmed(name).len() == 0 {
            Err(status::refusal(Code::InvalidArgument, "demo state name required"@))
        } else {
            match service::project_named(config, project_name) {
                Err(failure) => Err(failure),
                Ok(project) => Ok(
                    DemoStateToSaveView {
                        identity: ctx.identity,
                        project_name,
                        name,
                        project_ref: project.project_ref@,
                        lookup: state_lookup(project_name, name),
                    },
                ),
            }
        },
    }
}

/// The branch of a demo state, which the management service is to be asked for.
#[derive(Clone, Debug)]
pub struct DemoBranchToCreate {
    pub identity: String,
    pub project_name: String,
    pub name: String,
    pub branch_name: String,
    pub project_ref: String,
    pub request: HttpRequest,
}

pub struct DemoBranchToCreateView {
    pub identity: Seq<char>,
    pub project_name: Seq<char>,
    pub name: Seq<char>,
    pub branch_name: Seq<char>,
    pub project_ref: Seq<char>,
    pub request: HttpRequestView,
}

impl View for DemoBranchToCreate {
    type V = DemoBranchToCreateView;

    open spec fn view(&self) -> DemoBranchToCreateView {
        DemoBranchToCreateView {
            identity: self.identity@,
            project_name: self.project_name@,
            name: self.name@,
            branch_name: self.branch_name@,
            project_ref: self.project_ref@,
            request: self.request@,
        }
    }
}

/// What the absence of a demo state leads to; one that is there is not saved again.
pub open spec fn branch_for_state(
    token: Seq<char>,
    asked: DemoStateToSaveView,
    found: Result<Option<DemoStateRecord>, String>,
) -> Result<DemoBranchToCreateView, StatusView> {
    match found {
        Err(error) => Err(service::database_failure(error@)),
        Ok(Some(_)) => Err(
            status::refusal(
                Code::AlreadyExists,
                "demo state '"@ + asked.name + "' already exists in project '"@
                    + asked.project_name + "'"@,
            ),
        ),
        Ok(None) => {
            let branch_name = branch_names::demo_branch_name(text::lowered(asked.name));
            Ok(
                DemoBranchToCreateView {
                    identity: asked.identity,
                    project_name: asked.project_name,
                    name: asked.name,
                    branch_name,
                    project_ref: asked.project_ref,
                    request: supabase::create_request(token, asked.project_ref, branch_name),
                },
            )
        },
    }
}

/// The statement that files a demo state.
pub open spec fn state_insert(
    project_name: Seq<char>,
    name: Seq<char>,
    branch_name: Seq<char>,
    branch_ref: Seq<char>,
    identity: Seq<char>,
) -> StatementView {
    db::statement(
        db::INSERT_DEMO_STATE@,
        seq![
            db::SqlView::Text(project_name),
            db::SqlView::Text(name),
            db::SqlView::Text(branch_name),
            db::SqlView::Text(branch_ref),
            db::SqlView::Text(identity),
        ],
    )
}

/// A demo state that is to be filed and then read again.
#[derive(Clone, Debug)]
pub struct DemoStateToRecord {
    pub record: Statement,
    pub lookup: Statement,
}

pub struct DemoStateToRecordView {
    pub record: StatementView,
    pub lookup: StatementView,
}

impl View for DemoStateToRecord {
    type V = DemoStateToRecordView;

    open spec fn view(&self) -> DemoStateToRecordView {
        DemoStateToRecordView {
            record: self.record@,
            lookup: self.lookup@,
        }
    }
}

/// What the reply to the creation of the branch leads to.
pub open spec fn state_to_record(
    asked: DemoBranchToCreateView,
    reply: HttpReplyView,
    parsed: Result<BranchResponse, String>,
) -> Result<DemoStateToRecordView, StatusView> {
    match supabase::creation_result(reply, parsed) {
        Err(failure) => Err(failure),
        Ok(response) => match service::child_branch_ref(response, asked.project_ref) {
            Err(failure) => Err(failure),
            Ok(branch_ref) => Ok(
                DemoStateToRecordView {
                    record: state_insert(
                        asked.project_name,
                        asked.name,
                        asked.branch_name,
                        branch_ref,
                        asked.identity,
                    ),
                    lookup: state_lookup(asked.project_name, asked.name),
                },
            ),
        },
    }
}

/// The demo state that was read, or why there is none; `missing` says so where the database
/// knows none.
pub open spec fn state_read(
    found: Result<Option<DemoStateRecord>, String>,
    missing: Seq<char>,
    config_version: Seq<char>,
) -> Result<VersionedView<DemoStateInfoView>, StatusView> {
    match found {
        Err(error) => Err(service::database_failure(error@)),
        Ok(None) => Err(status::refusal(Code::Internal, missing)),
        Ok(Some(record)) => Ok(messages::versioned(service::described(record), config_version)),
    }
}

impl SupabasedService {
    /// A request of `ctx` to save the data of a project as a demo state.
    pub fn save_demo_state(&self, ctx: Option<AuthContext>, project_name: &str, name: &str) -> (r:
        Result<DemoStateToSave, Status>)
        ensures
            status::seen(r) == state_to_save(
                self.config,
                service::maker(ctx),
                project_name@,
                name@,
            ),
    {
        let ctx = match authenticated(ctx) {
            Ok(ctx) => ctx,
            Err(status) => {
                return Err(status);
            },
        };
        if let Err(status) = require_permission(&ctx, "demo.save") {
            return Err(status);
        }
        if trim(name).as_str().is_empty() {
            return Err(Status::new(Code::InvalidArgument, "demo state name required"));
        }
        match resolve_project(&self.config, project_name) {
            Err(status) => Err(status),
            Ok(project) => Ok(
                DemoStateToSave {
                    identity: ctx.identity,
                    project_name: project_name.to_string(),
                    name: name.to_string(),
                    project_ref: project.project_ref.clone(),
                    lookup: db::get_demo_state(project_name, name),
                },
            ),
        }
    }

    /// The database was asked whether the demo state exists already.
    pub fn demo_state_looked_up(
        &self,
        asked: DemoStateToSave,
        found: Result<Option<DemoStateRecord>, String>,
    ) -> (r: Result<DemoBranchToCreate, Status>)
        ensures
            status::seen(r) == branch_for_state(
                self.supabase_client.access_token(),
                asked@,
                found,
            ),
    {
        match found {
            Err(error) => Err(database_error(error.as_str())),
            Ok(Some(_)) => {
                let mut message = "demo state '".to_string();
                message.append(asked.name.as_str());
                message.append("' already exists in project '");
                message.append(asked.project_name.as_str());
                message.append("'");
                Err(Status { code: Code::AlreadyExists, message })
            },
            Ok(None) => {
                let branch_name = sanitized_demo_branch_name(asked.name.as_str());
                let request = self.supabase_client.create_branch(
                    asked.project_ref.as_str(),
                    branch_name.as_str(),
                );
                Ok(
                    DemoBranchToCreate {
                        identity: asked.identity,
                        project_name: asked.project_name,
                        name: asked.name,
                        branch_name,
                        project_ref: asked.project_ref,
                        request,
                    },
                )
            },
        }
    }

    /// The management service has replied to the request for the demo state's branch.
    pub fn demo_branch_created(
        &self,
        asked: DemoBranchToCreate,
        reply: &HttpReply,
        parsed: Result<BranchResponse, String>,
    ) -> (r: Result<DemoStateToRecord, Status>)
        ensures
            status::seen(r) == state_to_record(asked@, reply@, parsed),
    {
        let response = match created_branch(reply, parsed) {
            Ok(response) => response,
            Err(status) => {
                return Err(status);
            },
        };
        let branch_ref = match validated_branch_ref(&response, asked.project_ref.as_str()) {
            Ok(branch_ref) => branch_ref,
            Err(status) => {
                return Err(status);
            },
        };
        let record = db::record_demo_state(
            asked.project_name.as_str(),
            asked.name.as_str(),
            asked.branch_name.as_str(),
            branch_ref.as_str(),
            asked.identity.as_str(),
        );
        let lookup = db::get_demo_state(asked.project_name.as_str(), asked.name.as_str());
        Ok(DemoStateToRecord { record, lookup })
    }

    /// The demo state was filed, or the database has failed. The statement reads it again.
    pub fn demo_state_recorded(&self, asked: DemoStateToRecord, recorded: Result<(), String>) -> (r:
        Result<Statement, Status>)
        ensures
            status::seen(r) == match recorded {
                Ok(()) => Ok(asked@.lookup),
                Err(error) => Err(
                    status::refusal(Code::Internal, "failed to record demo state: "@ + error@),
                ),
            },
    {
        match recorded {
            Ok(()) => Ok(asked.lookup),
            Err(error) => Err(
                Status::with_detail(
                    Code::Internal,
                    "failed to record demo state: ",
                    error.as_str(),
                ),
            ),
        }
    }

    fn read_demo_state(&self, found: Result<Option<DemoStateRecord>, String>, missing: &str) -> (r:
        Result<Versioned<DemoStateInfo>, Status>)
        ensures
            status::seen(r) == state_read(found, missing@, self.config_hash@),
    {
        match found {
            Err(error) => Err(database_error(error.as_str())),
            Ok(None) => Err(Status::new(Code::Internal, missing)),
            Ok(Some(record)) => Ok(self.with_config_version(demo_state_info(record))),
        }
    }

    /// The demo state that was saved was read again.
    pub fn demo_state_saved(&self, found: Result<Option<DemoStateRecord>, String>) -> (r: Result<
        Versioned<DemoStateInfo>,
        Status,
    >)
        ensures
            status::seen(r) == state_read(
                found,
                "saved demo state record was not found"@,
                self.config_hash@,
            ),
    {
        self.read_demo_state(found, "saved demo state record was not found")
    }
}

/// The statement that lists the demo states of a project, or why they are not listed.
pub open spec fn states_to_list(
    config: ServerConfig,
    ctx: Option<AuthContextView>,
    project_name: Seq<char>,
) -> Result<StatementView, StatusView> {
    match ctx {
        None => Err(service::authentication_required()),
        Some(ctx) => if !auth::permits(ctx, "demo.list"@) {
            Err(auth::missing_permission("demo.list"@))
        } else {
            match service::demo_project_named(config, project_name) {
                Err(failure) => Err(failure),
                Ok(_) => Ok(
                    db::statement(
                        db::SELECT_PROJECT_DEMO_STATES@,
                        seq![db::SqlView::Text(project_name)],
                    ),
                ),
            }
        },
    }
}

/// The demo states, as their records describe them.
pub open spec fn all_described(records: Seq<DemoStateRecord>) -> Seq<DemoStateInfoView> {
    records.map_values(|r: DemoStateRecord| service::described(r))
}

/// The demo states, as their records describe them.
pub fn describe_all(records: Vec<DemoStateRecord>) -> (r: ListDemoStatesResponse)
    ensures
        r@ == all_described(records@),
{
    let ghost all = all_described(records@);
    let mut states: Vec<DemoStateInfo> = Vec::new();
    let mut i: usize = 0;
    while i < records.len()
        invariant
            i <= records.len(),
            all == all_described(records@),
            messages::demo_state_views(states@) == all.take(i as int),
        decreases records.len() - i,
    {
        let ghost before = states@;
        let record = &records[i];
        states.push(
            demo_state_info(
                DemoStateRecord {
                    project_name: record.project_name.clone(),
                    name: record.name.clone(),
                    branch_name: record.branch_name.clone(),
                    branch_ref: record.branch_ref.clone(),
                    creator_identity: record.creator_identity.clone(),
                    created_at: record.created_at.clone(),
                    last_restored_at: record.last_restored_at.clone(),
                },
            ),
        );
        assert(messages::demo_state_views(states@) =~= messages::demo_state_views(before).push(
            all[i as int],
        ));
        assert(all.take(i + 1) =~= all.take(i as int).push(all[i as int]));
        i += 1;
    }
    assert(all.take(i as int) =~= all);
    ListDemoStatesResponse { states }
}

impl SupabasedService {
    /// A request of `ctx` for the demo states of a project.
    pub fn list_demo_states(&self, ctx: Option<AuthContext>, project_name: &str) -> (r: Result<
        Statement,
        Status,
    >)
        ensures
            status::seen(r) == states_to_list(self.config, service::maker(ctx), project_name@),
    {
        let ctx = match authenticated(ctx) {
            Ok(ctx) => ctx,
            Err(status) => {
                return Err(status);
            },
        };
        if let Err(status) = require_permission(&ctx, "demo.list") {
            return Err(status);
        }
        match resolve_demo_project(&self.config, project_name) {
            Err(status) => Err(status),
            Ok(_) => Ok(db::list_demo_states_by_project(project_name)),
        }
    }

    /// The database was asked for the demo states.
    pub fn demo_states_listed(&self, found: Result<Vec<DemoStateRecord>, String>) -> (r: Result<
        Versioned<ListDemoStatesResponse>,
        Status,
    >)
        ensures
            status::seen(r) == match found {
                Ok(records) => Ok(
                    messages::versioned(all_described(records@), self.config_hash@),
                ),
                Err(error) => Err(service::database_failure(error@)),
            },
    {
        match found {
            Ok(records) => Ok(self.with_config_version(describe_all(records))),
            Err(error) => Err(database_error(error.as_str())),
        }
    }
}

/// The record of a demo state, or why there is none.
pub open spec fn state_found(
    project_name: Seq<char>,
    name: Seq<char>,
    found: Result<Option<DemoStateRecord>, String>,
) -> Result<DemoStateRecord, StatusView> {
    match found {
        Err(error) => Err(service::database_failure(error@)),
        Ok(None) => Err(
            status::refusal(
                Code::NotFound,
                "demo state '"@ + name + "' not found in project '"@ + project_name + "'"@,
            ),
        ),
        Ok(Some(record)) => Ok(record),
    }
}

fn found_state(
    project_name: &str,
    name: &str,
    found: Result<Option<DemoStateRecord>, String>,
) -> (r: Result<DemoStateRecord, Status>)
    ensures
        status::outcome(r) == state_found(project_name@, name@, found),
{
    match found {
        Err(error) => Err(database_error(error.as_str())),
        Ok(None) => {
            let mut message = "demo state '".to_string();
            message.append(name);
            message.append("' not found in project '");
            message.append(project_name);
            message.append("'");
            Err(Status { code: Code::NotFound, message })
        },
        Ok(Some(record)) => Ok(record),
    }
}

/// A demo state that `ctx` wants deleted, to be looked up in the database.
#[derive(Clone, Debug)]
pub struct DemoStateToFind {
    pub ctx: AuthContext,
    pub project_name: String,
    pub name: String,
    pub lookup: Statement,
}

pub struct DemoStateToFindView {
    pub ctx: AuthContextView,
    pub project_name: Seq<char>,
    pub name: Seq<char>,
    pub lookup: StatementView,
}

impl View for DemoStateToFind {
    type V = DemoStateToFindView;

    open spec fn view(&self) -> DemoStateToFindView {
        DemoStateToFindView {
            ctx: self.ctx@,
            project_name: self.project_name@,
            name: self.name@,
            lookup: self.lookup@,
        }
    }
}

/// What a request to delete a demo state leads to.
pub open spec fn state_to_find(
    config: ServerConfig,
    ctx: Option<AuthContextView>,
    project_name: Seq<char>,
    name: Seq<char>,
) -> Result<DemoStateToFindView, StatusView> {
    match ctx {
        None => Err(service::authentication_required()),
        Some(ctx) => match service::demo_project_named(config, project_name) {
            Err(failure) => Err(failure),
            Ok(_) => Ok(
                DemoStateToFindView {
                    ctx,
                    project_name,
                    name,
                    lookup: state_lookup(project_name, name),
                },
            ),
        },
    }
}

/// A demo state whose branch the management service is to be asked to delete.
#[derive(Clone, Debug)]
pub struct DemoBranchToDelete {
    pub project_name: String,
    pub name: String,
    pub record: DemoStateRecord,
    pub request: HttpRequest,
}

pub struct DemoBranchToDeleteView {
    pub project_name: Seq<char>,
    pub name: Seq<char>,
    pub record: DemoStateRecord,
    pub request: HttpRequestView,
}

impl View for DemoBranchToDelete {
    type V = DemoBranchToDeleteView;

    open spec fn view(&self) -> DemoBranchToDeleteView {
        DemoBranchToDeleteView {
            project_name: self.project_name@,
            name: self.name@,
            record: self.record,
            request: self.request@,
        }
    }
}

/// What the record of a demo state that is to be deleted leads to.
pub open spec fn state_to_delete(
    token: Seq<char>,
    sought: DemoStateToFindView,
    found: Result<Option<DemoStateRecord>, String>,
) -> Result<DemoBranchToDeleteView, StatusView> {
    match state_found(sought.project_name, sought.name, found) {
        Err(failure) => Err(failure),
        Ok(record) => if auth::permits_as_owner(
            sought.ctx,
            "demo.delete_own"@,
            "demo.delete_any"@,
            record.creator_identity@,
        ) {
            Ok(
                DemoBranchToDeleteView {
                    project_name: sought.project_name,
                    name: sought.name,
                    record,
                    request: supabase::delete_request(token, record.branch_ref@),
                },
            )
        } else {
            Err(auth::missing_ownership("demo.delete_own"@, "demo.delete_any"@))
        },
    }
}

/// A demo state that is to be forgotten, and what the user is then told.
#[derive(Clone, Debug)]
pub struct DemoStateToForget {
    pub response: DeleteDemoStateResponse,
    pub forget: Statement,
}

pub struct DemoStateToForgetView {
    pub response: DeleteDemoStateView,
    pub forget: StatementView,
}

impl View for DemoStateToForget {
    type V = DemoStateToForgetView;

    open spec fn view(&self) -> DemoStateToForgetView {
        DemoStateToForgetView {
            response: self.response@,
            forget: self.forget@,
        }
    }
}

/// The statement that forgets a demo state.
pub open spec fn state_removal(project_name: Seq<char>, name: Seq<char>) -> StatementView {
    db::statement(
        db::DELETE_DEMO_STATE@,
        seq![db::SqlView::Text(project_name), db::SqlView::Text(name)],
    )
}

/// What the reply to the deletion of a demo state's branch leads to.
pub open spec fn state_to_forget(asked: DemoBranchToDeleteView, reply: HttpReplyView) -> Result<
    DemoStateToForgetView,
    StatusView,
> {
    match supabase::deletion_result(reply) {
        Err(failure) => Err(failure),
        Ok(outcome) => Ok(
            DemoStateToForgetView {
                response: DeleteDemoStateView {
                    deleted: true,
                    project_name: asked.record.project_name@,
                    name: asked.record.name@,
                    branch_name: asked.record.branch_name@,
                    branch_ref: asked.record.branch_ref@,
                    remote_branch_deleted: outcome == DeleteBranchOutcome::Deleted,
                    remote_branch_missing: outcome == DeleteBranchOutcome::Missing,
                },
                forget: state_removal(asked.project_name, asked.name),
            },
        ),
    }
}

impl SupabasedService {
    /// A request of `ctx` to delete a demo state.
    pub fn delete_demo_state(&self, ctx: Option<AuthContext>, project_name: &str, name: &str) -> (r:
        Result<DemoStateToFind, Status>)
        ensures
            status::seen(r) == state_to_find(
                self.config,
                service::maker(ctx),
                project_name@,
                name@,
            ),
    {
        let ctx = match authenticated(ctx) {
            Ok(ctx) => ctx,
            Err(status) => {
                return Err(status);
            },
        };
        match resolve_demo_project(&self.config, project_name) {
            Err(status) => Err(status),
            Ok(_) => Ok(
                DemoStateToFind {
                    ctx,
                    project_name: project_name.to_string(),
                    name: name.to_string(),
                    lookup: db::get_demo_state(project_name, name),
                },
            ),
        }
    }

    /// The database was asked for the demo state that is to be deleted.
    pub fn demo_state_to_delete_found(
        &self,
        sought: DemoStateToFind,
        found: Result<Option<DemoStateRecord>, String>,
    ) -> (r: Result<DemoBranchToDelete, Status>)
        ensures
            status::seen(r) == state_to_delete(
                self.supabase_client.access_token(),
                sought@,
                found,
            ),
    {
        let record = match found_state(sought.project_name.as_str(), sought.name.as_str(), found) {
            Ok(record) => record,
            Err(status) => {
                return Err(status);
            },
        };
        if let Err(status) = require_permission_or_owner(
            &sought.ctx,
            "demo.delete_own",
            "demo.delete_any",
            record.creator_identity.as_str(),
        ) {
            return Err(status);
        }
        let request = self.supabase_client.delete_branch(record.branch_ref.as_str());
        Ok(
            DemoBranchToDelete {
                project_name: sought.project_name,
                name: sought.name,
                record,
                request,
            },
        )
    }

    /// The management service has replied to the request to delete the demo state's branch.
    pub fn demo_branch_deleted(&self, asked: DemoBranchToDelete, reply: &HttpReply) -> (r: Result<
        DemoStateToForget,
        Status,
    >)
        ensures
            status::seen(r) == state_to_forget(asked@, reply@),
    {
        let outcome = match deleted_branch(reply) {
            Ok(outcome) => outcome,
            Err(status) => {
                return Err(status);
            },
        };
        let forget = db::delete_demo_state(asked.project_name.as_str(), asked.name.as_str());
        let response = DeleteDemoStateResponse {
            deleted: true,
            project_name: asked.record.project_name,
            name: asked.record.name,
            branch_name: asked.record.branch_name,
            branch_ref: asked.record.branch_ref,
            remote_branch_deleted: outcome == DeleteBranchOutcome::Deleted,
            remote_branch_missing: outcome == DeleteBranchOutcome::Missing,
        };
        Ok(DemoStateToForget { response, forget })
    }

    /// The demo state was forgotten, or the database has failed.
    pub fn demo_state_forgotten(&self, asked: DemoStateToForget, forgotten: Result<(), String>) -> (r:
        Result<Versioned<DeleteDemoStateResponse>, Status>)
        ensures
            status::seen(r) == match forgotten {
                Ok(()) => Ok(messages::versioned(asked@.response, self.config_hash@)),
                Err(error) => Err(service::database_failure(error@)),
            },
    {
        match forgotten {
            Ok(()) => Ok(self.with_config_version(asked.response)),
            Err(error) => Err(database_error(error.as_str())),
        }
    }
}

/// A demo state that is to be put back into its project, to be looked up in the database.
#[derive(Clone, Debug)]
pub struct DemoStateToRestore {
    pub project: ProjectConfig,
    pub project_name: String,
    pub name: String,
    pub lookup: Statement,
}

pub struct DemoStateToRestoreView {
    pub project: ProjectConfig,
    pub project_name: Seq<char>,
    pub name: Seq<char>,
    pub lookup: StatementView,
}

impl View for DemoStateToRestore {
    type V = DemoStateToRestoreView;

    open spec fn view(&self) -> DemoStateToRestoreView {
        DemoStateToRestoreView {
            project: self.project,
            project_name: self.project_name@,
            name: self.name@,
            lookup: self.lookup@,
        }
    }
}

/// What a request to put a demo state back leads to.
pub open spec fn state_to_restore(
    config: ServerConfig,
    ctx: Option<AuthContextView>,
    project_name: Seq<char>,
    name: Seq<char>,
    confirm_overwrite_main: bool,
) -> Result<DemoStateToRestoreView, StatusView> {
    match ctx {
        None => Err(service::authentication_required()),
        Some(ctx) => if !confirm_overwrite_main {
            Err(service::restore_unconfirmed())
        } else if !auth::permits(ctx, "demo.restore_main"@) {
            Err(auth::missing_permission("demo.restore_main"@))
        } else {
            match service::demo_project_named(config, project_name) {
                Err(failure) => Err(failure),
                Ok(project) => Ok(
                    DemoStateToRestoreView {
                        project,
                        project_name,
                        name,
                        lookup: state_lookup(project_name, name),
                    },
                ),
            }
        },
    }
}

/// A demo state whose databases are to be reached by the password in the variable
/// `password_env`.
#[derive(Clone, Debug)]
pub struct RestoreToConnect {
    pub project: ProjectConfig,
    pub project_name: String,
    pub name: String,
    pub branch_ref: String,
    pub password_env: String,
}

pub struct RestoreToConnectView {
    pub project: ProjectConfig,
    pub project_name: Seq<char>,
    pub name: Seq<char>,
    pub branch_ref: Seq<char>,
    pub password_env: Seq<char>,
}

impl View for RestoreToConnect {
    type V = RestoreToConnectView;

    open spec fn view(&self) -> RestoreToConnectView {
        RestoreToConnectView {
            project: self.project,
            project_name: self.project_name@,
            name: self.name@,
            branch_ref: self.branch_ref@,
            password_env: self.password_env@,
        }
    }
}

/// What the record of a demo state that is to be put back leads to.
pub open spec fn restore_to_connect(
    sought: DemoStateToRestoreView,
    found: Result<Option<DemoStateRecord>, String>,
) -> Result<RestoreToConnectView, StatusView> {
    match state_found(sought.project_name, sought.name, found) {
        Err(failure) => Err(failure),
        Ok(record) => match config::configured_password_env(sought.project) {
            None => Err(
                status::refusal(
                    Code::FailedPrecondition,
                    config::missing_password_env(sought.project.name@),
                ),
            ),
            Some(password_env) => Ok(
                RestoreToConnectView {
                    project: sought.project,
                    project_name: sought.project_name,
                    name: sought.name,
                    branch_ref: record.branch_ref@,
                    password_env,
                },
            ),
        },
    }
}

/// A restore that is to run from the source into the target, and the note of it afterwards.
#[derive(Clone, Debug)]
pub struct RestoreToRun {
    pub source: ProjectDatabaseConnection,
    pub target: ProjectDatabaseConnection,
    pub mark: TwoSteps,
}

pub struct RestoreToRunView {
    pub source: ConnectionView,
    pub target: ConnectionView,
    pub mark: TwoStepsView,
}

impl View for RestoreToRun {
    type V = RestoreToRunView;

    open spec fn view(&self) -> RestoreToRunView {
        RestoreToRunView {
            source: self.source@,
            target: self.target@,
            mark: self.mark@,
        }
    }
}

/// The statements that note that a demo state was put back, and read it again.
pub open spec fn state_mark(project_name: Seq<char>, name: Seq<char>) -> TwoStepsView {
    TwoStepsView {
        change: db::statement(
            db::MARK_DEMO_STATE_RESTORED@,
            seq![db::SqlView::Text(project_name), db::SqlView::Text(name)],
        ),
        follow: state_lookup(project_name, name),
        in_transaction: false,
    }
}

/// What the password leads to: from the demo state's branch into the project itself.
pub open spec fn restore_to_run(asked: RestoreToConnectView, password: Option<String>) -> Result<
    RestoreToRunView,
    StatusView,
> {
    match (config::configured_password_env(asked.project), password) {
        (None, _) => Err(
            status::refusal(
                Code::FailedPrecondition,
                config::missing_password_env(asked.project.name@),
            ),
        ),
        (Some(name), None) => Err(
            status::refusal(
                Code::FailedPrecondition,
                name + " environment variable is required for demo restore operations"@,
            ),
        ),
        (Some(_), Some(value)) => Ok(
            RestoreToRunView {
                source: config::supabase_database(asked.branch_ref, value@),
                target: config::supabase_database(asked.project.project_ref@, value@),
                mark: state_mark(asked.project_name, asked.name),
            },
        ),
    }
}

/// What the end of the restore leads to: the task may have been lost, or have ended with a
/// result of its own.
pub open spec fn restore_to_mark(
    run: RestoreToRunView,
    ended: Result<Result<(), Status>, String>,
) -> Result<TwoStepsView, StatusView> {
    match ended {
        Err(error) => Err(status::refusal(Code::Internal, "restore task failed: "@ + error@)),
        Ok(Err(failure)) => Err(failure@),
        Ok(Ok(_)) => Ok(run.mark),
    }
}

impl SupabasedService {
    /// A request of `ctx` to put a demo state back into its project.
    pub fn restore_demo_state(
        &self,
        ctx: Option<AuthContext>,
        project_name: &str,
        name: &str,
        confirm_overwrite_main: bool,
    ) -> (r: Result<DemoStateToRestore, Status>)
        ensures
            status::seen(r) == state_to_restore(
                self.config,
                service::maker(ctx),
                project_name@,
                name@,
                confirm_overwrite_main,
            ),
    {
        let ctx = match authenticated(ctx) {
            Ok(ctx) => ctx,
            Err(status) => {
                return Err(status);
            },
        };
        if let Err(status) = require_restore_confirmation(confirm_overwrite_main) {
            return Err(status);
        }
        if let Err(status) = require_permission(&ctx, "demo.restore_main") {
            return Err(status);
        }
        match resolve_demo_project(&self.config, project_name) {
            Err(status) => Err(status),
            Ok(project) => {
                let project = ProjectConfig {
                    name: project.name.clone(),
                    project_ref: project.project_ref.clone(),
                    demo: project.demo,
                    database_password_env: project.database_password_env.clone(),
                };
                Ok(
                    DemoStateToRestore {
                        project,
                        project_name: project_name.to_string(),
                        name: name.to_string(),
                        lookup: db::get_demo_state(project_name, name),
                    },
                )
            },
        }
    }

    /// The database was asked for the demo state that is to be put back.
    pub fn demo_state_to_restore_found(
        &self,
        sought: DemoStateToRestore,
        found: Result<Option<DemoStateRecord>, String>,
    ) -> (r: Result<RestoreToConnect, Status>)
        ensures
            status::seen(r) == restore_to_connect(sought@, found),
    {
        let record = match found_state(sought.project_name.as_str(), sought.name.as_str(), found) {
            Ok(record) => record,
            Err(status) => {
                return Err(status);
            },
        };
        match sought.project.password_env() {
            Err(message) => Err(Status { code: Code::FailedPrecondition, message }),
            Ok(password_env) => Ok(
                RestoreToConnect {
                    project: sought.project,
                    project_name: sought.project_name,
                    name: sought.name,
                    branch_ref: record.branch_ref,
                    password_env,
                },
            ),
        }
    }

    /// The variable with the password was read; there may be none.
    pub fn restore_connected(&self, asked: RestoreToConnect, password: Option<String>) -> (r: Result<
        RestoreToRun,
        Status,
    >)
        ensures
            status::seen(r) == restore_to_run(asked@, password),
    {
        let source = match asked.project.database_connection_for_ref(
            asked.branch_ref.as_str(),
            password.clone(),
        ) {
            Ok(source) => source,
            Err(message) => {
                return Err(Status { code: Code::FailedPrecondition, message });
            },
        };
        match asked.project.database_connection_for_ref(
            asked.project.project_ref.as_str(),
            password,
        ) {
            Err(message) => Err(Status { code: Code::FailedPrecondition, message }),
            Ok(target) => {
                let mark = db::mark_demo_state_restored(
                    asked.project_name.as_str(),
                    asked.name.as_str(),
                );
                Ok(RestoreToRun { source, target, mark })
            },
        }
    }

    /// The restore has ended.
    pub fn schema_restored(&self, run: RestoreToRun, ended: Result<Result<(), Status>, String>) -> (r:
        Result<TwoSteps, Status>)
        ensures
            status::seen(r) == restore_to_mark(run@, ended),
    {
        match ended {
            Err(error) => Err(
                Status::with_detail(Code::Internal, "restore task failed: ", error.as_str()),
            ),
            Ok(Err(status)) => Err(status),
            Ok(Ok(())) => Ok(run.mark),
        }
    }

    /// The restore was noted, and the demo state was read again.
    pub fn demo_state_restored(&self, updated: Result<Option<DemoStateRecord>, String>) -> (r: Result<
        Versioned<DemoStateInfo>,
        Status,
    >)
        ensures
            status::seen(r) == state_read(
                updated,
                "restored demo state record was not found"@,
                self.config_hash@,
            ),
    {
        self.read_demo_state(updated, "restored demo state record was not found")
    }
}

/// A demo state that is filed was asked for by somebody who may save demo states, was not
/// there before, is filed as theirs, and lies in a branch of the project whose name is
/// `demo/` and plain characters.
pub proof fn law_saved_state_is_new_and_the_makers(
    config: ServerConfig,
    token: Seq<char>,
    ctx: Option<AuthContextView>,
    project_name: Seq<char>,
    name: Seq<char>,
    found: Result<Option<DemoStateRecord>, String>,
    reply: HttpReplyView,
    parsed: Result<BranchResponse, String>,
)
    requires
        state_to_save(config, ctx, project_name, name) is Ok,
        branch_for_state(token, state_to_save(config, ctx, project_name, name)->Ok_0, found) is Ok,
        state_to_record(
            branch_for_state(
                token,
                state_to_save(config, ctx, project_name, name)->Ok_0,
                found,
            )->Ok_0,
            reply,
            parsed,
        ) is Ok,
    ensures
        ({
            let asked = state_to_save(config, ctx, project_name, name)->Ok_0;
            let branch = branch_for_state(token, asked, found)->Ok_0;
            let filed = state_to_record(branch, reply, parsed)->Ok_0;
            &&& ctx matches Some(maker)
            &&& auth::permits(maker, "demo.save"@)
            &&& found matches Ok(None)
            &&& text::occurs_at(branch.branch_name, "demo/"@, 0)
            &&& parsed matches Ok(response)
            &&& response.project_ref matches Some(branch_ref)
            &&& branch_ref@ != asked.project_ref
            &&& filed.record == state_insert(
                project_name,
                name,
                branch.branch_name,
                branch_ref@,
                maker.identity,
            )
        }),
{
    branch_names::law_demo_branch_name_is_plain(text::lowered(name));
}

/// A demo state is forgotten where the management service has deleted its branch or no longer
/// knew it, and is kept where the service has failed; the user is told which it was.
pub proof fn law_state_outlives_a_failed_deletion(
    asked: DemoBranchToDeleteView,
    reply: HttpReplyView,
)
    ensures
        state_to_forget(asked, reply) is Ok <==> supabase::deletion_result(reply) is Ok,
        state_to_forget(asked, reply) matches Ok(told) ==> told.response.deleted
            && told.response.remote_branch_deleted != told.response.remote_branch_missing
            && told.response.remote_branch_missing == supabase::answered_with(reply, 404),
{
}

/// Only somebody who may delete any demo state, or who may delete their own and has saved this
/// one, has a demo state deleted.
pub proof fn law_deleted_state_was_deletable(
    token: Seq<char>,
    sought: DemoStateToFindView,
    found: Result<Option<DemoStateRecord>, String>,
)
    requires
        state_to_delete(token, sought, found) is Ok,
    ensures
        found matches Ok(Some(record)) && auth::permits_as_owner(
            sought.ctx,
            "demo.delete_own"@,
            "demo.delete_any"@,
            record.creator_identity@,
        ),
{
}

/// The main database of a project is overwritten only where the restore was confirmed, by
/// somebody who may restore, in a project for demo states; it is overwritten with the data of
/// the demo state's branch.
pub proof fn law_restore_is_confirmed_and_permitted(
    config: ServerConfig,
    ctx: Option<AuthContextView>,
    project_name: Seq<char>,
    name: Seq<char>,
    confirm_overwrite_main: bool,
    found: Result<Option<DemoStateRecord>, String>,
    password: Option<String>,
)
    requires
        state_to_restore(config, ctx, project_name, name, confirm_overwrite_main) is Ok,
        restore_to_connect(
            state_to_restore(config, ctx, project_name, name, confirm_overwrite_main)->Ok_0,
            found,
        ) is Ok,
        restore_to_run(
            restore_to_connect(
                state_to_restore(config, ctx, project_name, name, confirm_overwrite_main)->Ok_0,
                found,
            )->Ok_0,
            password,
        ) is Ok,
    ensures
        ({
            let sought = state_to_restore(
                config,
                ctx,
                project_name,
                name,
                confirm_overwrite_main,
            )->Ok_0;
            let run = restore_to_run(restore_to_connect(sought, found)->Ok_0, password)->Ok_0;
            &&& confirm_overwrite_main
            &&& ctx matches Some(maker)
            &&& auth::permits(maker, "demo.restore_main"@)
            &&& config::first_named(config.projects@, project_name) matches Some(project)
            &&& project.demo
            &&& found matches Ok(Some(record))
            &&& password matches Some(value)
            &&& run.source == config::supabase_database(record.branch_ref@, value@)
            &&& run.target == config::supabase_database(project.project_ref@, value@)
        }),
{
}

/// A restore is noted only where it has succeeded.
pub proof fn law_failed_restore_is_not_noted(
    run: RestoreToRunView,
    ended: Result<Result<(), Status>, String>,
)
    ensures
        restore_to_mark(run, ended) is Ok <==> (ended matches Ok(result) && result is Ok),
{
}

/// A demo state is filed, looked up, marked and forgotten under the same key: its project and
/// its name; the statements are those that file and forget a row of the table.
pub proof fn law_state_keeps_its_key(
    project_name: Seq<char>,
    name: Seq<char>,
    branch_name: Seq<char>,
    branch_ref: Seq<char>,
    identity: Seq<char>,
)
    ensures
        ({
            let key = seq![db::SqlView::Text(project_name), db::SqlView::Text(name)];
            &&& state_insert(project_name, name, branch_name, branch_ref, identity).params.take(2)
                == key
            &&& state_lookup(project_name, name).params == key
            &&& state_mark(project_name, name).change.params == key
            &&& state_removal(project_name, name).params == key
            &&& state_statement(
                Step::Filed(
                    (project_name, name),
                    DemoStateRowView { branch_name, branch_ref, creator_identity: identity },
                ),
            ) == state_insert(project_name, name, branch_name, branch_ref, identity)
            &&& state_statement(Step::Forgotten((project_name, name))) == state_removal(
                project_name,
                name,
            )
        }),
{
    let key = seq![db::SqlView::Text(project_name), db::SqlView::Text(name)];
    let filed = state_insert(project_name, name, branch_name, branch_ref, identity);
    assert(filed.params.take(2) =~= key);
}

/// What is filed of a demo state under its project and its name.
pub struct DemoStateRowView {
    pub branch_name: Seq<char>,
    pub branch_ref: Seq<char>,
    pub creator_identity: Seq<char>,
}

/// The statement that does this to the table of demo states.
pub open spec fn state_statement(step: Step<DemoStateRowView>) -> StatementView {
    match step {
        Step::Filed(key, row) => state_insert(
            key.0,
            key.1,
            row.branch_name,
            row.branch_ref,
            row.creator_identity,
        ),
        Step::Forgotten(key) => state_removal(key.0, key.1),
    }
}

/// Whether `found` is what a lookup of the demo state finds among the rows.
pub open spec fn state_among(
    rows: Map<(Seq<char>, Seq<char>), DemoStateRowView>,
    project_name: Seq<char>,
    name: Seq<char>,
    found: Option<DemoStateRecord>,
) -> bool {
    match found {
        Some(record) => {
            &&& rows.contains_key((project_name, name))
            &&& record.project_name@ == project_name
            &&& record.name@ == name
            &&& record.branch_name@ == rows[(project_name, name)].branch_name
            &&& record.branch_ref@ == rows[(project_name, name)].branch_ref
            &&& record.creator_identity@ == rows[(project_name, name)].creator_identity
        },
        None => !rows.contains_key((project_name, name)),
    }
}

/// A demo state that was filed is found, with its branch and its creator, until it is forgotten,
/// whatever else is filed and forgotten; another of its name in its project is refused each time.
pub proof fn law_filed_state_is_found_until_forgotten(
    rows: Map<(Seq<char>, Seq<char>), DemoStateRowView>,
    project_name: Seq<char>,
    name: Seq<char>,
    row: DemoStateRowView,
    steps: Seq<Step<DemoStateRowView>>,
    another: DemoStateRowView,
    found: Option<DemoStateRecord>,
)
    requires
        tables::after(rows, Step::Filed((project_name, name), row)) is Some,
        tables::never_forgotten(steps, (project_name, name)),
        state_among(
            tables::after_all(
                tables::after(rows, Step::Filed((project_name, name), row))->0,
                steps,
            ),
            project_name,
            name,
            found,
        ),
    ensures
        ({
            let key = (project_name, name);
            let later = tables::after_all(tables::after(rows, Step::Filed(key, row))->0, steps);
            &&& found matches Some(record)
            &&& record.project_name@ == project_name
            &&& record.name@ == name
            &&& record.branch_name@ == row.branch_name
            &&& record.branch_ref@ == row.branch_ref
            &&& record.creator_identity@ == row.creator_identity
            &&& tables::after(later, Step::Filed(key, another)) is None
        }),
{
    tables::law_row_stays_until_forgotten(rows, (project_name, name), row, steps, another);
}

} // verus!

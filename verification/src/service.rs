//! The server: its state, and what all its operations share.

use vstd::prelude::*;

use crate::auth::{AuthContext, AuthContextView};
use crate::config::{ProjectConfig, ServerConfig};
use crate::db::{BranchRecord, DemoStateRecord};
use crate::device_sessions::{DeviceSessions, DeviceSessionView};
use crate::messages::{
    BranchCredentials, BranchCredentialsView, BranchOwnership, DemoStateInfo, DemoStateInfoView,
    Versioned, WhoAmIResponse, WhoAmIView,
};
use crate::rate_limit::{ClientAddr, Entry, RateLimiter};
use crate::status::{Code, Status, StatusView};
use crate::supabase::{BranchCredentialSet, BranchResponse, SupabaseClient};
use crate::text::same_text;
use crate::{config, status, text};

verus! {

/// The requests of the login that one address may make in a window.
pub const LOGIN_QUOTA: u32 = 5;

/// The length of a window, in nanoseconds.
pub const LOGIN_WINDOW: u128 = 60_000_000_000;

/// The state of the server, but for its database.
pub struct SupabasedService {
    pub jwt_secret: Vec<u8>,
    pub github_org: String,
    pub github_oauth_client_id: String,
    pub device_sessions: DeviceSessions,
    pub rate_limiter: RateLimiter,
    pub supabase_client: SupabaseClient,
    pub config: ServerConfig,
    pub config_hash: String,
}

impl SupabasedService {
    /// The logins in progress and the counted requests are well-formed, and so is the limit
    /// on the requests of the login.
    pub open spec fn wf(&self) -> bool {
        &&& self.device_sessions.wf()
        &&& self.rate_limiter.wf()
        &&& self.rate_limiter.quota() == LOGIN_QUOTA
        &&& self.rate_limiter.period() == LOGIN_WINDOW
    }

    /// A server to which nobody has logged in yet.
    pub fn new(
        jwt_secret: Vec<u8>,
        github_org: String,
        github_oauth_client_id: String,
        supabase_client: SupabaseClient,
        config: ServerConfig,
        config_hash: String,
    ) -> (r: SupabasedService)
        ensures
            r.wf(),
            r.jwt_secret == jwt_secret,
            r.github_org == github_org,
            r.github_oauth_client_id == github_oauth_client_id,
            r.device_sessions.known() == Map::<Seq<char>, DeviceSessionView>::empty(),
            r.rate_limiter.known() == Map::<ClientAddr, Entry>::empty(),
            r.supabase_client == supabase_client,
            r.config == config,
            r.config_hash == config_hash,
    {
        SupabasedService {
            jwt_secret,
            github_org,
            github_oauth_client_id,
            device_sessions: DeviceSessions::new(),
            rate_limiter: RateLimiter::new(LOGIN_QUOTA, LOGIN_WINDOW),
            supabase_client,
            config,
            config_hash,
        }
    }

    /// The reply, with the version of the configuration.
    pub fn with_config_version<T>(&self, message: T) -> (r: Versioned<T>)
        ensures
            r.message == message,
            r.config_version == self.config_hash,
    {
        Versioned { message, config_version: self.config_hash.clone() }
    }

    /// Who makes the request, and what they may do.
    pub fn who_am_i(&self, ctx: Option<AuthContext>) -> (r: Result<
        Versioned<WhoAmIResponse>,
        Status,
    >)
        ensures
            match ctx {
                Some(ctx) => {
                    &&& r matches Ok(reply)
                    &&& reply.message@ == (WhoAmIView {
                        identity: ctx@.identity,
                        permissions: ctx@.permissions,
                        accessible_branches: Seq::empty(),
                    })
                    &&& reply.config_version == self.config_hash
                },
                None => r matches Err(status) && status@ == authentication_required(),
            },
    {
        match authenticated(ctx) {
            Err(status) => Err(status),
            Ok(ctx) => {
                let message = WhoAmIResponse {
                    identity: ctx.identity,
                    permissions: ctx.permissions,
                    accessible_branches: Vec::new(),
                };
                assert(message@.accessible_branches =~= Seq::empty());
                Ok(self.with_config_version(message))
            },
        }
    }

    /// The names of the configured projects.
    pub fn list_projects(&self, ctx: Option<AuthContext>) -> (r: Result<
        Versioned<Vec<String>>,
        Status,
    >)
        ensures
            match ctx {
                Some(_) => {
                    &&& r matches Ok(reply)
                    &&& text::texts(reply.message@) == project_names(self.config.projects@)
                    &&& reply.config_version == self.config_hash
                },
                None => r matches Err(status) && status@ == authentication_required(),
            },
    {
        if let Err(status) = authenticated(ctx) {
            return Err(status);
        }
        let mut names: Vec<String> = Vec::new();
        let ghost all = project_names(self.config.projects@);
        let mut i: usize = 0;
        while i < self.config.projects.len()
            invariant
                i <= self.config.projects.len(),
                all == project_names(self.config.projects@),
                text::texts(names@) == all.take(i as int),
            decreases self.config.projects.len() - i,
        {
            let ghost before = names@;
            names.push(self.config.projects[i].name.clone());
            assert(text::texts(names@) =~= text::texts(before).push(all[i as int]));
            assert(all.take(i + 1) =~= all.take(i as int).push(all[i as int]));
            i += 1;
        }
        assert(all.take(i as int) =~= all);
        Ok(self.with_config_version(names))
    }
}

/// The names of the projects, in order.
pub open spec fn project_names(projects: Seq<ProjectConfig>) -> Seq<Seq<char>> {
    projects.map_values(|p: ProjectConfig| p.name@)
}

/// Who makes the request, in view form.
pub open spec fn maker(ctx: Option<AuthContext>) -> Option<AuthContextView> {
    match ctx {
        Some(ctx) => Some(ctx@),
        None => None,
    }
}

/// The refusal of a request whose maker is not known.
pub open spec fn authentication_required() -> StatusView {
    status::refusal(Code::Unauthenticated, "authentication required"@)
}

/// Refuses a request whose maker is not known.
pub fn authenticated(ctx: Option<AuthContext>) -> (r: Result<AuthContext, Status>)
    ensures
        status::outcome(r) == match ctx {
            Some(ctx) => Ok(ctx),
            None => Err(authentication_required()),
        },
{
    match ctx {
        Some(ctx) => Ok(ctx),
        None => Err(Status::new(Code::Unauthenticated, "authentication required")),
    }
}

/// The refusal of a request for which the database failed.
pub open spec fn database_failure(error: Seq<char>) -> StatusView {
    status::refusal(Code::Internal, "database error: "@ + error)
}

/// The refusal of a request for which the database failed.
pub fn database_error(error: &str) -> (r: Status)
    ensures
        r@ == database_failure(error@),
{
    Status::with_detail(Code::Internal, "database error: ", error)
}

/// The project with this name, or why there is none.
pub open spec fn project_named(config: ServerConfig, name: Seq<char>) -> Result<
    ProjectConfig,
    StatusView,
> {
    match config::first_named(config.projects@, name) {
        Some(project) => Ok(project),
        None => Err(status::refusal(Code::NotFound, "unknown project: "@ + name)),
    }
}

/// The project with this name.
pub fn resolve_project<'a>(config: &'a ServerConfig, project_name: &str) -> (r: Result<
    &'a ProjectConfig,
    Status,
>)
    ensures
        match project_named(*config, project_name@) {
            Ok(project) => r matches Ok(found) && *found == project,
            Err(failure) => r matches Err(status) && status@ == failure,
        },
{
    match config.resolve_project(project_name) {
        Some(project) => Ok(project),
        None => Err(Status::with_detail(Code::NotFound, "unknown project: ", project_name)),
    }
}

/// The project with this name, where it is one for demo states.
pub open spec fn demo_project_named(config: ServerConfig, name: Seq<char>) -> Result<
    ProjectConfig,
    StatusView,
> {
    match project_named(config, name) {
        Ok(project) => if project.demo {
            Ok(project)
        } else {
            Err(
                status::refusal(
                    Code::FailedPrecondition,
                    "project '"@ + name + "' is not configured for demo operations"@,
                ),
            )
        },
        Err(failure) => Err(failure),
    }
}

/// The project with this name, where it is one for demo states.
pub fn resolve_demo_project<'a>(config: &'a ServerConfig, project_name: &str) -> (r: Result<
    &'a ProjectConfig,
    Status,
>)
    ensures
        match demo_project_named(*config, project_name@) {
            Ok(project) => r matches Ok(found) && *found == project,
            Err(failure) => r matches Err(status) && status@ == failure,
        },
{
    match resolve_project(config, project_name) {
        Err(status) => Err(status),
        Ok(project) => {
            if project.is_demo_project() {
                return Ok(project);
            }
            let mut message = "project '".to_string();
            message.append(project_name);
            message.append("' is not configured for demo operations");
            Err(Status { code: Code::FailedPrecondition, message })
        },
    }
}

/// The reference of the branch that was created of the project `parent`, or why what was
/// created cannot be one.
pub open spec fn child_branch_ref(response: BranchResponse, parent: Seq<char>) -> Result<
    Seq<char>,
    StatusView,
> {
    if response.project_ref is None || response.project_ref->0@.len() == 0 {
        Err(
            status::refusal(
                Code::Internal,
                "Supabase branch response did not include project_ref"@,
            ),
        )
    } else if response.project_ref->0@ == parent {
        Err(
            status::refusal(
                Code::FailedPrecondition,
                "Supabase returned the parent project as the created branch"@,
            ),
        )
    } else if response.parent_project_ref is None || response.parent_project_ref->0@ != parent {
        Err(
            status::refusal(
                Code::FailedPrecondition,
                "Supabase branch response parent did not match the configured project"@,
            ),
        )
    } else if response.is_default != Some(false) {
        Err(
            status::refusal(
                Code::FailedPrecondition,
                "Supabase branch response was not a non-default child branch"@,
            ),
        )
    } else {
        Ok(response.project_ref->0@)
    }
}

/// The reference of the branch that was created of the project `parent_project_ref`.
pub fn validated_branch_ref(branch_resp: &BranchResponse, parent_project_ref: &str) -> (r: Result<
    String,
    Status,
>)
    ensures
        match child_branch_ref(*branch_resp, parent_project_ref@) {
            Ok(branch_ref) => r matches Ok(found) && found@ == branch_ref,
            Err(failure) => r matches Err(status) && status@ == failure,
        },
{
    let branch_ref = match &branch_resp.project_ref {
        Some(value) => value.as_str(),
        None => "",
    };
    proof {
        reveal_strlit("");
    }
    if branch_ref.is_empty() {
        return Err(
            Status::new(
                Code::Internal,
                "Supabase branch response did not include project_ref",
            ),
        );
    }
    if same_text(branch_ref, parent_project_ref) {
        return Err(
            Status::new(
                Code::FailedPrecondition,
                "Supabase returned the parent project as the created branch",
            ),
        );
    }
    let parent_matches = match &branch_resp.parent_project_ref {
        Some(parent) => same_text(parent.as_str(), parent_project_ref),
        None => false,
    };
    if !parent_matches {
        return Err(
            Status::new(
                Code::FailedPrecondition,
                "Supabase branch response parent did not match the configured project",
            ),
        );
    }
    let is_child = match branch_resp.is_default {
        Some(is_default) => !is_default,
        None => false,
    };
    if !is_child {
        return Err(
            Status::new(
                Code::FailedPrecondition,
                "Supabase branch response was not a non-default child branch",
            ),
        );
    }
    Ok(branch_ref.to_string())
}

/// The credentials of the branch, each key under its modern and under its older name.
pub fn branch_credentials_response(
    project_name: String,
    branch_name: String,
    creds: BranchCredentialSet,
) -> (r: BranchCredentials)
    ensures
        r@ == (BranchCredentialsView {
            branch_name: branch_name@,
            project_name: project_name@,
            api_url: creds.api_url@,
            publishable_key: creds.publishable_key@,
            secret_key: creds.secret_key@,
            anon_key: creds.publishable_key@,
            service_role_key: creds.secret_key@,
        }),
{
    BranchCredentials {
        branch_name,
        project_name,
        api_url: creds.api_url,
        anon_key: creds.publishable_key.clone(),
        service_role_key: creds.secret_key.clone(),
        publishable_key: creds.publishable_key,
        secret_key: creds.secret_key,
    }
}

/// Whose branch it is, seen from `ctx`, where `record` is what is filed of it.
pub open spec fn ownership(ctx: AuthContextView, record: Option<BranchRecord>) -> BranchOwnership {
    match record {
        Some(record) => if record.creator_identity@ == ctx.identity {
            BranchOwnership::Yours
        } else {
            BranchOwnership::Other
        },
        None => BranchOwnership::Untracked,
    }
}

/// Whose branch it is, seen from `ctx`, where `record` is what is filed of it.
pub fn classify_branch_ownership(ctx: &AuthContext, record: Option<&BranchRecord>) -> (r:
    BranchOwnership)
    ensures
        r == ownership(
            ctx@,
            match record {
                Some(record) => Some(*record),
                None => None,
            },
        ),
{
    match record {
        Some(record) => if same_text(record.creator_identity.as_str(), ctx.identity.as_str()) {
            BranchOwnership::Yours
        } else {
            BranchOwnership::Other
        },
        None => BranchOwnership::Untracked,
    }
}

/// The text, or the empty text where there is none.
pub open spec fn text_or_empty(s: Option<String>) -> Seq<char> {
    match s {
        Some(text) => text@,
        None => Seq::empty(),
    }
}

/// The text, or the empty text where there is none.
pub fn string_or_empty(s: Option<String>) -> (r: String)
    ensures
        r@ == text_or_empty(s),
{
    match s {
        Some(text) => text,
        None => String::new(),
    }
}

/// The demo state, as its record describes it.
pub open spec fn described(record: DemoStateRecord) -> DemoStateInfoView {
    DemoStateInfoView {
        project_name: record.project_name@,
        name: record.name@,
        branch_name: record.branch_name@,
        branch_ref: record.branch_ref@,
        creator_identity: record.creator_identity@,
        created_at: record.created_at@,
        last_restored_at: text_or_empty(record.last_restored_at),
    }
}

/// The demo state, as its record describes it.
pub fn demo_state_info(record: DemoStateRecord) -> (r: DemoStateInfo)
    ensures
        r@ == described(record),
{
    DemoStateInfo {
        project_name: record.project_name,
        name: record.name,
        branch_name: record.branch_name,
        branch_ref: record.branch_ref,
        creator_identity: record.creator_identity,
        created_at: record.created_at,
        last_restored_at: string_or_empty(record.last_restored_at),
    }
}

/// Refuses a restore that was not confirmed.
pub fn require_restore_confirmation(confirm_overwrite_main: bool) -> (r: Result<(), Status>)
    ensures
        status::outcome(r) == if confirm_overwrite_main {
            Ok(())
        } else {
            Err(restore_unconfirmed())
        },
{
    if confirm_overwrite_main {
        Ok(())
    } else {
        Err(Status::new(Code::FailedPrecondition, "restore requires confirm_overwrite_main=true"))
    }
}

/// The refusal of a restore that was not confirmed.
pub open spec fn restore_unconfirmed() -> StatusView {
    status::refusal(Code::FailedPrecondition, "restore requires confirm_overwrite_main=true"@)
}

/// A branch that is accepted as created is neither the project that it was made of nor any
/// project's default branch, and was made of that project.
pub proof fn law_accepted_branch_is_a_child(response: BranchResponse, parent: Seq<char>)
    requires
        child_branch_ref(response, parent) is Ok,
    ensures
        child_branch_ref(response, parent)->Ok_0 != parent,
        child_branch_ref(response, parent)->Ok_0.len() > 0,
        response.parent_project_ref matches Some(made_of) && made_of@ == parent,
        response.is_default == Some(false),
{
}

} // verus!

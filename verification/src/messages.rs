//! The replies that the server gives.

use vstd::prelude::*;

use crate::text;

verus! {

/// A reply, with the version of the configuration under which it was given.
#[derive(Clone, Debug)]
pub struct Versioned<T> {
    pub message: T,
    pub config_version: String,
}

pub struct VersionedView<V> {
    pub message: V,
    pub config_version: Seq<char>,
}

impl<T: View> View for Versioned<T> {
    type V = VersionedView<T::V>;

    open spec fn view(&self) -> VersionedView<T::V> {
        VersionedView { message: self.message@, config_version: self.config_version@ }
    }
}

/// The reply under this version of the configuration.
pub open spec fn versioned<V>(message: V, config_version: Seq<char>) -> VersionedView<V> {
    VersionedView { message, config_version }
}

/// Who makes a request, and what they may do.
#[derive(Clone, Debug)]
pub struct WhoAmIResponse {
    pub identity: String,
    pub permissions: Vec<String>,
    pub accessible_branches: Vec<String>,
}

pub struct WhoAmIView {
    pub identity: Seq<char>,
    pub permissions: Seq<Seq<char>>,
    pub accessible_branches: Seq<Seq<char>>,
}

impl View for WhoAmIResponse {
    type V = WhoAmIView;

    open spec fn view(&self) -> WhoAmIView {
        WhoAmIView {
            identity: self.identity@,
            permissions: text::texts(self.permissions@),
            accessible_branches: text::texts(self.accessible_branches@),
        }
    }
}

/// A login in progress, as the user is told of it.
#[derive(Clone, Debug)]
pub struct StartGithubDeviceAuthResponse {
    pub auth_session_id: String,
    pub user_code: String,
    pub verification_uri: String,
    pub expires_in: i64,
    pub interval: i64,
}

/// The tokens of a user who has logged in.
#[derive(Clone, Debug)]
pub struct AuthResponse {
    pub session_token: String,
    pub identity: String,
    pub permissions: Vec<String>,
    pub expires_at: i64,
    pub refresh_token: String,
    pub refresh_expires_at: i64,
}

pub struct AuthResponseView {
    pub session_token: Seq<char>,
    pub identity: Seq<char>,
    pub permissions: Seq<Seq<char>>,
    pub expires_at: i64,
    pub refresh_token: Seq<char>,
    pub refresh_expires_at: i64,
}

impl View for AuthResponse {
    type V = AuthResponseView;

    open spec fn view(&self) -> AuthResponseView {
        AuthResponseView {
            session_token: self.session_token@,
            identity: self.identity@,
            permissions: text::texts(self.permissions@),
            expires_at: self.expires_at,
            refresh_token: self.refresh_token@,
            refresh_expires_at: self.refresh_expires_at,
        }
    }
}

/// A login that waits for its user, to be asked for again after `interval` seconds.
#[derive(Clone, Debug)]
pub struct GithubDeviceAuthPending {
    pub interval: i64,
    pub message: String,
}

pub struct PendingView {
    pub interval: i64,
    pub message: Seq<char>,
}

impl View for GithubDeviceAuthPending {
    type V = PendingView;

    open spec fn view(&self) -> PendingView {
        PendingView {
            interval: self.interval,
            message: self.message@,
        }
    }
}

/// Where a login stands.
#[derive(Clone, Debug)]
pub enum DeviceAuthResult {
    Pending(GithubDeviceAuthPending),
    Auth(AuthResponse),
}

/// The reply to a client that asks where a login stands.
#[derive(Clone, Debug)]
pub struct FinishGithubDeviceAuthResponse {
    pub result: Option<DeviceAuthResult>,
}

/// Whose branch it is, seen from the maker of the request.
#[derive(Clone, Copy, Debug, PartialEq, Eq, Structural)]
pub enum BranchOwnership {
    Unspecified,
    Yours,
    Other,
    Untracked,
}

/// A branch of a project.
#[derive(Clone, Debug)]
pub struct BranchInfo {
    pub branch_name: String,
    pub project_name: String,
    pub status: String,
    pub created_at: String,
    pub ownership: BranchOwnership,
}

pub struct BranchInfoView {
    pub branch_name: Seq<char>,
    pub project_name: Seq<char>,
    pub status: Seq<char>,
    pub created_at: Seq<char>,
    pub ownership: BranchOwnership,
}

impl View for BranchInfo {
    type V = BranchInfoView;

    open spec fn view(&self) -> BranchInfoView {
        BranchInfoView {
            branch_name: self.branch_name@,
            project_name: self.project_name@,
            status: self.status@,
            created_at: self.created_at@,
            ownership: self.ownership,
        }
    }
}

/// The branches of a list.
pub open spec fn branch_views(branches: Seq<BranchInfo>) -> Seq<BranchInfoView> {
    branches.map_values(|b: BranchInfo| b@)
}

/// A list of branches.
#[derive(Clone, Debug)]
pub struct ListBranchesResponse {
    pub branches: Vec<BranchInfo>,
}

impl View for ListBranchesResponse {
    type V = Seq<BranchInfoView>;

    open spec fn view(&self) -> Seq<BranchInfoView> {
        branch_views(self.branches@)
    }
}

/// The credentials of a branch. The last two keys repeat the first two under their older
/// names.
#[derive(Clone, Debug)]
pub struct BranchCredentials {
    pub branch_name: String,
    pub project_name: String,
    pub api_url: String,
    pub publishable_key: String,
    pub secret_key: String,
    pub anon_key: String,
    pub service_role_key: String,
}

pub struct BranchCredentialsView {
    pub branch_name: Seq<char>,
    pub project_name: Seq<char>,
    pub api_url: Seq<char>,
    pub publishable_key: Seq<char>,
    pub secret_key: Seq<char>,
    pub anon_key: Seq<char>,
    pub service_role_key: Seq<char>,
}

impl View for BranchCredentials {
    type V = BranchCredentialsView;

    open spec fn view(&self) -> BranchCredentialsView {
        BranchCredentialsView {
            branch_name: self.branch_name@,
            project_name: self.project_name@,
            api_url: self.api_url@,
            publishable_key: self.publishable_key@,
            secret_key: self.secret_key@,
            anon_key: self.anon_key@,
            service_role_key: self.service_role_key@,
        }
    }
}

/// A demo state. `last_restored_at` is empty where it was never restored.
#[derive(Clone, Debug)]
pub struct DemoStateInfo {
    pub project_name: String,
    pub name: String,
    pub branch_name: String,
    pub branch_ref: String,
    pub creator_identity: String,
    pub created_at: String,
    pub last_restored_at: String,
}

pub struct DemoStateInfoView {
    pub project_name: Seq<char>,
    pub name: Seq<char>,
    pub branch_name: Seq<char>,
    pub branch_ref: Seq<char>,
    pub creator_identity: Seq<char>,
    pub created_at: Seq<char>,
    pub last_restored_at: Seq<char>,
}

impl View for DemoStateInfo {
    type V = DemoStateInfoView;

    open spec fn view(&self) -> DemoStateInfoView {
        DemoStateInfoView {
            project_name: self.project_name@,
            name: self.name@,
            branch_name: self.branch_name@,
            branch_ref: self.branch_ref@,
            creator_identity: self.creator_identity@,
            created_at: self.created_at@,
            last_restored_at: self.last_restored_at@,
        }
    }
}

/// The demo states of a list.
pub open spec fn demo_state_views(states: Seq<DemoStateInfo>) -> Seq<DemoStateInfoView> {
    states.map_values(|s: DemoStateInfo| s@)
}

/// A list of demo states.
#[derive(Clone, Debug)]
pub struct ListDemoStatesResponse {
    pub states: Vec<DemoStateInfo>,
}

impl View for ListDemoStatesResponse {
    type V = Seq<DemoStateInfoView>;

    open spec fn view(&self) -> Seq<DemoStateInfoView> {
        demo_state_views(self.states@)
    }
}

/// A demo state that was deleted, and what became of its branch.
#[derive(Clone, Debug)]
pub struct DeleteDemoStateResponse {
    pub deleted: bool,
    pub project_name: String,
    pub name: String,
    pub branch_name: String,
    pub branch_ref: String,
    pub remote_branch_deleted: bool,
    pub remote_branch_missing: bool,
}

pub struct DeleteDemoStateView {
    pub deleted: bool,
    pub project_name: Seq<char>,
    pub name: Seq<char>,
    pub branch_name: Seq<char>,
    pub branch_ref: Seq<char>,
    pub remote_branch_deleted: bool,
    pub remote_branch_missing: bool,
}

impl View for DeleteDemoStateResponse {
    type V = DeleteDemoStateView;

    open spec fn view(&self) -> DeleteDemoStateView {
        DeleteDemoStateView {
            deleted: self.deleted,
            project_name: self.project_name@,
            name: self.name@,
            branch_name: self.branch_name@,
            branch_ref: self.branch_ref@,
            remote_branch_deleted: self.remote_branch_deleted,
            remote_branch_missing: self.remote_branch_missing,
        }
    }
}

} // verus!

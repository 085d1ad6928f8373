//! The client: its configuration, its login and what it prints.

use vstd::prelude::*;

use crate::messages::{
    AuthResponse, BranchInfo, DeleteDemoStateResponse, DeleteDemoStateView, DemoStateInfo,
    DemoStateInfoView, DeviceAuthResult, FinishGithubDeviceAuthResponse,
    StartGithubDeviceAuthResponse,
};
use crate::text::{path_in, same_text, starts_with, trim};
use crate::{device_sessions, login, messages, session, text};

verus! {

/// A project that the client remembers.
#[derive(Clone, Debug)]
pub struct CachedProject {
    pub name: String,
}

/// The configuration of the client.
#[derive(Clone, Debug)]
pub struct Config {
    pub server_url: Option<String>,
    pub ca_cert: Option<String>,
    pub cached_projects: Option<Vec<CachedProject>>,
    pub config_version: Option<String>,
}

/// The place of the configuration.
pub fn config_path(config_dir: &str) -> (r: String)
    ensures
        r@ == session::client_file(config_dir@, "config.json"@),
{
    path_in(path_in(config_dir, "supabased").as_str(), "config.json")
}

/// The configuration that was found; without one, an empty configuration.
pub fn load_config(found: Option<Config>) -> (r: Config)
    ensures
        match found {
            Some(config) => r == config,
            None => r.server_url is None && r.ca_cert is None && r.cached_projects is None
                && r.config_version is None,
        },
{
    match found {
        Some(config) => config,
        None => Config {
            server_url: None,
            ca_cert: None,
            cached_projects: None,
            config_version: None,
        },
    }
}

/// The server of a client that was never told another.
pub const DEFAULT_SERVER_URL: &'static str = "http://[::1]:50051";

/// The server to talk to: the one that is asked for, else the one that is configured, else the
/// default.
pub open spec fn chosen_server(asked: Option<String>, config: Config) -> Seq<char> {
    match (asked, config.server_url) {
        (Some(server), _) => server@,
        (None, Some(server)) => server@,
        (None, None) => DEFAULT_SERVER_URL@,
    }
}

/// The server to talk to.
pub fn server_url(asked: &Option<String>, config: &Config) -> (r: String)
    ensures
        r@ == chosen_server(*asked, *config),
{
    match (asked, &config.server_url) {
        (Some(server), _) => server.clone(),
        (None, Some(server)) => server.clone(),
        (None, None) => DEFAULT_SERVER_URL.to_string(),
    }
}

/// The server for a login: what the user has typed, or `current` where that is blank.
pub fn login_server(input: &str, current: &str) -> (r: String)
    ensures
        r@ == if text::trimmed(input@).len() == 0 {
            current@
        } else {
            text::trimmed(input@)
        },
{
    let typed = trim(input);
    if typed.as_str().is_empty() {
        current.to_string()
    } else {
        typed
    }
}

/// The file with the certificates to trust: the one that is asked for, else the one that is
/// configured.
pub fn ca_cert(asked: Option<String>, config: &Config) -> (r: Option<String>)
    ensures
        r == match asked {
            Some(path) => Some(path),
            None => config.ca_cert,
        },
{
    match asked {
        Some(path) => Some(path),
        None => config.ca_cert.clone(),
    }
}

/// Whether the server is reached over TLS.
pub fn uses_tls(server: &str) -> (r: bool)
    ensures
        r == text::occurs_at(server@, "https://"@, 0),
{
    starts_with(server, "https://")
}

/// The configuration after a login at this server.
pub fn config_after_login(config: Config, server: &str, ca_cert: Option<String>) -> (r: Config)
    ensures
        r.server_url matches Some(url) && url@ == server@,
        r.ca_cert == ca_cert,
        r.cached_projects == config.cached_projects,
        r.config_version == config.config_version,
{
    Config {
        server_url: Some(server.to_string()),
        ca_cert,
        cached_projects: config.cached_projects,
        config_version: config.config_version,
    }
}

/// Whether two optional texts are the same.
pub open spec fn same_version(a: Option<String>, b: Option<String>) -> bool {
    match (a, b) {
        (Some(a), Some(b)) => a@ == b@,
        (None, None) => true,
        _ => false,
    }
}

/// Whether the projects that the client remembers are those of the server's version.
pub fn cache_is_current(server_version: &Option<String>, config: &Config) -> (r: bool)
    ensures
        r == same_version(*server_version, config.config_version),
{
    match (server_version, &config.config_version) {
        (Some(a), Some(b)) => same_text(a.as_str(), b.as_str()),
        (None, None) => true,
        _ => false,
    }
}

/// The names of the projects.
pub open spec fn cached_names(projects: Seq<CachedProject>) -> Seq<Seq<char>> {
    projects.map_values(|p: CachedProject| p.name@)
}

/// The configuration with these projects remembered under this version.
pub fn remember_projects(config: Config, names: &Vec<String>, version: Option<String>) -> (r: Config)
    ensures
        r.server_url == config.server_url,
        r.ca_cert == config.ca_cert,
        r.cached_projects matches Some(projects) && cached_names(projects@) == text::texts(names@),
        r.config_version == version,
{
    let ghost all = text::texts(names@);
    let mut projects: Vec<CachedProject> = Vec::new();
    let mut i: usize = 0;
    while i < names.len()
        invariant
            i <= names.len(),
            all == text::texts(names@),
            cached_names(projects@) == all.take(i as int),
        decreases names.len() - i,
    {
        let ghost before = projects@;
        projects.push(CachedProject { name: names[i].clone() });
        assert(cached_names(projects@) =~= cached_names(before).push(all[i as int]));
        assert(all.take(i + 1) =~= all.take(i as int).push(all[i as int]));
        i += 1;
    }
    assert(all.take(i as int) =~= all);
    Config {
        server_url: config.server_url,
        ca_cert: config.ca_cert,
        cached_projects: Some(projects),
        config_version: version,
    }
}

/// A login for which the client waits, until the time `deadline` in nanoseconds.
#[derive(Clone, Copy, Debug)]
pub struct LoginWait {
    pub interval: u64,
    pub deadline: u128,
}

/// What the client does about its login.
#[derive(Clone, Debug)]
pub enum LoginStep {
    LoggedIn(AuthResponse),
    Wait(LoginWait),
}

/// The number of seconds between two questions, at least one.
pub open spec fn pause(interval: i64) -> int {
    device_sessions::at_least_one(interval) as int
}

impl LoginWait {
    /// The wait for a login that has started at `now`.
    pub fn begin(start: &StartGithubDeviceAuthResponse, now: u128) -> (r: LoginWait)
        requires
            now <= login::LATEST_TIME,
        ensures
            r.interval == pause(start.interval),
            r.deadline == device_sessions::deadline(now, start.expires_in),
    {
        let interval: u64 = if start.interval >= 1 {
            start.interval as u64
        } else {
            1
        };
        let expires_in: u128 = if start.expires_in >= 1 {
            start.expires_in as u128
        } else {
            1
        };
        LoginWait { interval, deadline: now + expires_in * 1_000_000_000 }
    }

    /// The seconds to sleep before the server is asked, unless the login is over at `now`.
    pub fn next(&self, now: u128) -> (r: Result<u64, String>)
        ensures
            if now >= self.deadline {
                r matches Err(message) && message@
                    == "GitHub authorization expired; run `supabased login` again"@
            } else {
                r == Ok::<u64, String>(self.interval)
            },
    {
        if now >= self.deadline {
            return Err("GitHub authorization expired; run `supabased login` again".to_string());
        }
        Ok(self.interval)
    }

    /// What the client does once the server has answered.
    pub fn answered(self, response: FinishGithubDeviceAuthResponse) -> (r: Result<
        LoginStep,
        String,
    >)
        ensures
            match response.result {
                Some(DeviceAuthResult::Auth(tokens)) => r == Ok::<LoginStep, String>(
                    LoginStep::LoggedIn(tokens),
                ),
                Some(DeviceAuthResult::Pending(pending)) => {
                    &&& r matches Ok(LoginStep::Wait(wait))
                    &&& wait.interval == pause(pending.interval)
                    &&& wait.deadline == self.deadline
                },
                None => r matches Err(message) && message@
                    == "server returned an empty OAuth polling response"@,
            },
    {
        match response.result {
            Some(DeviceAuthResult::Auth(tokens)) => Ok(LoginStep::LoggedIn(tokens)),
            Some(DeviceAuthResult::Pending(pending)) => {
                let interval: u64 = if pending.interval >= 1 {
                    pending.interval as u64
                } else {
                    1
                };
                Ok(LoginStep::Wait(LoginWait { interval, deadline: self.deadline }))
            },
            None => Err("server returned an empty OAuth polling response".to_string()),
        }
    }
}

/// Refuses a restore that was not confirmed on the command line.
pub fn require_cli_restore_confirmation(confirm_overwrite_main: bool) -> (r: Result<
    (),
    &'static str,
>)
    ensures
        match r {
            Ok(_) => confirm_overwrite_main,
            Err(message) => !confirm_overwrite_main && message@
                == "restore refused: pass --confirm-overwrite-main to overwrite main public schema data"@,
        },
{
    if confirm_overwrite_main {
        Ok(())
    } else {
        Err("restore refused: pass --confirm-overwrite-main to overwrite main public schema data")
    }
}

/// What is printed of a demo state that was deleted.
pub open spec fn deletion_message(response: DeleteDemoStateView) -> Seq<char> {
    if response.remote_branch_missing {
        "Deleted demo state '"@ + response.name + "' for project '"@ + response.project_name
            + "'; branch '"@ + response.branch_name + "' was already gone."@
    } else {
        "Deleted demo state '"@ + response.name + "' for project '"@ + response.project_name
            + "' and branch '"@ + response.branch_name + "'."@
    }
}

/// What is printed of a demo state that was deleted.
pub fn demo_delete_success_message(response: &DeleteDemoStateResponse) -> (r: String)
    ensures
        r@ == deletion_message(response@),
{
    let mut message = "Deleted demo state '".to_string();
    message.append(response.name.as_str());
    message.append("' for project '");
    message.append(response.project_name.as_str());
    if response.remote_branch_missing {
        message.append("'; branch '");
        message.append(response.branch_name.as_str());
        message.append("' was already gone.");
    } else {
        message.append("' and branch '");
        message.append(response.branch_name.as_str());
        message.append("'.");
    }
    message
}

/// What is printed of the credentials of a branch: all but the secret key.
pub fn branch_credentials_terminal_output(
    project_name: &str,
    branch_name: &str,
    api_url: &str,
    publishable_key: &str,
) -> (r: String)
    ensures
        r@ == "Branch: "@ + project_name@ + "/"@ + branch_name@ + "\n  SUPABASE_URL="@ + api_url@
            + "\n  SUPABASE_PUBLISHABLE_KEY="@ + publishable_key@,
{
    let mut output = "Branch: ".to_string();
    output.append(project_name);
    output.append("/");
    output.append(branch_name);
    output.append("\n  SUPABASE_URL=");
    output.append(api_url);
    output.append("\n  SUPABASE_PUBLISHABLE_KEY=");
    output.append(publishable_key);
    output
}

/// What is printed of a branch that was created.
pub fn created_branch_message(branch: &BranchInfo) -> (r: String)
    ensures
        r@ == "Created branch '"@ + branch@.branch_name + "' in project '"@ + branch@.project_name
            + "' (status: "@ + branch@.status + ")"@,
{
    let mut message = "Created branch '".to_string();
    message.append(branch.branch_name.as_str());
    message.append("' in project '");
    message.append(branch.project_name.as_str());
    message.append("' (status: ");
    message.append(branch.status.as_str());
    message.append(")");
    message
}

/// The lines for the first `n` names.
pub open spec fn name_lines(names: Seq<Seq<char>>, n: nat) -> Seq<char>
    decreases n,
{
    if n == 0 {
        Seq::empty()
    } else {
        name_lines(names, (n - 1) as nat) + "\n  "@ + names[n - 1]
    }
}

/// What is printed of the configured projects.
pub fn projects_text(names: &Vec<String>) -> (r: String)
    ensures
        r@ == if names@.len() == 0 {
            "No projects configured."@
        } else {
            "Configured projects:"@ + name_lines(text::texts(names@), names@.len())
        },
{
    if names.len() == 0 {
        return "No projects configured.".to_string();
    }
    let ghost all = text::texts(names@);
    let mut out = "Configured projects:".to_string();
    let mut i: usize = 0;
    assert(out@ =~= "Configured projects:"@ + name_lines(all, 0));
    while i < names.len()
        invariant
            i <= names.len(),
            all == text::texts(names@),
            out@ == "Configured projects:"@ + name_lines(all, i as nat),
        decreases names.len() - i,
    {
        out.append("\n  ");
        out.append(names[i].as_str());
        assert(all[i as int] == names@[i as int]@);
        assert(out@ =~= "Configured projects:"@ + name_lines(all, (i + 1) as nat));
        i += 1;
    }
    out
}

/// When a demo state was put back last, as it is printed.
pub open spec fn restored_text(state: DemoStateInfoView) -> Seq<char> {
    if state.last_restored_at.len() == 0 {
        "never"@
    } else {
        state.last_restored_at
    }
}

/// The lines for the first `n` demo states.
pub open spec fn state_lines(states: Seq<DemoStateInfoView>, n: nat) -> Seq<char>
    decreases n,
{
    if n == 0 {
        Seq::empty()
    } else {
        let state = states[n - 1];
        state_lines(states, (n - 1) as nat) + "\n  "@ + state.name + "  branch="@
            + state.branch_name + "  created="@ + state.created_at + "  last_restored="@
            + restored_text(state)
    }
}

/// What is printed of the demo states of a project.
pub fn demo_states_text(states: &Vec<DemoStateInfo>) -> (r: String)
    ensures
        r@ == if states@.len() == 0 {
            "No demo states saved."@
        } else {
            "Saved demo states:"@ + state_lines(
                messages::demo_state_views(states@),
                states@.len(),
            )
        },
{
    if states.len() == 0 {
        return "No demo states saved.".to_string();
    }
    let ghost all = messages::demo_state_views(states@);
    let mut out = "Saved demo states:".to_string();
    let mut i: usize = 0;
    assert(out@ =~= "Saved demo states:"@ + state_lines(all, 0));
    while i < states.len()
        invariant
            i <= states.len(),
            all == messages::demo_state_views(states@),
            out@ == "Saved demo states:"@ + state_lines(all, i as nat),
        decreases states.len() - i,
    {
        let state = &states[i];
        assert(all[i as int] == state@);
        out.append("\n  ");
        out.append(state.name.as_str());
        out.append("  branch=");
        out.append(state.branch_name.as_str());
        out.append("  created=");
        out.append(state.created_at.as_str());
        out.append("  last_restored=");
        if state.last_restored_at.as_str().is_empty() {
            out.append("never");
        } else {
            out.append(state.last_restored_at.as_str());
        }
        assert(out@ =~= "Saved demo states:"@ + state_lines(all, (i + 1) as nat));
        i += 1;
    }
    out
}

/// What is printed of a demo state that was saved.
pub fn saved_state_message(state: &DemoStateInfo) -> (r: String)
    ensures
        r@ == "Saved demo state '"@ + state@.name + "' for project '"@ + state@.project_name
            + "' as branch '"@ + state@.branch_name + "'"@,
{
    let mut message = "Saved demo state '".to_string();
    message.append(state.name.as_str());
    message.append("' for project '");
    message.append(state.project_name.as_str());
    message.append("' as branch '");
    message.append(state.branch_name.as_str());
    message.append("'");
    message
}

/// What is printed of a demo state that was put back.
pub fn restored_state_message(state: &DemoStateInfo) -> (r: String)
    ensures
        r@ == "Restored demo state '"@ + state@.name + "' onto project '"@ + state@.project_name
            + "'"@,
{
    let mut message = "Restored demo state '".to_string();
    message.append(state.name.as_str());
    message.append("' onto project '");
    message.append(state.project_name.as_str());
    message.append("'");
    message
}

/// A client that was neither asked for a server nor has one configured talks to the local one;
/// after a login it talks to the server of that login, unless it is asked for another.
pub proof fn law_login_fixes_the_server(before: Config, after: Config, server: Seq<char>)
    requires
        after.server_url matches Some(url) && url@ == server,
    ensures
        chosen_server(None, after) == server,
        before.server_url is None ==> chosen_server(None, before) == DEFAULT_SERVER_URL@,
        forall|asked: String| #[trigger] chosen_server(Some(asked), after) == asked@,
{
}

} // verus!

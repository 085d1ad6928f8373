//! What the client keeps, chooses and prints, whatever it is told.

use vstd::prelude::*;

use crate::client::{Config, LoginStep, LoginWait};
use crate::fields;
use crate::fields::{is_blank, is_trim_of};
use crate::login_laws::{no_less_than_one, same_texts};
use crate::messages::{
    AuthResponse, BranchInfo, DeleteDemoStateResponse, DemoStateInfo, DeviceAuthResult,
    FinishGithubDeviceAuthResponse, StartGithubDeviceAuthResponse,
};
use crate::restore_laws::lies_in;
use crate::session::{Session, SessionSource};
use crate::{client, login, messages, session, text};

verus! {

/// The files of the client lie in its own directory in the user's directory for configurations,
/// each under its own name.
pub proof fn law_client_files_lie_in_their_directory(
    config_dir: &str,
    of_session: String,
    of_config: String,
) -> (own: Seq<char>)
    requires
        call_ensures(session::session_path, (config_dir,), of_session),
        call_ensures(client::config_path, (config_dir,), of_config),
    ensures
        lies_in(own, config_dir@, "supabased"@),
        of_session@ == own + "/"@ + "session.json"@,
        of_config@ == own + "/"@ + "config.json"@,
{
    let own = text::path_within(config_dir@, "supabased"@);
    reveal_strlit("supabased");
    assert(own.last() == 'd');
    own
}

/// Without a configuration, the client begins with an empty one; one that was found is used as it
/// is.
pub proof fn law_found_configuration_is_used(found: Option<Config>, r: Config)
    requires
        call_ensures(client::load_config, (found,), r),
    ensures
        found matches Some(config) ==> r == config,
        found is None ==> r.server_url is None && r.ca_cert is None && r.cached_projects is None
            && r.config_version is None,
{
}

/// The server that is asked for comes before the one that is configured, and that one before the
/// local one.
pub proof fn law_server_is_chosen(asked: Option<String>, config: Config, r: String)
    requires
        call_ensures(client::server_url, (&asked, &config), r),
    ensures
        asked matches Some(server) ==> r@ == server@,
        asked is None ==> (config.server_url matches Some(server) ==> r@ == server@),
        asked is None && config.server_url is None ==> r@ == "http://[::1]:50051"@,
{
}

/// A login goes to the server that the user has typed, without white space around it, and to the
/// current one where they have typed nothing else.
pub proof fn law_login_goes_to_the_typed_server(input: &str, current: &str, r: String)
    requires
        call_ensures(client::login_server, (input, current), r),
    ensures
        is_blank(input@) ==> r@ == current@,
        !is_blank(input@) ==> is_trim_of(r@, input@),
{
    fields::lemma_blank(input@);
    fields::lemma_trim(input@);
}

/// The certificates that are asked for come before those that are configured.
pub proof fn law_certificates_are_chosen(
    asked: Option<String>,
    config: Config,
    r: Option<String>,
)
    requires
        call_ensures(client::ca_cert, (asked, &config), r),
    ensures
        asked is Some ==> r == asked,
        asked is None ==> r == config.ca_cert,
{
}

/// A server is reached over TLS exactly where its address begins with `https://`.
pub proof fn law_https_means_tls(server: &str, r: bool)
    requires
        call_ensures(client::uses_tls, (server,), r),
    ensures
        r <==> server@.len() >= 8 && server@.take(8) == "https://"@,
{
    reveal_strlit("https://");
    if server@.len() >= 8 {
        assert(server@.take(8) =~= server@.subrange(0, 8));
    }
}

/// A login is remembered with its server and its certificates; the projects that were remembered
/// stay.
pub proof fn law_login_is_remembered(
    config: Config,
    server: &str,
    certificates: Option<String>,
    r: Config,
)
    requires
        call_ensures(client::config_after_login, (config, server, certificates), r),
    ensures
        r.server_url matches Some(url) && url@ == server@,
        r.ca_cert == certificates,
        r.cached_projects == config.cached_projects,
        r.config_version == config.config_version,
{
}

/// What the client remembers of the projects is current exactly where it was remembered under the
/// version that the server has.
pub proof fn law_remembered_projects_are_current_under_their_version(
    config: Config,
    names: Vec<String>,
    version: Option<String>,
    r: Config,
    server_version: Option<String>,
    current: bool,
)
    requires
        call_ensures(client::remember_projects, (config, &names, version), r),
        call_ensures(client::cache_is_current, (&server_version, &r), current),
    ensures
        r.server_url == config.server_url,
        r.ca_cert == config.ca_cert,
        r.cached_projects matches Some(projects) && projects@.len() == names@.len() && forall|
            i: int,
        |
            0 <= i < names@.len() ==> (#[trigger] projects@[i]).name@ == names@[i]@,
        current <==> match (version, server_version) {
            (Some(kept), Some(served)) => kept@ == served@,
            (None, None) => true,
            _ => false,
        },
{
    let projects = r.cached_projects->0;
    let kept = client::cached_names(projects@);
    let all = text::texts(names@);
    assert(kept.len() == projects@.len() && all.len() == names@.len());
    assert forall|i: int| 0 <= i < names@.len() implies (#[trigger] projects@[i]).name@
        == names@[i]@ by {
        assert(kept[i] == projects@[i].name@);
        assert(all[i] == names@[i]@);
    }
}

/// The client waits for a login as long as the server has said, and pauses as long as the server
/// has said, but no less than a second.
pub proof fn law_wait_is_as_the_server_said(
    start: StartGithubDeviceAuthResponse,
    now: u128,
    wait: LoginWait,
    later: u128,
    r: Result<u64, String>,
)
    requires
        now <= login::LATEST_TIME,
        call_ensures(LoginWait::begin, (&start, now), wait),
        call_ensures(LoginWait::next, (&wait, later), r),
    ensures
        ({
            let end = now + no_less_than_one(start.expires_in) * 1_000_000_000;
            &&& later < end ==> (r matches Ok(seconds) && seconds == no_less_than_one(
                start.interval,
            ))
            &&& later >= end ==> (r matches Err(message) && message@
                == "GitHub authorization expired; run `supabased login` again"@)
        }),
{
}

/// The client is logged in with the tokens that the server has sent, and goes on to wait, until
/// the same time, where the server says so.
pub proof fn law_answered_wait_goes_on_or_ends(
    wait: LoginWait,
    response: FinishGithubDeviceAuthResponse,
    r: Result<LoginStep, String>,
)
    requires
        call_ensures(LoginWait::answered, (wait, response), r),
    ensures
        response.result matches Some(DeviceAuthResult::Auth(tokens)) ==> (r matches Ok(
            LoginStep::LoggedIn(given),
        ) && given == tokens),
        response.result matches Some(DeviceAuthResult::Pending(pending)) ==> (r matches Ok(
            LoginStep::Wait(longer),
        ) && longer.deadline == wait.deadline && longer.interval == no_less_than_one(
            pending.interval,
        )),
        response.result is None ==> (r matches Err(message) && message@
            == "server returned an empty OAuth polling response"@),
{
}

/// A restore is refused on the command line exactly where it was not confirmed there.
pub proof fn law_restore_needs_confirmation(confirmed: bool, r: Result<(), &'static str>)
    requires
        call_ensures(client::require_cli_restore_confirmation, (confirmed,), r),
    ensures
        r is Ok <==> confirmed,
        r matches Err(message) ==> message@
            == "restore refused: pass --confirm-overwrite-main to overwrite main public schema data"@,
{
}

/// A demo state that was deleted is printed with its name, its project and its branch, and with
/// whether the branch was there.
pub proof fn law_deletion_is_printed(response: DeleteDemoStateResponse, r: String)
    requires
        call_ensures(client::demo_delete_success_message, (&response,), r),
    ensures
        response.remote_branch_missing ==> r@ == "Deleted demo state '"@ + response.name@
            + "' for project '"@ + response.project_name@ + "'; branch '"@
            + response.branch_name@ + "' was already gone."@,
        !response.remote_branch_missing ==> r@ == "Deleted demo state '"@ + response.name@
            + "' for project '"@ + response.project_name@ + "' and branch '"@
            + response.branch_name@ + "'."@,
{
}

/// The credentials of a branch are printed with its project, its name, its address and its
/// publishable key.
pub proof fn law_credentials_are_printed(
    project_name: &str,
    branch_name: &str,
    api_url: &str,
    publishable_key: &str,
    r: String,
)
    requires
        call_ensures(
            client::branch_credentials_terminal_output,
            (project_name, branch_name, api_url, publishable_key),
            r,
        ),
    ensures
        r@ == "Branch: "@ + project_name@ + "/"@ + branch_name@ + "\n  SUPABASE_URL="@ + api_url@
            + "\n  SUPABASE_PUBLISHABLE_KEY="@ + publishable_key@,
{
}

/// A branch that was created is printed with its name, its project and its status.
pub proof fn law_creation_is_printed(branch: BranchInfo, r: String)
    requires
        call_ensures(client::created_branch_message, (&branch,), r),
    ensures
        r@ == "Created branch '"@ + branch.branch_name@ + "' in project '"@ + branch.project_name@
            + "' (status: "@ + branch.status@ + ")"@,
{
}

/// A demo state that was saved is printed with its name, its project and its branch, and one that
/// was put back with its name and its project.
pub proof fn law_saving_and_restoring_are_printed(
    state: DemoStateInfo,
    saved: String,
    restored: String,
)
    requires
        call_ensures(client::saved_state_message, (&state,), saved),
        call_ensures(client::restored_state_message, (&state,), restored),
    ensures
        saved@ == "Saved demo state '"@ + state.name@ + "' for project '"@ + state.project_name@
            + "' as branch '"@ + state.branch_name@ + "'"@,
        restored@ == "Restored demo state '"@ + state.name@ + "' onto project '"@
            + state.project_name@ + "'"@,
{
}

proof fn lemma_name_lines(a: Seq<Seq<char>>, b: Seq<Seq<char>>, n: nat)
    requires
        n <= a.len(),
        n <= b.len(),
        forall|i: int| 0 <= i < n ==> #[trigger] a[i] == b[i],
    ensures
        client::name_lines(a, n) == client::name_lines(b, n),
    decreases n,
{
    if n > 0 {
        lemma_name_lines(a, b, (n - 1) as nat);
        assert(a[n - 1] == b[n - 1]);
    }
}

/// The projects are printed one to a line, each behind those before it.
pub proof fn law_projects_are_printed_line_by_line(
    names: Vec<String>,
    r: String,
    more: Vec<String>,
    longer: String,
)
    requires
        call_ensures(client::projects_text, (&names,), r),
        call_ensures(client::projects_text, (&more,), longer),
        more@.len() == names@.len() + 1,
        same_texts(more@.drop_last(), names@),
    ensures
        names@.len() == 0 ==> r@ == "No projects configured."@,
        names@.len() == 0 ==> longer@ == "Configured projects:"@ + "\n  "@ + more@[0]@,
        names@.len() > 0 ==> longer@ == r@ + "\n  "@ + more@.last()@,
{
    let n = names@.len();
    let a = text::texts(names@);
    let b = text::texts(more@);
    assert(a.len() == n && b.len() == n + 1);
    assert forall|i: int| 0 <= i < n implies #[trigger] a[i] == b[i] by {
        assert(a[i] == names@[i]@);
        assert(b[i] == more@[i]@);
        assert(more@.drop_last()[i] == more@[i]);
    }
    lemma_name_lines(a, b, n);
    reveal_with_fuel(client::name_lines, 2);
    assert(b[n as int] == more@[n as int]@);
    if n == 0 {
        assert(longer@ =~= "Configured projects:"@ + "\n  "@ + more@[0]@);
    } else {
        assert(longer@ =~= r@ + "\n  "@ + more@.last()@);
    }
}

/// Whether the line shows the demo state: its name, its branch, when it was saved, and when it
/// was last put back.
pub open spec fn shows_state(line: Seq<char>, state: DemoStateInfo) -> bool {
    line == "\n  "@ + state.name@ + "  branch="@ + state.branch_name@ + "  created="@
        + state.created_at@ + "  last_restored="@ + (if state.last_restored_at@.len() == 0 {
        "never"@
    } else {
        state.last_restored_at@
    })
}

/// Whether both say the same of a demo state.
pub open spec fn is_same_state(a: DemoStateInfo, b: DemoStateInfo) -> bool {
    &&& a.project_name@ == b.project_name@
    &&& a.name@ == b.name@
    &&& a.branch_name@ == b.branch_name@
    &&& a.branch_ref@ == b.branch_ref@
    &&& a.creator_identity@ == b.creator_identity@
    &&& a.created_at@ == b.created_at@
    &&& a.last_restored_at@ == b.last_restored_at@
}

proof fn lemma_state_lines(
    a: Seq<messages::DemoStateInfoView>,
    b: Seq<messages::DemoStateInfoView>,
    n: nat,
)
    requires
        n <= a.len(),
        n <= b.len(),
        forall|i: int| 0 <= i < n ==> #[trigger] a[i] == b[i],
    ensures
        client::state_lines(a, n) == client::state_lines(b, n),
    decreases n,
{
    if n > 0 {
        lemma_state_lines(a, b, (n - 1) as nat);
        assert(a[n - 1] == b[n - 1]);
    }
}

/// The demo states are printed one to a line, each behind those before it.
pub proof fn law_states_are_printed_line_by_line(
    states: Vec<DemoStateInfo>,
    r: String,
    more: Vec<DemoStateInfo>,
    longer: String,
) -> (line: Seq<char>)
    requires
        call_ensures(client::demo_states_text, (&states,), r),
        call_ensures(client::demo_states_text, (&more,), longer),
        more@.len() == states@.len() + 1,
        forall|i: int|
            0 <= i < states@.len() ==> is_same_state(#[trigger] more@[i], states@[i]),
    ensures
        shows_state(line, more@.last()),
        states@.len() == 0 ==> r@ == "No demo states saved."@,
        states@.len() == 0 ==> longer@ == "Saved demo states:"@ + line,
        states@.len() > 0 ==> longer@ == r@ + line,
{
    let n = states@.len();
    let a = messages::demo_state_views(states@);
    let b = messages::demo_state_views(more@);
    assert(a.len() == n && b.len() == n + 1);
    assert forall|i: int| 0 <= i < n implies #[trigger] a[i] == b[i] by {
        assert(a[i] == states@[i]@);
        assert(b[i] == more@[i]@);
        assert(is_same_state(more@[i], states@[i]));
    }
    lemma_state_lines(a, b, n);
    reveal_with_fuel(client::state_lines, 2);
    let state = more@[n as int];
    assert(b[n as int] == state@);
    let line = "\n  "@ + state.name@ + "  branch="@ + state.branch_name@ + "  created="@
        + state.created_at@ + "  last_restored="@ + (if state.last_restored_at@.len() == 0 {
        "never"@
    } else {
        state.last_restored_at@
    });
    if n == 0 {
        assert(longer@ =~= "Saved demo states:"@ + line);
    } else {
        assert(longer@ =~= r@ + line);
    }
    line
}

/// A session is found where there is one that is not over; otherwise the user is told why they
/// are not logged in, and where the client has looked.
pub proof fn law_session_is_loaded_while_it_lasts(
    path: &str,
    source: SessionSource,
    now: i64,
    r: Result<Session, String>,
)
    requires
        call_ensures(session::load_session, (path, source, now), r),
    ensures
        source matches SessionSource::Found(found) ==> if found.expires_at > now {
            r matches Ok(loaded) && loaded == found
        } else {
            r matches Err(message) && message@ == "session expired — run `supabased login` again"@
        },
        source is Missing ==> (r matches Err(message) && message@
            == "not logged in — run `supabased login` first\n  (no session file at "@ + path@
            + ")"@),
        source matches SessionSource::Corrupt(error) ==> (r matches Err(message) && message@
            == "corrupt session file at "@ + path@ + ": "@ + error@),
{
}

/// A session is to be refreshed in the last five minutes before its end, and after it.
pub proof fn law_session_is_refreshed_before_its_end(session: Session, now: i64, r: bool)
    requires
        now <= i64::MAX - 300,
        call_ensures(session::needs_refresh, (&session, now), r),
    ensures
        r <==> session.expires_at - now <= 300,
{
}

/// Whether the session holds the tokens that the server has given.
pub open spec fn holds_tokens(session: Session, tokens: AuthResponse) -> bool {
    &&& session.session_token@ == tokens.session_token@
    &&& session.identity@ == tokens.identity@
    &&& session.expires_at == tokens.expires_at
    &&& session.refresh_token@ == tokens.refresh_token@
    &&& session.refresh_expires_at == tokens.refresh_expires_at
}

/// The session of a user holds the tokens that the server has given them, each as what it is.
pub proof fn law_session_holds_the_given_tokens(tokens: AuthResponse, r: Session)
    requires
        call_ensures(session::session_from, (tokens,), r),
    ensures
        holds_tokens(r, tokens),
{
}

/// A refreshed session holds the new tokens; where the server gives none, the session is over.
pub proof fn law_refreshed_session_holds_the_new_tokens(
    reply: Option<AuthResponse>,
    r: Result<Session, String>,
)
    requires
        call_ensures(session::refreshed_session, (reply,), r),
    ensures
        reply matches Some(tokens) ==> (r matches Ok(renewed) && holds_tokens(renewed, tokens)),
        reply is None ==> (r matches Err(message) && message@
            == "session expired — run `supabased login` again"@),
{
}

} // verus!

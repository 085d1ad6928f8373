//! Logging in, staying logged in, and logging out.
//!
//! Each operation is a chain of steps. A step says what is to be asked of GitHub or of the
//! database next; the one after it takes the answer. Times of logins in progress are
//! nanoseconds since some fixed origin, those of sessions are seconds of the Unix clock.

use vstd::prelude::*;

use crate::auth::{create_token, default_permissions};
use crate::clock::now_unix;
use crate::db::{RefreshSessionRecord, Statement, StatementView, TwoSteps, TwoStepsView};
use crate::device_sessions::DeviceSessionView;
use crate::github::{
    check_org_membership, org_membership, poll_device_auth, start_device_auth,
    started_device_auth, validate_token, validated_user, DeviceAuthPoll, DeviceAuthStart,
    GitHubUser,
};
use crate::http::{HttpReply, HttpReplyView, HttpRequest, HttpRequestView};
use crate::json::parse_json_list;
use crate::messages::{
    AuthResponse, AuthResponseView, DeviceAuthResult, FinishGithubDeviceAuthResponse,
    GithubDeviceAuthPending, PendingView, StartGithubDeviceAuthResponse,
};
use crate::rate_limit::{ClientAddr, Entry};
use crate::secrets::{
    generate_auth_session_id, generate_refresh_token, hash_refresh_secret, parse_refresh_token,
    RefreshToken,
};
use crate::service::{database_error, SupabasedService};
use crate::status::{Code, Status, StatusView};
use crate::{
    assoc, auth, db, device_sessions, github, json, rate_limit, secrets, service, status, text,
};

verus! {

/// The seconds for which a session can be refreshed.
pub const REFRESH_TOKEN_TTL_SECONDS: i64 = 2_592_000;

/// The latest time at which a login can begin.
pub const LATEST_TIME: u128 = 170_141_183_460_469_231_731_687_303_715_884_105_727;

/// The counted requests after one of `remote`; requests over no address are not counted.
pub open spec fn counted(
    known: Map<ClientAddr, Entry>,
    remote: Option<ClientAddr>,
    now: u128,
) -> Map<ClientAddr, Entry> {
    match remote {
        Some(addr) => rate_limit::after_request(
            known,
            service::LOGIN_QUOTA,
            service::LOGIN_WINDOW,
            addr,
            now,
        ),
        None => known,
    }
}

/// Whether a request of `remote` is let through.
pub open spec fn within_limit(
    known: Map<ClientAddr, Entry>,
    remote: Option<ClientAddr>,
    now: u128,
) -> bool {
    remote matches Some(addr) ==> rate_limit::lets_through(
        known,
        service::LOGIN_QUOTA,
        service::LOGIN_WINDOW,
        addr,
        now,
    )
}

/// The refusal of an address that asks too often.
pub open spec fn limit_exceeded() -> StatusView {
    status::refusal(Code::ResourceExhausted, "rate limit exceeded, try again later"@)
}

/// Whether all but the logins in progress and the counted requests is as before.
pub open spec fn same_settings(before: SupabasedService, after: SupabasedService) -> bool {
    &&& after.jwt_secret == before.jwt_secret
    &&& after.github_org == before.github_org
    &&& after.github_oauth_client_id == before.github_oauth_client_id
    &&& after.supabase_client == before.supabase_client
    &&& after.config == before.config
    &&& after.config_hash == before.config_hash
}

/// The request that starts a device flow.
pub open spec fn start_request(client_id: Seq<char>) -> HttpRequestView {
    github::oauth_request(
        "https://github.com/login/device/code"@,
        seq![("client_id"@, client_id), ("scope"@, "read:org"@)],
    )
}

impl SupabasedService {
    fn count_request(&mut self, remote: Option<ClientAddr>, now: u128) -> (r: Result<(), Status>)
        requires
            old(self).wf(),
        ensures
            final(self).wf(),
            same_settings(*old(self), *final(self)),
            final(self).device_sessions == old(self).device_sessions,
            final(self).rate_limiter.known() == counted(
                old(self).rate_limiter.known(),
                remote,
                now,
            ),
            status::outcome(r) == if within_limit(old(self).rate_limiter.known(), remote, now) {
                Ok(())
            } else {
                Err(limit_exceeded())
            },
    {
        match remote {
            Some(addr) => self.rate_limiter.check_rate_limit(addr, now),
            None => Ok(()),
        }
    }

    /// A request of `remote` to log in. What GitHub is to be asked is the request that starts a
    /// device flow.
    pub fn start_github_device_auth(&mut self, remote: Option<ClientAddr>, now: u128) -> (r: Result<
        HttpRequest,
        Status,
    >)
        requires
            old(self).wf(),
        ensures
            final(self).wf(),
            same_settings(*old(self), *final(self)),
            final(self).rate_limiter.known() == counted(
                old(self).rate_limiter.known(),
                remote,
                now,
            ),
            if within_limit(old(self).rate_limiter.known(), remote, now) {
                &&& status::seen(r) == Ok::<HttpRequestView, StatusView>(
                    start_request(old(self).github_oauth_client_id@),
                )
                &&& final(self).device_sessions.known() == assoc::kept(
                    old(self).device_sessions.known(),
                    device_sessions::unexpired(now),
                )
            } else {
                &&& status::seen(r) == Err::<HttpRequestView, StatusView>(limit_exceeded())
                &&& final(self).device_sessions == old(self).device_sessions
            },
    {
        if let Err(status) = self.count_request(remote, now) {
            return Err(status);
        }
        self.device_sessions.prune_expired(now);
        Ok(start_device_auth(self.github_oauth_client_id.as_str(), "read:org"))
    }
}

/// What the user is told of a login that GitHub has started.
pub open spec fn login_told(
    response: StartGithubDeviceAuthResponse,
    id: Seq<char>,
    start: DeviceAuthStart,
) -> bool {
    &&& response.auth_session_id@ == id
    &&& response.user_code == start.user_code
    &&& response.verification_uri == start.verification_uri
    &&& response.expires_in == device_sessions::at_least_one(start.expires_in)
    &&& response.interval == start.interval
}

/// The login in progress that GitHub has started at `now`.
pub open spec fn login_begun(start: DeviceAuthStart, now: u128) -> DeviceSessionView {
    DeviceSessionView {
        device_code: start.device_code@,
        expires_at: device_sessions::deadline(now, start.expires_in) as u128,
        interval: start.interval,
    }
}

impl SupabasedService {
    /// GitHub has replied to the request that starts a device flow. The login is filed under a
    /// random identifier; nothing comes where the operating system's random source fails.
    pub fn github_device_auth_started(
        &mut self,
        reply: &HttpReply,
        parsed: Result<DeviceAuthStart, String>,
        now: u128,
    ) -> (r: Option<Result<StartGithubDeviceAuthResponse, Status>>)
        requires
            old(self).wf(),
            now <= LATEST_TIME,
        ensures
            final(self).wf(),
            same_settings(*old(self), *final(self)),
            final(self).rate_limiter == old(self).rate_limiter,
            match github::start_result(reply@, parsed) {
                Err(failure) => {
                    &&& r matches Some(Err(status))
                    &&& status@ == failure
                    &&& final(self).device_sessions == old(self).device_sessions
                },
                Ok(start) => match r {
                    Some(Ok(response)) => {
                        &&& response.auth_session_id@.len() == 64
                        &&& login_told(response, response.auth_session_id@, start)
                        &&& final(self).device_sessions.known()
                            == old(self).device_sessions.known().insert(
                            response.auth_session_id@,
                            login_begun(start, now),
                        )
                    },
                    Some(Err(_)) => false,
                    None => final(self).device_sessions == old(self).device_sessions,
                },
            },
    {
        let start = match started_device_auth(reply, parsed) {
            Ok(start) => start,
            Err(status) => {
                return Some(Err(status));
            },
        };
        match generate_auth_session_id() {
            Some(id) => Some(Ok(self.device_sessions.begin(id, start, now))),
            None => None,
        }
    }
}

/// A login in progress for which GitHub is to be asked where it stands.
#[derive(Clone, Debug)]
pub struct LoginToPoll {
    pub auth_session_id: String,
    pub interval: i64,
    pub request: HttpRequest,
}

pub struct LoginToPollView {
    pub auth_session_id: Seq<char>,
    pub interval: i64,
    pub request: HttpRequestView,
}

impl View for LoginToPoll {
    type V = LoginToPollView;

    open spec fn view(&self) -> LoginToPollView {
        LoginToPollView {
            auth_session_id: self.auth_session_id@,
            interval: self.interval,
            request: self.request@,
        }
    }
}

/// What a request to finish a login leads to.
pub open spec fn login_to_poll(
    client_id: Seq<char>,
    sessions: Map<Seq<char>, DeviceSessionView>,
    auth_session_id: Seq<char>,
    now: u128,
) -> Result<LoginToPollView, StatusView> {
    if auth_session_id.len() == 0 {
        Err(status::refusal(Code::InvalidArgument, "auth_session_id required"@))
    } else {
        match device_sessions::session_at(sessions, auth_session_id, now) {
            Err(failure) => Err(failure),
            Ok(session) => Ok(
                LoginToPollView {
                    auth_session_id,
                    interval: session.interval,
                    request: github::oauth_request(
                        "https://github.com/login/oauth/access_token"@,
                        github::poll_fields(client_id, session.device_code),
                    ),
                },
            ),
        }
    }
}

/// A login that its user has authorised; GitHub is to be asked who that is.
#[derive(Clone, Debug)]
pub struct UserToIdentify {
    pub auth_session_id: String,
    pub access_token: String,
    pub request: HttpRequest,
}

pub struct UserToIdentifyView {
    pub auth_session_id: Seq<char>,
    pub access_token: Seq<char>,
    pub request: HttpRequestView,
}

impl View for UserToIdentify {
    type V = UserToIdentifyView;

    open spec fn view(&self) -> UserToIdentifyView {
        UserToIdentifyView {
            auth_session_id: self.auth_session_id@,
            access_token: self.access_token@,
            request: self.request@,
        }
    }
}

/// Where a login stands once GitHub was asked.
#[derive(Clone, Debug)]
pub enum PolledLogin {
    Waiting(FinishGithubDeviceAuthResponse),
    Authorized(UserToIdentify),
}

/// Where a login stands, in view form.
pub enum PolledLoginView {
    Waiting(PendingView),
    Authorized(UserToIdentifyView),
}

/// The reply to a client that is to ask again after `interval` seconds, at least one.
pub open spec fn waiting(interval: i64) -> PendingView {
    PendingView {
        interval: device_sessions::at_least_one(interval),
        message: "Waiting for GitHub authorization"@,
    }
}

/// The reply to a client that is to ask again after `interval` seconds, at least one.
pub fn pending_response(interval: i64) -> (r: FinishGithubDeviceAuthResponse)
    ensures
        r.result matches Some(DeviceAuthResult::Pending(pending)) && pending@ == waiting(interval),
{
    let interval: i64 = if interval >= 1 {
        interval
    } else {
        1
    };
    FinishGithubDeviceAuthResponse {
        result: Some(
            DeviceAuthResult::Pending(
                GithubDeviceAuthPending {
                    interval,
                    message: "Waiting for GitHub authorization".to_string(),
                },
            ),
        ),
    }
}

/// The interval after which a client is to ask again, where GitHub says that it asks too
/// often: what GitHub says, or five seconds more than before.
pub open spec fn slower(login: LoginToPollView, interval: Option<i64>) -> i64 {
    match interval {
        Some(interval) => interval,
        None => (login.interval + 5) as i64,
    }
}

/// Where a login stands by GitHub's answer.
pub open spec fn polled_login(login: LoginToPollView, poll: DeviceAuthPoll) -> PolledLoginView {
    match poll {
        DeviceAuthPoll::Pending { interval } => PolledLoginView::Waiting(
            waiting(
                match interval {
                    Some(interval) => interval,
                    None => login.interval,
                },
            ),
        ),
        DeviceAuthPoll::SlowDown { interval } => PolledLoginView::Waiting(
            waiting(slower(login, interval)),
        ),
        DeviceAuthPoll::Complete { access_token, scope, token_type } => PolledLoginView::Authorized(
            UserToIdentifyView {
                auth_session_id: login.auth_session_id,
                access_token: access_token@,
                request: github::api_request(access_token@, "https://api.github.com/user"@, true),
            },
        ),
    }
}

/// The logins in progress after GitHub's answer for one of them: a login that has failed is
/// dropped, and one whose client asks too often is to be asked for less often.
pub open spec fn sessions_after_poll(
    sessions: Map<Seq<char>, DeviceSessionView>,
    login: LoginToPollView,
    poll: Result<DeviceAuthPoll, Status>,
) -> Map<Seq<char>, DeviceSessionView> {
    match poll {
        Err(_) => sessions.remove(login.auth_session_id),
        Ok(DeviceAuthPoll::SlowDown { interval }) => if sessions.contains_key(
            login.auth_session_id,
        ) {
            sessions.insert(
                login.auth_session_id,
                DeviceSessionView {
                    interval: slower(login, interval),
                    ..sessions[login.auth_session_id]
                },
            )
        } else {
            sessions
        },
        Ok(_) => sessions,
    }
}

impl SupabasedService {
    /// A request of `remote` to finish a login. GitHub is to be asked where it stands.
    pub fn finish_github_device_auth(
        &mut self,
        remote: Option<ClientAddr>,
        auth_session_id: &str,
        now: u128,
    ) -> (r: Result<LoginToPoll, Status>)
        requires
            old(self).wf(),
        ensures
            final(self).wf(),
            same_settings(*old(self), *final(self)),
            final(self).rate_limiter.known() == counted(
                old(self).rate_limiter.known(),
                remote,
                now,
            ),
            if within_limit(old(self).rate_limiter.known(), remote, now) {
                let polled = login_to_poll(
                    old(self).github_oauth_client_id@,
                    old(self).device_sessions.known(),
                    auth_session_id@,
                    now,
                );
                &&& status::seen(r) == polled
                &&& final(self).device_sessions.known() == if polled is Err
                    && auth_session_id@.len() > 0 {
                    old(self).device_sessions.known().remove(auth_session_id@)
                } else {
                    old(self).device_sessions.known()
                }
            } else {
                &&& status::seen(r) == Err::<LoginToPollView, StatusView>(limit_exceeded())
                &&& final(self).device_sessions == old(self).device_sessions
            },
    {
        if let Err(status) = self.count_request(remote, now) {
            return Err(status);
        }
        if auth_session_id.is_empty() {
            return Err(Status::new(Code::InvalidArgument, "auth_session_id required"));
        }
        match self.device_sessions.lookup(auth_session_id, now) {
            Err(status) => Err(status),
            Ok(session) => {
                let request = poll_device_auth(
                    self.github_oauth_client_id.as_str(),
                    session.device_code.as_str(),
                );
                Ok(
                    LoginToPoll {
                        auth_session_id: auth_session_id.to_string(),
                        interval: session.interval,
                        request,
                    },
                )
            },
        }
    }

    /// GitHub has said where a login stands, or has failed.
    pub fn login_polled(&mut self, login: LoginToPoll, poll: Result<DeviceAuthPoll, Status>) -> (r:
        Result<PolledLogin, Status>)
        requires
            old(self).wf(),
            poll matches Ok(DeviceAuthPoll::SlowDown { .. }) ==> login@.interval <= i64::MAX - 5,
        ensures
            final(self).wf(),
            same_settings(*old(self), *final(self)),
            final(self).rate_limiter == old(self).rate_limiter,
            final(self).device_sessions.known() == sessions_after_poll(
                old(self).device_sessions.known(),
                login@,
                poll,
            ),
            match poll {
                Err(failure) => r matches Err(status) && status@ == failure@,
                Ok(answer) => match polled_login(login@, answer) {
                    PolledLoginView::Waiting(told) => {
                        &&& r matches Ok(PolledLogin::Waiting(response))
                        &&& response.result matches Some(DeviceAuthResult::Pending(pending))
                        &&& pending@ == told
                    },
                    PolledLoginView::Authorized(user) => {
                        &&& r matches Ok(PolledLogin::Authorized(found))
                        &&& found@ == user
                    },
                },
            },
    {
        let id = login.auth_session_id.as_str();
        match poll {
            Err(status) => {
                self.device_sessions.remove(id);
                Err(status)
            },
            Ok(DeviceAuthPoll::Pending { interval }) => {
                let interval: i64 = match interval {
                    Some(interval) => interval,
                    None => login.interval,
                };
                Ok(PolledLogin::Waiting(pending_response(interval)))
            },
            Ok(DeviceAuthPoll::SlowDown { interval }) => {
                let interval: i64 = match interval {
                    Some(interval) => interval,
                    None => login.interval + 5,
                };
                self.device_sessions.update_interval(id, interval);
                Ok(PolledLogin::Waiting(pending_response(interval)))
            },
            Ok(DeviceAuthPoll::Complete { access_token, .. }) => {
                let request = validate_token(access_token.as_str());
                Ok(
                    PolledLogin::Authorized(
                        UserToIdentify {
                            auth_session_id: login.auth_session_id,
                            access_token,
                            request,
                        },
                    ),
                )
            },
        }
    }
}

/// A user of GitHub whose membership in the organisation is to be checked.
#[derive(Clone, Debug)]
pub struct MembershipToCheck {
    pub auth_session_id: String,
    pub login: String,
    pub request: HttpRequest,
}

pub struct MembershipToCheckView {
    pub auth_session_id: Seq<char>,
    pub login: Seq<char>,
    pub request: HttpRequestView,
}

impl View for MembershipToCheck {
    type V = MembershipToCheckView;

    open spec fn view(&self) -> MembershipToCheckView {
        MembershipToCheckView {
            auth_session_id: self.auth_session_id@,
            login: self.login@,
            request: self.request@,
        }
    }
}

/// What the answer who the user is leads to.
pub open spec fn membership_to_check(
    org: Seq<char>,
    user: UserToIdentifyView,
    reply: HttpReplyView,
    parsed: Result<GitHubUser, String>,
) -> Result<MembershipToCheckView, StatusView> {
    match github::user_result(reply, parsed) {
        Err(failure) => Err(failure),
        Ok(found) => Ok(
            MembershipToCheckView {
                auth_session_id: user.auth_session_id,
                login: found.login@,
                request: github::api_request(
                    user.access_token,
                    github::membership_address(org, found.login@),
                    false,
                ),
            },
        ),
    }
}

/// A member of the organisation, to whom tokens are to be given.
#[derive(Clone, Debug)]
pub struct MemberToAdmit {
    pub auth_session_id: String,
    pub identity: String,
    pub permissions: Vec<String>,
}

pub struct MemberToAdmitView {
    pub auth_session_id: Seq<char>,
    pub identity: Seq<char>,
    pub permissions: Seq<Seq<char>>,
}

impl View for MemberToAdmit {
    type V = MemberToAdmitView;

    open spec fn view(&self) -> MemberToAdmitView {
        MemberToAdmitView {
            auth_session_id: self.auth_session_id@,
            identity: self.identity@,
            permissions: text::texts(self.permissions@),
        }
    }
}

/// What the answer whether the user is a member leads to.
pub open spec fn member_to_admit(
    org: Seq<char>,
    user: MembershipToCheckView,
    reply: HttpReplyView,
) -> Result<MemberToAdmitView, StatusView> {
    match github::membership_result(org, user.login, reply) {
        Err(failure) => Err(failure),
        Ok(_) => Ok(
            MemberToAdmitView {
                auth_session_id: user.auth_session_id,
                identity: "github:"@ + user.login,
                permissions: auth::default_permission_texts(),
            },
        ),
    }
}

impl SupabasedService {
    /// GitHub has said whose access token it is, or has failed.
    pub fn user_identified(
        &self,
        user: UserToIdentify,
        reply: &HttpReply,
        parsed: Result<GitHubUser, String>,
    ) -> (r: Result<MembershipToCheck, Status>)
        ensures
            status::seen(r) == membership_to_check(self.github_org@, user@, reply@, parsed),
    {
        match validated_user(reply, parsed) {
            Err(status) => Err(status),
            Ok(found) => {
                let request = check_org_membership(
                    user.access_token.as_str(),
                    self.github_org.as_str(),
                    found.login.as_str(),
                );
                Ok(
                    MembershipToCheck {
                        auth_session_id: user.auth_session_id,
                        login: found.login,
                        request,
                    },
                )
            },
        }
    }

    /// GitHub has said whether the user is a member of the organisation, or has failed.
    pub fn membership_checked(&self, user: MembershipToCheck, reply: &HttpReply) -> (r: Result<
        MemberToAdmit,
        Status,
    >)
        ensures
            status::seen(r) == member_to_admit(self.github_org@, user@, reply@),
    {
        match org_membership(self.github_org.as_str(), user.login.as_str(), reply) {
            Err(status) => Err(status),
            Ok(()) => {
                let mut identity = "github:".to_string();
                identity.append(user.login.as_str());
                Ok(
                    MemberToAdmit {
                        auth_session_id: user.auth_session_id,
                        identity,
                        permissions: default_permissions(),
                    },
                )
            },
        }
    }
}

/// A session that is to be filed, and the tokens that its user is then given.
#[derive(Clone, Debug)]
pub struct SessionToRecord {
    pub response: AuthResponse,
    pub record: Statement,
}

pub struct SessionToRecordView {
    pub response: AuthResponseView,
    pub record: StatementView,
}

impl View for SessionToRecord {
    type V = SessionToRecordView;

    open spec fn view(&self) -> SessionToRecordView {
        SessionToRecordView {
            response: self.response@,
            record: self.record@,
        }
    }
}

/// The refusal where no session token could be made.
pub open spec fn no_token(error: Seq<char>) -> StatusView {
    status::refusal(Code::Internal, "token creation failed: "@ + error)
}

/// The tokens that a user is given at `now`.
pub open spec fn tokens(
    created: (String, i64),
    refresh: RefreshToken,
    identity: Seq<char>,
    permissions: Seq<Seq<char>>,
    now: i64,
) -> AuthResponseView {
    AuthResponseView {
        session_token: created.0@,
        identity,
        permissions,
        expires_at: created.1,
        refresh_token: refresh.token@,
        refresh_expires_at: (now + REFRESH_TOKEN_TTL_SECONDS) as i64,
    }
}

/// The session of a user to whom these tokens are given at `now`.
pub open spec fn session_to_record(
    created: Result<(String, i64), String>,
    refresh: RefreshToken,
    identity: Seq<char>,
    permissions: Seq<Seq<char>>,
    now: i64,
) -> Result<SessionToRecordView, StatusView> {
    match created {
        Err(error) => Err(no_token(error@)),
        Ok(token) => Ok(
            SessionToRecordView {
                response: tokens(token, refresh, identity, permissions, now),
                record: db::session_insert(
                    refresh.selector@,
                    refresh.token_hash@,
                    identity,
                    permissions,
                    now,
                    (now + REFRESH_TOKEN_TTL_SECONDS) as i64,
                ),
            },
        ),
    }
}

/// The session of a user to whom these tokens are given at `now`.
pub fn session_of(
    created: Result<(String, i64), String>,
    refresh: RefreshToken,
    identity: String,
    permissions: Vec<String>,
    now: i64,
) -> (r: Result<SessionToRecord, Status>)
    requires
        now + REFRESH_TOKEN_TTL_SECONDS <= i64::MAX,
    ensures
        status::seen(r) == session_to_record(
            created,
            refresh,
            identity@,
            text::texts(permissions@),
            now,
        ),
        r is Ok ==> db::filed_permissions_read_back(text::texts(permissions@)),
{
    let token = match created {
        Ok(token) => token,
        Err(error) => {
            return Err(
                Status::with_detail(Code::Internal, "token creation failed: ", error.as_str()),
            );
        },
    };
    let refresh_expires_at: i64 = now + REFRESH_TOKEN_TTL_SECONDS;
    let record = db::insert_refresh_session(
        refresh.selector.as_str(),
        refresh.token_hash.as_slice(),
        identity.as_str(),
        &permissions,
        now,
        refresh_expires_at,
    );
    let response = AuthResponse {
        session_token: token.0,
        identity,
        permissions,
        expires_at: token.1,
        refresh_token: refresh.token,
        refresh_expires_at,
    };
    Ok(SessionToRecord { response, record })
}

/// The time, where a session that begins then has an end that the clock can reach.
pub open spec fn session_start(now: Option<i64>) -> Option<i64> {
    match now {
        Some(now) => if now + REFRESH_TOKEN_TTL_SECONDS <= i64::MAX {
            Some(now)
        } else {
            None
        },
        None => None,
    }
}

/// The time, where a session that begins then has an end that the clock can reach.
pub fn session_start_at(now: Option<i64>) -> (r: Option<i64>)
    ensures
        r == session_start(now),
{
    match now {
        Some(now) => if now <= i64::MAX - REFRESH_TOKEN_TTL_SECONDS {
            Some(now)
        } else {
            None
        },
        None => None,
    }
}

/// The current time, where a session that begins now has an end that the clock can reach.
fn session_time() -> (r: Option<i64>)
    ensures
        r matches Some(now) ==> 0 <= now && now + REFRESH_TOKEN_TTL_SECONDS <= i64::MAX,
{
    session_start_at(now_unix())
}

/// The session of a user for whom a token was made or not, with a refresh token and a time to be
/// had or not: nothing where one of these is missing, unless no token was made, which is refused.
pub open spec fn issued_session(
    created: Result<(String, i64), String>,
    refresh: Option<RefreshToken>,
    identity: Seq<char>,
    permissions: Seq<Seq<char>>,
    now: Option<i64>,
) -> Option<Result<SessionToRecordView, StatusView>> {
    match (created, refresh, now) {
        (Err(error), _, _) => Some(Err(no_token(error@))),
        (Ok(_), Some(refresh), Some(now)) => Some(
            session_to_record(created, refresh, identity, permissions, now),
        ),
        _ => None,
    }
}

/// The session of a user for whom a token was made or not, with a refresh token and a time to be
/// had or not.
pub fn session_issued(
    created: Result<(String, i64), String>,
    refresh: Option<RefreshToken>,
    identity: String,
    permissions: Vec<String>,
    now: Option<i64>,
) -> (r: Option<Result<SessionToRecord, Status>>)
    requires
        now matches Some(now) ==> now + REFRESH_TOKEN_TTL_SECONDS <= i64::MAX,
    ensures
        status::seen_if_taken(r) == issued_session(
            created,
            refresh,
            identity@,
            text::texts(permissions@),
            now,
        ),
        r matches Some(Ok(_)) ==> db::filed_permissions_read_back(text::texts(permissions@)),
{
    match (created, refresh, now) {
        (Err(error), _, _) => Some(
            Err(Status::with_detail(Code::Internal, "token creation failed: ", error.as_str())),
        ),
        (Ok(token), Some(refresh), Some(now)) => Some(
            session_of(Ok(token), refresh, identity, permissions, now),
        ),
        _ => None,
    }
}

impl SupabasedService {
    /// The session of a user who is given tokens now; nothing where the clock or the operating
    /// system's random source fails. Whatever the token, the refresh token and the time turn out
    /// to be, the session is the one issued with them.
    pub fn issue_auth_response(&self, identity: String, permissions: Vec<String>) -> (r: Option<
        Result<SessionToRecord, Status>,
    >)
        ensures
            exists|
                created: Result<(String, i64), String>,
                refresh: Option<RefreshToken>,
                now: Option<i64>,
            |
                {
                    &&& auth::issued_now(
                        self.jwt_secret@,
                        identity@,
                        text::texts(permissions@),
                        created,
                    )
                    &&& refresh matches Some(token) ==> secrets::fresh_token(token)
                    &&& now matches Some(now) ==> 0 <= now <= i64::MAX - REFRESH_TOKEN_TTL_SECONDS
                    &&& status::seen_if_taken(r) == #[trigger] issued_session(
                        created,
                        refresh,
                        identity@,
                        text::texts(permissions@),
                        now,
                    )
                },
            r matches Some(Ok(_)) ==> db::filed_permissions_read_back(text::texts(permissions@)),
    {
        let created = create_token(
            self.jwt_secret.as_slice(),
            identity.as_str(),
            permissions.as_slice(),
        );
        let refresh = generate_refresh_token();
        let now = session_time();
        session_issued(created, refresh, identity, permissions, now)
    }

    /// The session of a login was filed, or the database has failed. The login is over once its
    /// session is filed.
    pub fn login_recorded(
        &mut self,
        auth_session_id: &str,
        session: SessionToRecord,
        recorded: Result<(), String>,
    ) -> (r: Result<FinishGithubDeviceAuthResponse, Status>)
        requires
            old(self).wf(),
        ensures
            final(self).wf(),
            same_settings(*old(self), *final(self)),
            final(self).rate_limiter == old(self).rate_limiter,
            match recorded {
                Err(error) => {
                    &&& r matches Err(status)
                    &&& status@ == status::refusal(
                        Code::Internal,
                        "failed to create refresh session: "@ + error@,
                    )
                    &&& final(self).device_sessions == old(self).device_sessions
                },
                Ok(()) => {
                    &&& r matches Ok(response)
                    &&& response.result matches Some(DeviceAuthResult::Auth(given))
                    &&& given@ == session@.response
                    &&& final(self).device_sessions.known()
                        == old(self).device_sessions.known().remove(auth_session_id@)
                },
            },
    {
        match recorded {
            Err(error) => Err(
                Status::with_detail(
                    Code::Internal,
                    "failed to create refresh session: ",
                    error.as_str(),
                ),
            ),
            Ok(()) => {
                self.device_sessions.remove(auth_session_id);
                Ok(
                    FinishGithubDeviceAuthResponse {
                        result: Some(DeviceAuthResult::Auth(session.response)),
                    },
                )
            },
        }
    }
}

/// A session that is to be refreshed, to be looked up by its selector.
#[derive(Clone, Debug)]
pub struct SessionToFind {
    pub selector: String,
    pub secret: String,
    pub lookup: Statement,
}

pub struct SessionToFindView {
    pub selector: Seq<char>,
    pub secret: Seq<char>,
    pub lookup: StatementView,
}

impl View for SessionToFind {
    type V = SessionToFindView;

    open spec fn view(&self) -> SessionToFindView {
        SessionToFindView {
            selector: self.selector@,
            secret: self.secret@,
            lookup: self.lookup@,
        }
    }
}

/// What a request to refresh a session leads to.
pub open spec fn session_to_find(refresh_token: Seq<char>) -> Result<SessionToFindView, StatusView> {
    match secrets::token_parts(refresh_token) {
        None => Err(secrets::invalid_refresh_token()),
        Some(parts) => Ok(
            SessionToFindView {
                selector: parts.0,
                secret: parts.1,
                lookup: db::statement(
                    db::SELECT_REFRESH_SESSION@,
                    seq![db::SqlView::Text(parts.0)],
                ),
            },
        ),
    }
}

/// The refusal of a session that is over.
pub open spec fn session_over() -> StatusView {
    status::refusal(
        Code::Unauthenticated,
        "refresh session expired — run `supabased login` again"@,
    )
}

/// A session that is good and to be replaced at `now`.
#[derive(Clone, Debug)]
pub struct SessionToRefresh {
    pub selector: String,
    pub identity: String,
    pub permissions: Vec<String>,
    pub now: i64,
}

pub struct SessionToRefreshView {
    pub selector: Seq<char>,
    pub identity: Seq<char>,
    pub permissions: Seq<Seq<char>>,
    pub now: i64,
}

impl View for SessionToRefresh {
    type V = SessionToRefreshView;

    open spec fn view(&self) -> SessionToRefreshView {
        SessionToRefreshView {
            selector: self.selector@,
            identity: self.identity@,
            permissions: text::texts(self.permissions@),
            now: self.now,
        }
    }
}

/// What the record of a session that is to be refreshed at `now` leads to.
pub open spec fn session_to_refresh(
    secret: Seq<char>,
    found: Result<Option<RefreshSessionRecord>, String>,
    now: i64,
) -> Result<SessionToRefreshView, StatusView> {
    match found {
        Err(error) => Err(service::database_failure(error@)),
        Ok(None) => Err(secrets::invalid_refresh_token()),
        Ok(Some(record)) => if record.revoked_at is Some || record.expires_at <= now {
            Err(session_over())
        } else if record.token_hash@ != secrets::secret_hash(secret) {
            Err(secrets::invalid_refresh_token())
        } else {
            match json::json_list_items(record.permissions_json@) {
                Err(error) => Err(
                    status::refusal(Code::Internal, "stored permissions are invalid: "@ + error),
                ),
                Ok(permissions) => Ok(
                    SessionToRefreshView {
                        selector: record.selector@,
                        identity: record.identity@,
                        permissions,
                        now,
                    },
                ),
            }
        },
    }
}

fn same_bytes(a: &Vec<u8>, b: &Vec<u8>) -> (r: bool)
    ensures
        r == (a@ == b@),
{
    if a.len() != b.len() {
        return false;
    }
    let mut i: usize = 0;
    while i < a.len()
        invariant
            i <= a.len(),
            a.len() == b.len(),
            forall|j: int| 0 <= j < i ==> a@[j] == b@[j],
        decreases a.len() - i,
    {
        if a[i] != b[i] {
            return false;
        }
        i += 1;
    }
    assert(a@ =~= b@);
    true
}

/// A session that is to be retired for a new one, and the tokens that its user is then given.
#[derive(Clone, Debug)]
pub struct SessionToRotate {
    pub response: AuthResponse,
    pub rotation: TwoSteps,
}

pub struct SessionToRotateView {
    pub response: AuthResponseView,
    pub rotation: TwoStepsView,
}

impl View for SessionToRotate {
    type V = SessionToRotateView;

    open spec fn view(&self) -> SessionToRotateView {
        SessionToRotateView {
            response: self.response@,
            rotation: self.rotation@,
        }
    }
}

/// The session that replaces the one to be refreshed.
pub open spec fn session_to_rotate(
    created: Result<(String, i64), String>,
    refresh: RefreshToken,
    session: SessionToRefreshView,
) -> Result<SessionToRotateView, StatusView> {
    match created {
        Err(error) => Err(no_token(error@)),
        Ok(token) => Ok(
            SessionToRotateView {
                response: tokens(
                    token,
                    refresh,
                    session.identity,
                    session.permissions,
                    session.now,
                ),
                rotation: TwoStepsView {
                    change: db::statement(
                        db::RETIRE_REFRESH_SESSION@,
                        seq![
                            db::SqlView::Integer(session.now),
                            db::SqlView::Text(session.selector),
                        ],
                    ),
                    follow: db::session_insert(
                        refresh.selector@,
                        refresh.token_hash@,
                        session.identity,
                        session.permissions,
                        session.now,
                        (session.now + REFRESH_TOKEN_TTL_SECONDS) as i64,
                    ),
                    in_transaction: true,
                },
            },
        ),
    }
}

/// The session that replaces the one to be refreshed.
pub fn rotation_of(
    created: Result<(String, i64), String>,
    refresh: RefreshToken,
    session: SessionToRefresh,
) -> (r: Result<SessionToRotate, Status>)
    requires
        session.now + REFRESH_TOKEN_TTL_SECONDS <= i64::MAX,
    ensures
        status::seen(r) == session_to_rotate(created, refresh, session@),
        r is Ok ==> db::filed_permissions_read_back(session@.permissions),
{
    let token = match created {
        Ok(token) => token,
        Err(error) => {
            return Err(
                Status::with_detail(Code::Internal, "token creation failed: ", error.as_str()),
            );
        },
    };
    let refresh_expires_at: i64 = session.now + REFRESH_TOKEN_TTL_SECONDS;
    let rotation = db::rotate_refresh_session(
        session.selector.as_str(),
        refresh.selector.as_str(),
        refresh.token_hash.as_slice(),
        session.identity.as_str(),
        &session.permissions,
        session.now,
        refresh_expires_at,
    );
    let response = AuthResponse {
        session_token: token.0,
        identity: session.identity,
        permissions: session.permissions,
        expires_at: token.1,
        refresh_token: refresh.token,
        refresh_expires_at,
    };
    Ok(SessionToRotate { response, rotation })
}

/// The session that replaces the one to be refreshed, where a token was made or not and a refresh
/// token is to be had or not: nothing without a refresh token, unless no token was made, which is
/// refused.
pub open spec fn replacing_session(
    created: Result<(String, i64), String>,
    refresh: Option<RefreshToken>,
    session: SessionToRefreshView,
) -> Option<Result<SessionToRotateView, StatusView>> {
    match (created, refresh) {
        (Err(error), _) => Some(Err(no_token(error@))),
        (Ok(_), Some(refresh)) => Some(session_to_rotate(created, refresh, session)),
        _ => None,
    }
}

/// The session that replaces the one to be refreshed, where a token was made or not and a refresh
/// token is to be had or not.
pub fn session_replaced(
    created: Result<(String, i64), String>,
    refresh: Option<RefreshToken>,
    session: SessionToRefresh,
) -> (r: Option<Result<SessionToRotate, Status>>)
    requires
        session.now + REFRESH_TOKEN_TTL_SECONDS <= i64::MAX,
    ensures
        status::seen_if_taken(r) == replacing_session(created, refresh, session@),
        r matches Some(Ok(_)) ==> db::filed_permissions_read_back(session@.permissions),
{
    match (created, refresh) {
        (Err(error), _) => Some(
            Err(Status::with_detail(Code::Internal, "token creation failed: ", error.as_str())),
        ),
        (Ok(token), Some(refresh)) => Some(rotation_of(Ok(token), refresh, session)),
        _ => None,
    }
}

impl SupabasedService {
    /// A request to refresh the session of a refresh token.
    pub fn refresh_session(&self, refresh_token: &str) -> (r: Result<SessionToFind, Status>)
        ensures
            status::seen(r) == session_to_find(refresh_token@),
    {
        match parse_refresh_token(refresh_token) {
            Err(status) => Err(status),
            Ok((selector, secret)) => {
                let lookup = db::get_refresh_session(selector.as_str());
                Ok(SessionToFind { selector, secret, lookup })
            },
        }
    }

    /// The database was asked for the session that is to be refreshed at `now`.
    pub fn session_found(
        &self,
        sought: SessionToFind,
        found: Result<Option<RefreshSessionRecord>, String>,
        now: i64,
    ) -> (r: Result<SessionToRefresh, Status>)
        ensures
            status::seen(r) == session_to_refresh(sought@.secret, found, now),
    {
        let record = match found {
            Err(error) => {
                return Err(database_error(error.as_str()));
            },
            Ok(None) => {
                return Err(Status::new(Code::Unauthenticated, "invalid refresh token"));
            },
            Ok(Some(record)) => record,
        };
        if record.revoked_at.is_some() || record.expires_at <= now {
            return Err(
                Status::new(
                    Code::Unauthenticated,
                    "refresh session expired — run `supabased login` again",
                ),
            );
        }
        if !same_bytes(&record.token_hash, &hash_refresh_secret(sought.secret.as_str())) {
            return Err(Status::new(Code::Unauthenticated, "invalid refresh token"));
        }
        match parse_json_list(record.permissions_json.as_str()) {
            Err(error) => Err(
                Status::with_detail(
                    Code::Internal,
                    "stored permissions are invalid: ",
                    error.as_str(),
                ),
            ),
            Ok(permissions) => Ok(
                SessionToRefresh {
                    selector: record.selector,
                    identity: record.identity,
                    permissions,
                    now,
                },
            ),
        }
    }

    /// The session that replaces the one to be refreshed; nothing where the operating system's
    /// random source fails. Whatever the token and the refresh token turn out to be, the session
    /// is the one replaced with them.
    pub fn session_refreshed(&self, session: SessionToRefresh) -> (r: Option<
        Result<SessionToRotate, Status>,
    >)
        requires
            session.now + REFRESH_TOKEN_TTL_SECONDS <= i64::MAX,
        ensures
            exists|created: Result<(String, i64), String>, refresh: Option<RefreshToken>|
                {
                    &&& auth::issued_now(
                        self.jwt_secret@,
                        session@.identity,
                        session@.permissions,
                        created,
                    )
                    &&& refresh matches Some(token) ==> secrets::fresh_token(token)
                    &&& status::seen_if_taken(r) == #[trigger] replacing_session(
                        created,
                        refresh,
                        session@,
                    )
                },
            r matches Some(Ok(_)) ==> db::filed_permissions_read_back(session@.permissions),
    {
        let created = create_token(
            self.jwt_secret.as_slice(),
            session.identity.as_str(),
            session.permissions.as_slice(),
        );
        let refresh = generate_refresh_token();
        session_replaced(created, refresh, session)
    }

    /// The session was replaced, or the database has failed.
    pub fn session_rotated(&self, rotated: SessionToRotate, done: Result<(), String>) -> (r: Result<
        AuthResponse,
        Status,
    >)
        ensures
            status::seen(r) == match done {
                Ok(()) => Ok(rotated@.response),
                Err(error) => Err(
                    status::refusal(
                        Code::Internal,
                        "failed to rotate refresh session: "@ + error@,
                    ),
                ),
            },
    {
        match done {
            Ok(()) => Ok(rotated.response),
            Err(error) => Err(
                Status::with_detail(
                    Code::Internal,
                    "failed to rotate refresh session: ",
                    error.as_str(),
                ),
            ),
        }
    }

    /// A request to revoke the session of a refresh token at `now`.
    pub fn logout(&self, refresh_token: &str, now: i64) -> (r: Result<Statement, Status>)
        ensures
            status::seen(r) == match secrets::token_parts(refresh_token@) {
                None => Err(secrets::invalid_refresh_token()),
                Some(parts) => Ok(
                    db::statement(
                        db::REVOKE_REFRESH_SESSION@,
                        seq![db::SqlView::Integer(now), db::SqlView::Text(parts.0)],
                    ),
                ),
            },
    {
        match parse_refresh_token(refresh_token) {
            Err(status) => Err(status),
            Ok((selector, _)) => Ok(db::revoke_refresh_session(selector.as_str(), now)),
        }
    }

    /// The session was revoked where there was a live one, or the database has failed. The value
    /// says whether there was one.
    pub fn logged_out(&self, rows: Result<usize, String>) -> (r: Result<bool, Status>)
        ensures
            status::outcome(r) == match rows {
                Ok(rows) => Ok(rows > 0),
                Err(error) => Err(service::database_failure(error@)),
            },
    {
        match rows {
            Ok(rows) => Ok(db::found_row(rows)),
            Err(error) => Err(database_error(error.as_str())),
        }
    }
}

/// Whether `record` is what the database holds of a session that was filed by this statement
/// and has not been revoked.
pub open spec fn filed_as(
    record: RefreshSessionRecord,
    selector: Seq<char>,
    token_hash: Seq<u8>,
    identity: Seq<char>,
    permissions: Seq<Seq<char>>,
    expires_at: i64,
) -> bool {
    &&& record.selector@ == selector
    &&& record.token_hash@ == token_hash
    &&& record.identity@ == identity
    &&& record.permissions_json@ == json::json_list_text(permissions)
    &&& record.expires_at == expires_at
    &&& record.revoked_at is None
}

/// A refresh token that a user was given is good until its session ends: it leads to the
/// session that was filed with it, and that session is refreshed for the same identity and
/// with the same permissions.
pub proof fn law_given_token_refreshes_its_session(
    refresh: RefreshToken,
    record: RefreshSessionRecord,
    identity: Seq<char>,
    permissions: Seq<Seq<char>>,
    expires_at: i64,
    now: i64,
)
    requires
        secrets::fresh_token(refresh),
        db::filed_permissions_read_back(permissions),
        filed_as(
            record,
            refresh.selector@,
            refresh.token_hash@,
            identity,
            permissions,
            expires_at,
        ),
        now < expires_at,
    ensures
        session_to_find(refresh.token@) matches Ok(sought) && sought.selector == refresh.selector@
            && session_to_refresh(sought.secret, Ok(Some(record)), now) == Ok::<
            SessionToRefreshView,
            StatusView,
        >(
            SessionToRefreshView { selector: refresh.selector@, identity, permissions, now },
        ),
{
    secrets::law_generated_token_parses(refresh);
}

/// A session that was revoked or has ended is not refreshed, and neither is one whose secret
/// has another digest than the one that is shown.
pub proof fn law_spent_session_is_refused(
    secret: Seq<char>,
    record: RefreshSessionRecord,
    now: i64,
)
    ensures
        record.revoked_at is Some ==> session_to_refresh(secret, Ok(Some(record)), now) == Err::<
            SessionToRefreshView,
            StatusView,
        >(session_over()),
        record.expires_at <= now ==> session_to_refresh(secret, Ok(Some(record)), now) == Err::<
            SessionToRefreshView,
            StatusView,
        >(session_over()),
        record.token_hash@ != secrets::secret_hash(secret) ==> session_to_refresh(
            secret,
            Ok(Some(record)),
            now,
        ) is Err,
{
}

/// A refreshed session is retired by the statement that is run first, and what replaces it is
/// for the same identity and with the same permissions, under the new token's selector.
pub proof fn law_refresh_replaces_the_session(
    token: (String, i64),
    refresh: RefreshToken,
    secret: Seq<char>,
    record: RefreshSessionRecord,
    now: i64,
)
    requires
        session_to_refresh(secret, Ok(Some(record)), now) is Ok,
    ensures
        ({
            let session = session_to_refresh(secret, Ok(Some(record)), now)->Ok_0;
            let rotated = session_to_rotate(Ok(token), refresh, session)->Ok_0;
            &&& rotated.rotation.change == db::statement(
                db::RETIRE_REFRESH_SESSION@,
                seq![db::SqlView::Integer(now), db::SqlView::Text(record.selector@)],
            )
            &&& rotated.rotation.follow.params[0] == db::SqlView::Text(refresh.selector@)
            &&& rotated.rotation.follow.params[2] == db::SqlView::Text(record.identity@)
            &&& rotated.response.identity == record.identity@
            &&& json::json_list_items(record.permissions_json@) == json::read_as(
                rotated.response.permissions,
            )
            &&& rotated.response.refresh_token == refresh.token@
        }),
{
}

/// The sessions of the database, by selector, once the one with this selector was retired at
/// `now` and another was filed.
pub open spec fn sessions_after_refresh(
    sessions: Map<Seq<char>, RefreshSessionRecord>,
    selector: Seq<char>,
    now: i64,
    filed: RefreshSessionRecord,
) -> Map<Seq<char>, RefreshSessionRecord> {
    let retired = RefreshSessionRecord { revoked_at: Some(now), ..sessions[selector] };
    sessions.insert(selector, retired).insert(filed.selector@, filed)
}

/// What a refresh token leads to at `now`, by the sessions of the database.
pub open spec fn refresh_at(
    sessions: Map<Seq<char>, RefreshSessionRecord>,
    refresh_token: Seq<char>,
    now: i64,
) -> Result<SessionToRefreshView, StatusView> {
    match session_to_find(refresh_token) {
        Err(failure) => Err(failure),
        Ok(sought) => session_to_refresh(
            sought.secret,
            Ok(
                if sessions.contains_key(sought.selector) {
                    Some(sessions[sought.selector])
                } else {
                    None
                },
            ),
            now,
        ),
    }
}

/// A refresh token works once. After a refresh with it, the token is refused at any time, and the
/// token that was given in its place is another one, which leads until its own end to the same
/// identity and the same permissions.
pub proof fn law_refresh_token_works_once(
    sessions: Map<Seq<char>, RefreshSessionRecord>,
    shown: Seq<char>,
    now: i64,
    token: (String, i64),
    refresh: RefreshToken,
    filed: RefreshSessionRecord,
    later: i64,
)
    requires
        forall|selector: Seq<char>|
            sessions.contains_key(selector) ==> (#[trigger] sessions[selector]).selector@
                == selector,
        refresh_at(sessions, shown, now) is Ok,
        now + REFRESH_TOKEN_TTL_SECONDS <= i64::MAX,
        secrets::fresh_token(refresh),
        !sessions.contains_key(refresh.selector@),
        db::filed_permissions_read_back(refresh_at(sessions, shown, now)->Ok_0.permissions),
        filed_as(
            filed,
            refresh.selector@,
            refresh.token_hash@,
            refresh_at(sessions, shown, now)->Ok_0.identity,
            refresh_at(sessions, shown, now)->Ok_0.permissions,
            (now + REFRESH_TOKEN_TTL_SECONDS) as i64,
        ),
    ensures
        ({
            let session = refresh_at(sessions, shown, now)->Ok_0;
            let after = sessions_after_refresh(sessions, session.selector, now, filed);
            let rotated = session_to_rotate(Ok(token), refresh, session);
            &&& rotated matches Ok(given)
            &&& given.rotation.in_transaction
            &&& given.rotation.change == db::statement(
                db::RETIRE_REFRESH_SESSION@,
                seq![db::SqlView::Integer(now), db::SqlView::Text(session.selector)],
            )
            &&& given.rotation.follow == db::session_insert(
                filed.selector@,
                filed.token_hash@,
                filed.identity@,
                session.permissions,
                now,
                filed.expires_at,
            )
            &&& given.response.refresh_token != shown
            &&& refresh_at(after, shown, later) == Err::<SessionToRefreshView, StatusView>(
                session_over(),
            )
            &&& later < given.response.refresh_expires_at ==> refresh_at(
                after,
                given.response.refresh_token,
                later,
            ) == Ok::<SessionToRefreshView, StatusView>(
                SessionToRefreshView {
                    selector: refresh.selector@,
                    identity: session.identity,
                    permissions: session.permissions,
                    now: later,
                },
            )
        }),
{
    let session = refresh_at(sessions, shown, now)->Ok_0;
    let after = sessions_after_refresh(sessions, session.selector, now, filed);
    let sought = session_to_find(shown)->Ok_0;
    assert(sessions[sought.selector].selector@ == sought.selector);
    assert(session.selector == sought.selector);
    secrets::law_generated_token_parses(refresh);
    assert(after[sought.selector].revoked_at is Some);
    if later < now + REFRESH_TOKEN_TTL_SECONDS {
        law_given_token_refreshes_its_session(
            refresh,
            filed,
            session.identity,
            session.permissions,
            (now + REFRESH_TOKEN_TTL_SECONDS) as i64,
            later,
        );
    }
}

/// Only a member of the organisation is admitted: GitHub has named the user for the access
/// token, and has answered that this user is a member.
pub proof fn law_only_members_are_admitted(
    org: Seq<char>,
    user: UserToIdentifyView,
    named: HttpReplyView,
    parsed: Result<GitHubUser, String>,
    member: HttpReplyView,
)
    requires
        membership_to_check(org, user, named, parsed) is Ok,
        member_to_admit(org, membership_to_check(org, user, named, parsed)->Ok_0, member) is Ok,
    ensures
        ({
            let asked = membership_to_check(org, user, named, parsed)->Ok_0;
            let admitted = member_to_admit(org, asked, member)->Ok_0;
            &&& parsed matches Ok(found)
            &&& admitted.identity == "github:"@ + found.login@
            &&& admitted.permissions == auth::default_permission_texts()
            &&& asked.request.url == github::membership_address(org, found.login@)
            &&& member matches HttpReplyView::Answered { status, .. }
            &&& status == 204
        }),
{
}

/// A login that has begun can be finished under its identifier until its time is over: GitHub is
/// then asked about the device code that it gave out.
pub proof fn law_begun_login_can_be_finished(
    client_id: Seq<char>,
    sessions: Map<Seq<char>, DeviceSessionView>,
    id: Seq<char>,
    start: DeviceAuthStart,
    begun: u128,
    now: u128,
)
    requires
        id.len() > 0,
        begun <= LATEST_TIME,
        now < device_sessions::deadline(begun, start.expires_in),
    ensures
        ({
            let known = sessions.insert(id, login_begun(start, begun));
            &&& login_to_poll(client_id, known, id, now) matches Ok(login)
            &&& login.auth_session_id == id
            &&& login.interval == start.interval
            &&& login.request == github::oauth_request(
                "https://github.com/login/oauth/access_token"@,
                github::poll_fields(client_id, start.device_code@),
            )
        }),
{
}

/// GitHub's answer for one login leaves the other logins as they are, and drops its own exactly
/// where GitHub has failed or refused it.
pub proof fn law_poll_concerns_one_login(
    sessions: Map<Seq<char>, DeviceSessionView>,
    login: LoginToPollView,
    poll: Result<DeviceAuthPoll, Status>,
    other: Seq<char>,
)
    requires
        sessions.contains_key(login.auth_session_id),
    ensures
        ({
            let after = sessions_after_poll(sessions, login, poll);
            &&& after.contains_key(login.auth_session_id) <==> poll is Ok
            &&& other != login.auth_session_id ==> after.contains_key(other)
                == sessions.contains_key(other)
            &&& other != login.auth_session_id && sessions.contains_key(other) ==> after[other]
                == sessions[other]
        }),
{
}

/// A client that is to wait is never told to ask again at once.
pub proof fn law_clients_wait_at_least_a_second(interval: i64)
    ensures
        waiting(interval).interval >= 1,
        interval >= 1 ==> waiting(interval).interval == interval,
{
}

} // verus!

//! What a login, a refresh and a logout do, whatever GitHub and the database answer.

use vstd::prelude::*;

use crate::auth::Claims;
use crate::db::{RefreshSessionRecord, Statement};
use crate::fields::{
    answered, blob_at, integer_at, refuses, says, succeeded, text_at, to_device_flow, to_github,
};
use crate::github::{
    DeviceAuthError, DeviceAuthPoll, DeviceAuthPollSuccess, DeviceAuthStart, GitHubUser,
};
use crate::http::{HttpBody, HttpMethod, HttpReply, HttpRequest};
use crate::login::{
    LoginToPoll, MemberToAdmit, MembershipToCheck, PolledLogin, SessionToFind, SessionToRecord,
    SessionToRefresh, SessionToRotate, UserToIdentify,
};
use crate::messages::{
    AuthResponse, DeviceAuthResult, FinishGithubDeviceAuthResponse, StartGithubDeviceAuthResponse,
};
use crate::rate_limit::{ClientAddr, RateLimiter};
use crate::secrets::RefreshToken;
use crate::service::SupabasedService;
use crate::status::{Code, Status};
use crate::{auth, db, fields, github, http, json, login, rate_limit, secrets, status, text};

verus! {

proof fn lemma_to_github(request: HttpRequest, token: Seq<char>)
    requires
        http::pairs(request.headers@) == github::api_headers(token),
        request.body@ == http::HttpBodyView::Empty,
        request.timeout_seconds == 30,
    ensures
        to_github(request, token),
{
    assert(http::pairs(request.headers@).len() == request.headers@.len());
    fields::lemma_says(request.headers@, 0);
    fields::lemma_says(request.headers@, 1);
    fields::lemma_says(request.headers@, 2);
}

proof fn lemma_to_device_flow(request: HttpRequest)
    requires
        http::pairs(request.headers@) == github::oauth_headers(),
        request.follow_redirects,
        request.timeout_seconds == 30,
    ensures
        to_device_flow(request),
{
    assert(http::pairs(request.headers@).len() == request.headers@.len());
    fields::lemma_says(request.headers@, 0);
    fields::lemma_says(request.headers@, 1);
}

/// Whether the request asks GitHub to start a device flow of the app, with the scope that
/// lets its organisations be read.
pub open spec fn starts_device_flow(request: HttpRequest, client_id: Seq<char>) -> bool {
    &&& request.method == HttpMethod::Post
    &&& request.url@ == "https://github.com/login/device/code"@
    &&& to_device_flow(request)
    &&& request.body matches HttpBody::Form(form)
    &&& form@.len() == 2
    &&& says(form@, 0, "client_id"@, client_id)
    &&& says(form@, 1, "scope"@, "read:org"@)
}

/// Whether the request asks GitHub where the app's device flow with this code stands.
pub open spec fn polls_device_flow(
    request: HttpRequest,
    client_id: Seq<char>,
    device_code: Seq<char>,
) -> bool {
    &&& request.method == HttpMethod::Post
    &&& request.url@ == "https://github.com/login/oauth/access_token"@
    &&& to_device_flow(request)
    &&& request.body matches HttpBody::Form(form)
    &&& form@.len() == 3
    &&& says(form@, 0, "client_id"@, client_id)
    &&& says(form@, 1, "device_code"@, device_code)
    &&& says(form@, 2, "grant_type"@, "urn:ietf:params:oauth:grant-type:device_code"@)
}

/// Whether the request asks GitHub whose access token this is.
pub open spec fn asks_whose(request: HttpRequest, access_token: Seq<char>) -> bool {
    &&& request.method == HttpMethod::Get
    &&& request.url@ == "https://api.github.com/user"@
    &&& to_github(request, access_token)
    &&& request.follow_redirects
}

/// Whether the request asks GitHub, with this access token, whether the user is a member of the
/// organisation.
pub open spec fn asks_membership(
    request: HttpRequest,
    access_token: Seq<char>,
    org: Seq<char>,
    user: Seq<char>,
) -> bool {
    &&& request.method == HttpMethod::Get
    &&& request.url@ == "https://api.github.com/orgs/"@ + org + "/members/"@ + user
    &&& to_github(request, access_token)
    &&& !request.follow_redirects
}

/// A request for the owner of a token bears that token.
pub proof fn law_owner_is_asked_for_with_the_token(token: &str, r: HttpRequest)
    requires
        call_ensures(github::validate_token, (token,), r),
    ensures
        asks_whose(r, token@),
{
    assert(r@.headers == http::pairs(r.headers@) && r@.body == r.body@);
    lemma_to_github(r, token@);
}

/// A request for a membership names the organisation and the user, and bears the token.
pub proof fn law_membership_is_asked_for_with_the_token(
    token: &str,
    org: &str,
    user: &str,
    r: HttpRequest,
)
    requires
        call_ensures(github::check_org_membership, (token, org, user), r),
    ensures
        asks_membership(r, token@, org@, user@),
{
    assert(r@.headers == http::pairs(r.headers@) && r@.body == r.body@);
    lemma_to_github(r, token@);
}

proof fn lemma_form(request: HttpRequest, fields: Seq<(Seq<char>, Seq<char>)>)
    requires
        request.body@ == http::HttpBodyView::Form(fields),
    ensures
        request.body matches HttpBody::Form(form) && form@.len() == fields.len() && forall|i: int|
            0 <= i < fields.len() ==> #[trigger] form@[i].0@ == fields[i].0 && form@[i].1@
                == fields[i].1,
{
    if let HttpBody::Form(form) = request.body {
        let views = http::pairs(form@);
        assert(views == fields);
        assert(views.len() == form@.len());
        assert forall|i: int| 0 <= i < fields.len() implies #[trigger] form@[i].0@ == fields[i].0
            && form@[i].1@ == fields[i].1 by {
            fields::lemma_says(form@, i);
        }
    }
}

/// A request that starts a device flow names the app and the scope.
pub proof fn law_device_flow_is_started_with_the_scope(
    client_id: &str,
    scope: &str,
    r: HttpRequest,
)
    requires
        call_ensures(github::start_device_auth, (client_id, scope), r),
    ensures
        r.method == HttpMethod::Post,
        r.url@ == "https://github.com/login/device/code"@,
        to_device_flow(r),
        r.body matches HttpBody::Form(form) && form@.len() == 2 && says(
            form@,
            0,
            "client_id"@,
            client_id@,
        ) && says(form@, 1, "scope"@, scope@),
{
    assert(r@.headers == http::pairs(r.headers@) && r@.body == r.body@);
    lemma_to_device_flow(r);
    lemma_form(r, seq![("client_id"@, client_id@), ("scope"@, scope@)]);
    assert(r.body->Form_0@[0].0@ == "client_id"@);
    assert(r.body->Form_0@[1].0@ == "scope"@);
}

/// A request for the state of a device flow names the app and the code.
pub proof fn law_device_flow_is_polled_with_its_code(
    client_id: &str,
    device_code: &str,
    r: HttpRequest,
)
    requires
        call_ensures(github::poll_device_auth, (client_id, device_code), r),
    ensures
        polls_device_flow(r, client_id@, device_code@),
{
    assert(r@.headers == http::pairs(r.headers@) && r@.body == r.body@);
    lemma_to_device_flow(r);
    lemma_form(r, github::poll_fields(client_id@, device_code@));
    assert(r.body->Form_0@[0].0@ == "client_id"@);
    assert(r.body->Form_0@[1].0@ == "device_code"@);
    assert(r.body->Form_0@[2].0@ == "grant_type"@);
}

/// Whether the server is the one that it was, but for the logins in progress and the requests that
/// it has counted.
pub open spec fn is_same_server(before: SupabasedService, after: SupabasedService) -> bool {
    &&& after.jwt_secret@ == before.jwt_secret@
    &&& after.github_org@ == before.github_org@
    &&& after.github_oauth_client_id@ == before.github_oauth_client_id@
    &&& after.supabase_client == before.supabase_client
    &&& after.config == before.config
    &&& after.config_hash@ == before.config_hash@
}

/// A login begins with a device flow of the server's app, unless its address asks too often.
pub proof fn law_login_begins_with_a_device_flow(
    service: &mut SupabasedService,
    remote: Option<ClientAddr>,
    now: u128,
    r: Result<HttpRequest, Status>,
)
    requires
        old(service).wf(),
        call_ensures(SupabasedService::start_github_device_auth, (service, remote, now), r),
    ensures
        is_same_server(*old(service), *final(service)),
        r is Err ==> final(service).device_sessions.known() == old(service).device_sessions.known(),
        remote is None ==> final(service).rate_limiter.known() == old(service).rate_limiter.known(),
        forall|id: Seq<char>| #[trigger]
            final(service).device_sessions.known().contains_key(id) ==> final(
                service).device_sessions.known()[id] == old(service).device_sessions.known()[id],
        r matches Ok(request) ==> starts_device_flow(
            request,
            old(service).github_oauth_client_id@,
        ),
        r is Err ==> refuses(r, Code::ResourceExhausted, "rate limit exceeded, try again later"@),
        remote is None ==> r is Ok,
        r is Ok ==> forall|id: Seq<char>|
            #[trigger] final(service).device_sessions.known().contains_key(id) <==> old(service).device_sessions.known().contains_key(id) && old(service).device_sessions.known()[id].expires_at > now,
{
    if let Ok(request) = r {
        let client_id = old(service).github_oauth_client_id@;
        assert(request@.headers == http::pairs(request.headers@));
        assert(request@.body == request.body@);
        lemma_to_device_flow(request);
        lemma_form(request, seq![("client_id"@, client_id), ("scope"@, "read:org"@)]);
        assert(request.body->Form_0@[0].0@ == "client_id"@);
        assert(request.body->Form_0@[1].0@ == "scope"@);
    }
}

/// The number of seconds, but no less than one.
pub open spec fn no_less_than_one(seconds: i64) -> i64 {
    if seconds >= 1 {
        seconds
    } else {
        1
    }
}

/// A device flow that GitHub has started is told to the user with its user code, its address,
/// its time and its interval; its device code is kept, until that time is over.
pub proof fn law_started_login_is_told_and_kept(
    service: &mut SupabasedService,
    reply: HttpReply,
    start: DeviceAuthStart,
    now: u128,
    told: StartGithubDeviceAuthResponse,
)
    requires
        old(service).wf(),
        now <= login::LATEST_TIME,
        call_ensures(
            SupabasedService::github_device_auth_started,
            (service, &reply, Ok(start), now),
            Some(Ok(told)),
        ),
    ensures
        is_same_server(*old(service), *final(service)),
        final(service).rate_limiter.known() == old(service).rate_limiter.known(),
        told.auth_session_id@.len() == 64,
        forall|other: Seq<char>|
            other != told.auth_session_id@ ==> (#[trigger] final(
                service).device_sessions.known().contains_key(other) <==> old(
                service).device_sessions.known().contains_key(other)),
        forall|other: Seq<char>|
            other != told.auth_session_id@ && #[trigger] old(
                service).device_sessions.known().contains_key(other) ==> final(
                service).device_sessions.known()[other] == old(
                service).device_sessions.known()[other],
        succeeded(reply),
        told.user_code@ == start.user_code@,
        told.verification_uri@ == start.verification_uri@,
        told.expires_in == no_less_than_one(start.expires_in),
        told.interval == start.interval,
        ({
            let kept = final(service).device_sessions.known();
            &&& kept.contains_key(told.auth_session_id@)
            &&& kept[told.auth_session_id@].device_code == start.device_code@
            &&& kept[told.auth_session_id@].interval == start.interval
            &&& kept[told.auth_session_id@].expires_at == now + no_less_than_one(start.expires_in)
                * 1_000_000_000
        }),
{
}

/// A device flow that GitHub has not started is told as it came.
pub proof fn law_failed_start_is_told(
    service: &mut SupabasedService,
    reply: HttpReply,
    parsed: Result<DeviceAuthStart, String>,
    now: u128,
    r: Option<Result<StartGithubDeviceAuthResponse, Status>>,
)
    requires
        old(service).wf(),
        now <= login::LATEST_TIME,
        call_ensures(
            SupabasedService::github_device_auth_started,
            (service, &reply, parsed, now),
            r,
        ),
    ensures
        is_same_server(*old(service), *final(service)),
        final(service).rate_limiter.known() == old(service).rate_limiter.known(),
        r matches Some(Err(_)) <==> !(succeeded(reply) && parsed is Ok),
        r matches Some(Err(failure)) ==> {
            let refused = Err::<StartGithubDeviceAuthResponse, Status>(failure);
            &&& match reply {
                HttpReply::NotBuilt(error) => refuses(
                    refused,
                    Code::Internal,
                    "failed to build GitHub HTTP client: "@ + error@,
                ),
                HttpReply::NotSent(error) => refuses(
                    refused,
                    Code::Unavailable,
                    "GitHub OAuth request failed: "@ + error@,
                ),
                HttpReply::Answered { status, status_text, body } => if 200 <= status <= 299 {
                    parsed matches Err(error) && refuses(
                        refused,
                        Code::Internal,
                        "failed to parse GitHub OAuth response: "@ + error@,
                    )
                } else {
                    refuses(
                        refused,
                        Code::Internal,
                        "GitHub OAuth device-code endpoint"@ + " returned "@ + status_text@ + ": "@
                            + body@,
                    )
                },
            }
            &&& final(service).device_sessions.known() == old(service).device_sessions.known()
        },
{
}

/// A login that is kept is polled with its own device code while its time is not over; GitHub is
/// asked for no other.
pub proof fn law_kept_login_is_polled_with_its_code(
    service: &mut SupabasedService,
    remote: Option<ClientAddr>,
    auth_session_id: &str,
    now: u128,
    r: Result<LoginToPoll, Status>,
)
    requires
        old(service).wf(),
        remote matches Some(addr) ==> !has_used_up(old(service).rate_limiter.known(), addr, now),
        call_ensures(
            SupabasedService::finish_github_device_auth,
            (service, remote, auth_session_id, now),
            r,
        ),
    ensures
        is_same_server(*old(service), *final(service)),
        remote is None ==> final(service).rate_limiter.known() == old(service).rate_limiter.known(),
        forall|other: Seq<char>|
            other != auth_session_id@ ==> (#[trigger] final(
                service).device_sessions.known().contains_key(other) <==> old(
                service).device_sessions.known().contains_key(other)),
        forall|other: Seq<char>| #[trigger]
            final(service).device_sessions.known().contains_key(other) ==> final(
                service).device_sessions.known()[other] == old(
                service).device_sessions.known()[other],
        r is Ok ==> final(service).device_sessions.known().contains_key(auth_session_id@),
        ({
            let kept = old(service).device_sessions.known();
            let id = auth_session_id@;
            &&& id.len() == 0 ==> refuses(
                r,
                Code::InvalidArgument,
                "auth_session_id required"@,
            )
            &&& id.len() > 0 && !kept.contains_key(id) ==> refuses(
                r,
                Code::NotFound,
                "unknown GitHub OAuth session"@,
            )
            &&& id.len() > 0 && kept.contains_key(id) && kept[id].expires_at <= now ==> refuses(
                r,
                Code::DeadlineExceeded,
                "GitHub OAuth device authorization expired"@,
            ) && !final(service).device_sessions.known().contains_key(id)
            &&& id.len() > 0 && kept.contains_key(id) && kept[id].expires_at > now ==> (
            r matches Ok(polled) && {
                &&& polled.auth_session_id@ == id
                &&& polled.interval == kept[id].interval
                &&& polls_device_flow(
                    polled.request,
                    old(service).github_oauth_client_id@,
                    kept[id].device_code,
                )
            })
        }),
{
    if let Ok(polled) = r {
        let code = old(service).device_sessions.known()[auth_session_id@].device_code;
        assert(polled@.request == polled.request@);
        assert(polled@.request.headers == http::pairs(polled.request.headers@));
        assert(polled@.request.body == polled.request.body@);
        lemma_to_device_flow(polled.request);
        lemma_form(
            polled.request,
            github::poll_fields(old(service).github_oauth_client_id@, code),
        );
        assert(polled.request.body->Form_0@[0].0@ == "client_id"@);
        assert(polled.request.body->Form_0@[1].0@ == "device_code"@);
        assert(polled.request.body->Form_0@[2].0@ == "grant_type"@);
    }
}

/// From whichever address a login is finished, it is polled with its own device code.
pub proof fn law_polled_login_is_the_one_asked_for(
    service: &mut SupabasedService,
    remote: Option<ClientAddr>,
    auth_session_id: &str,
    now: u128,
    polled: LoginToPoll,
)
    requires
        old(service).wf(),
        call_ensures(
            SupabasedService::finish_github_device_auth,
            (service, remote, auth_session_id, now),
            Ok(polled),
        ),
    ensures
        ({
            let kept = old(service).device_sessions.known();
            let id = auth_session_id@;
            &&& kept.contains_key(id)
            &&& kept[id].expires_at > now
            &&& polled.auth_session_id@ == id
            &&& polled.interval == kept[id].interval
            &&& polls_device_flow(
                polled.request,
                old(service).github_oauth_client_id@,
                kept[id].device_code,
            )
        }),
{
    let code = old(service).device_sessions.known()[auth_session_id@].device_code;
    assert(polled@.request == polled.request@);
    assert(polled@.request.headers == http::pairs(polled.request.headers@));
    assert(polled@.request.body == polled.request.body@);
    lemma_to_device_flow(polled.request);
    lemma_form(
        polled.request,
        github::poll_fields(old(service).github_oauth_client_id@, code),
    );
    assert(polled.request.body->Form_0@[0].0@ == "client_id"@);
    assert(polled.request.body->Form_0@[1].0@ == "device_code"@);
    assert(polled.request.body->Form_0@[2].0@ == "grant_type"@);
}

/// What GitHub's answer to a poll says: the token that it hands out, or the error that it names.
pub proof fn law_poll_is_read_as_answered(
    reply: HttpReply,
    success: Option<DeviceAuthPollSuccess>,
    error: Result<DeviceAuthError, String>,
    r: Result<DeviceAuthPoll, Status>,
)
    requires
        call_ensures(github::polled_device_auth, (&reply, success, error), r),
    ensures
        match reply {
            HttpReply::NotBuilt(error) => refuses(
                r,
                Code::Internal,
                "failed to build GitHub HTTP client: "@ + error@,
            ),
            HttpReply::NotSent(error) => refuses(
                r,
                Code::Unavailable,
                "GitHub OAuth request failed: "@ + error@,
            ),
            HttpReply::Answered { status, status_text, body } => 200 <= status <= 299 || refuses(
                r,
                Code::Internal,
                "GitHub OAuth token endpoint"@ + " returned "@ + status_text@ + ": "@ + body@,
            ),
        },
        succeeded(reply) ==> (success matches Some(token) ==> (r matches Ok(
            DeviceAuthPoll::Complete { access_token, scope, token_type },
        ) && access_token@ == token.access_token@ && scope@ == token.scope@ && token_type@
            == token.token_type@)),
        succeeded(reply) && success is None ==> (error matches Err(message) ==> refuses(
            r,
            Code::Internal,
            "failed to parse GitHub OAuth response: "@ + message@,
        )),
        succeeded(reply) && success is None ==> (error matches Ok(named) ==> {
            let kind = named.error@;
            &&& kind == "authorization_pending"@ ==> (r matches Ok(
                DeviceAuthPoll::Pending { interval },
            ) && interval == named.interval)
            &&& kind == "slow_down"@ && kind != "authorization_pending"@ ==> (r matches Ok(
                DeviceAuthPoll::SlowDown { interval },
            ) && interval == named.interval)
            &&& kind != "slow_down"@ && kind != "authorization_pending"@ ==> (r matches Err(status)
                && status.code == (if kind == "expired_token"@ {
                Code::DeadlineExceeded
            } else if kind == "access_denied"@ {
                Code::PermissionDenied
            } else if kind == "device_flow_disabled"@ {
                Code::FailedPrecondition
            } else {
                Code::Internal
            }) && status.message@ == (if kind == "expired_token"@ {
                "GitHub OAuth device code expired"@
            } else if kind == "access_denied"@ {
                "GitHub OAuth authorization was denied"@
            } else if kind == "device_flow_disabled"@ {
                "GitHub OAuth device flow is disabled for this app"@
            } else {
                "GitHub OAuth returned error '"@ + kind + "'"@
            }) + (match named.error_description {
                Some(description) => if description@.len() > 0 {
                    ": "@ + description@
                } else {
                    Seq::empty()
                },
                None => Seq::empty(),
            }))
        }),
{
    if let Ok(named) = error {
        let nothing = Seq::<char>::empty();
        assert forall|prefix: Seq<char>| #[trigger]
            github::oauth_error_text(prefix, named) == prefix + (match named.error_description {
                Some(description) => if description@.len() > 0 {
                    ": "@ + description@
                } else {
                    Seq::empty()
                },
                None => Seq::empty(),
            }) by {
            assert(prefix + nothing =~= prefix);
            if let Some(description) = named.error_description {
                assert(prefix + ": "@ + description@ =~= prefix + (": "@ + description@));
            }
        }
    }
}

/// A description that GitHub gives of an error is told behind what it is.
pub proof fn law_error_is_told_with_its_description(
    prefix: &str,
    error: DeviceAuthError,
    r: String,
)
    requires
        call_ensures(github::github_oauth_error_message, (prefix, &error), r),
    ensures
        error.error_description is None ==> r@ == prefix@,
        error.error_description matches Some(description) ==> r@ == if description@.len() == 0 {
            prefix@
        } else {
            prefix@ + ": "@ + description@
        },
{
}

/// A login that GitHub has completed goes on with the access token that GitHub has handed out;
/// one that is pending is to be asked for again.
pub proof fn law_completed_login_goes_on_with_its_token(
    service: &mut SupabasedService,
    polled: LoginToPoll,
    poll: Result<DeviceAuthPoll, Status>,
    r: Result<PolledLogin, Status>,
)
    requires
        old(service).wf(),
        poll matches Ok(DeviceAuthPoll::SlowDown { .. }) ==> polled.interval <= i64::MAX - 5,
        call_ensures(SupabasedService::login_polled, (service, polled, poll), r),
    ensures
        is_same_server(*old(service), *final(service)),
        final(service).rate_limiter.known() == old(service).rate_limiter.known(),
        poll matches Err(failure) ==> refuses(r, failure.code, failure.message@) && !final(service).device_sessions.known().contains_key(polled.auth_session_id@),
        poll matches Ok(DeviceAuthPoll::Complete { access_token, .. }) ==> (r matches Ok(
            PolledLogin::Authorized(user),
        ) && {
            &&& user.auth_session_id@ == polled.auth_session_id@
            &&& user.access_token@ == access_token@
            &&& asks_whose(user.request, access_token@)
        }),
        poll matches Ok(DeviceAuthPoll::Pending { interval }) ==> (r matches Ok(
            PolledLogin::Waiting(response),
        ) && (response.result matches Some(DeviceAuthResult::Pending(pending)) && {
            &&& pending.message@ == "Waiting for GitHub authorization"@
            &&& pending.interval == no_less_than_one(
                match interval {
                    Some(interval) => interval,
                    None => polled.interval,
                },
            )
        })),
        poll matches Ok(DeviceAuthPoll::SlowDown { interval }) ==> (r matches Ok(
            PolledLogin::Waiting(response),
        ) && (response.result matches Some(DeviceAuthResult::Pending(pending)) && ({
            let slower = match interval {
                Some(interval) => interval as int,
                None => polled.interval + 5,
            };
            let id = polled.auth_session_id@;
            let before = old(service).device_sessions.known();
            let after = final(service).device_sessions.known();
            &&& pending.message@ == "Waiting for GitHub authorization"@
            &&& pending.interval == if slower >= 1 {
                slower
            } else {
                1
            }
            &&& before.contains_key(id) ==> after.contains_key(id) && after[id].interval == slower
                && after[id].device_code == before[id].device_code && after[id].expires_at
                == before[id].expires_at
        }))),
        forall|other: Seq<char>| #[trigger]
            final(service).device_sessions.known().contains_key(other) ==> old(service).device_sessions.known().contains_key(other),
        forall|other: Seq<char>| #[trigger]
            old(service).device_sessions.known().contains_key(other) && other
                != polled.auth_session_id@ ==> final(service).device_sessions.known().contains_key(
                other,
            ) && final(service).device_sessions.known()[other] == old(service).device_sessions.known()[other],
{
    if let Ok(PolledLogin::Authorized(user)) = r {
        assert(user@.request == user.request@);
        assert(user@.request.headers == http::pairs(user.request.headers@));
        assert(user@.request.body == user.request.body@);
        lemma_to_github(user.request, user.access_token@);
    }
}

/// A user whom GitHub has named is looked for among the members of the organisation with the
/// access token by which they were named; a failure of GitHub is told as it came.
pub proof fn law_identified_user_is_looked_for_with_their_token(
    service: SupabasedService,
    user: UserToIdentify,
    reply: HttpReply,
    parsed: Result<GitHubUser, String>,
    r: Result<MembershipToCheck, Status>,
)
    requires
        call_ensures(SupabasedService::user_identified, (&service, user, &reply, parsed), r),
    ensures
        r is Ok <==> succeeded(reply) && parsed is Ok,
        r matches Ok(sought) ==> {
            &&& sought.auth_session_id@ == user.auth_session_id@
            &&& sought.login@ == parsed->Ok_0.login@
            &&& asks_membership(
                sought.request,
                user.access_token@,
                service.github_org@,
                parsed->Ok_0.login@,
            )
        },
        match reply {
            HttpReply::NotBuilt(error) => refuses(
                r,
                Code::Internal,
                "failed to build GitHub HTTP client: "@ + error@,
            ),
            HttpReply::NotSent(error) => refuses(
                r,
                Code::Unavailable,
                "GitHub API request failed: "@ + error@,
            ),
            HttpReply::Answered { status, status_text, body } => if status == 401 {
                refuses(
                    r,
                    Code::Unauthenticated,
                    "invalid GitHub OAuth token -- authorization may have been revoked or expired"@,
                )
            } else if 200 <= status <= 299 {
                parsed matches Err(error) ==> refuses(
                    r,
                    Code::Internal,
                    "failed to parse GitHub response: "@ + error@,
                )
            } else {
                refuses(
                    r,
                    Code::Internal,
                    "GitHub API"@ + " returned "@ + status_text@ + ": "@ + body@,
                )
            },
        },
{
    if let Ok(sought) = r {
        assert(sought@.request == sought.request@);
        assert(sought@.request.headers == http::pairs(sought.request.headers@));
        assert(sought@.request.body == sought.request.body@);
        lemma_to_github(sought.request, user.access_token@);
    }
}

/// The access token that GitHub has handed out in the poll that completed a login is the one by
/// which the user is named and the one with which their membership is asked for.
pub proof fn law_one_token_carries_a_login(
    service: &mut SupabasedService,
    polled: LoginToPoll,
    access_token: String,
    scope: String,
    token_type: String,
    user: UserToIdentify,
    asked: SupabasedService,
    reply: HttpReply,
    parsed: Result<GitHubUser, String>,
    sought: MembershipToCheck,
)
    requires
        old(service).wf(),
        call_ensures(
            SupabasedService::login_polled,
            (service, polled, Ok(DeviceAuthPoll::Complete { access_token, scope, token_type })),
            Ok(PolledLogin::Authorized(user)),
        ),
        call_ensures(SupabasedService::user_identified, (&asked, user, &reply, parsed), Ok(sought)),
    ensures
        says(user.request.headers@, 0, "Authorization"@, "Bearer "@ + access_token@),
        says(sought.request.headers@, 0, "Authorization"@, "Bearer "@ + access_token@),
        sought.auth_session_id@ == polled.auth_session_id@,
{
    assert(user@.request == user.request@);
    assert(user@.request.headers == http::pairs(user.request.headers@));
    assert(user@.request.body == user.request.body@);
    lemma_to_github(user.request, access_token@);
    law_identified_user_is_looked_for_with_their_token(asked, user, reply, parsed, Ok(sought));
}

/// A user is admitted exactly where GitHub answers that they are a member; they are admitted
/// under their login, with what every member may do.
pub proof fn law_member_is_admitted_under_their_login(
    service: SupabasedService,
    user: MembershipToCheck,
    reply: HttpReply,
    r: Result<MemberToAdmit, Status>,
)
    requires
        call_ensures(SupabasedService::membership_checked, (&service, user, &reply), r),
    ensures
        r is Ok <==> answered(reply, 204),
        r matches Ok(member) ==> {
            let permissions = member.permissions@;
            &&& member.auth_session_id@ == user.auth_session_id@
            &&& member.identity@ == "github:"@ + user.login@
            &&& permissions.len() == 8
            &&& permissions[0]@ == "branches.create"@
            &&& permissions[1]@ == "branches.list"@
            &&& permissions[2]@ == "branches.delete_own"@
            &&& permissions[3]@ == "branches.get_credentials_own"@
            &&& permissions[4]@ == "demo.save"@
            &&& permissions[5]@ == "demo.list"@
            &&& permissions[6]@ == "demo.delete_own"@
            &&& permissions[7]@ == "info.read"@
        },
        answered(reply, 404) ==> refuses(
            r,
            Code::PermissionDenied,
            "user '"@ + user.login@ + "' is not a member of the '"@ + service.github_org@
                + "' GitHub organization"@,
        ),
        answered(reply, 302) ==> refuses(
            r,
            Code::PermissionDenied,
            "org membership check failed -- ensure your GitHub token has the 'read:org' scope"@,
        ),
        reply matches HttpReply::NotBuilt(error) ==> refuses(
            r,
            Code::Internal,
            "failed to build HTTP client: "@ + error@,
        ),
        reply matches HttpReply::NotSent(error) ==> refuses(
            r,
            Code::Unavailable,
            "GitHub API request failed: "@ + error@,
        ),
        reply matches HttpReply::Answered { status, status_text, body } ==> status != 204 && status
            != 404 && status != 302 ==> refuses(
            r,
            Code::Internal,
            "GitHub org membership API"@ + " returned "@ + status_text@ + ": "@ + body@,
        ),
{
    if let Ok(member) = r {
        let views = text::texts(member.permissions@);
        assert(member@.permissions == views);
        assert(views.len() == member.permissions@.len());
        assert(views[0] == member.permissions@[0]@ && views[1] == member.permissions@[1]@);
        assert(views[2] == member.permissions@[2]@ && views[3] == member.permissions@[3]@);
        assert(views[4] == member.permissions@[4]@ && views[5] == member.permissions@[5]@);
        assert(views[6] == member.permissions@[6]@ && views[7] == member.permissions@[7]@);
    }
}

/// Whether the two lists hold the same texts in the same order.
pub open spec fn same_texts(a: Seq<String>, b: Seq<String>) -> bool {
    &&& a.len() == b.len()
    &&& forall|i: int| 0 <= i < a.len() ==> (#[trigger] a[i])@ == b[i]@
}

proof fn lemma_same_texts(a: Seq<String>, b: Seq<String>)
    requires
        text::texts(a) == text::texts(b),
    ensures
        same_texts(a, b),
{
    assert(text::texts(a).len() == a.len() && text::texts(b).len() == b.len());
    assert forall|i: int| 0 <= i < a.len() implies (#[trigger] a[i])@ == b[i]@ by {
        assert(text::texts(a)[i] == a[i]@);
        assert(text::texts(b)[i] == b[i]@);
    }
}

/// Whether the statement files a session of this user from `now` on for thirty days, under the
/// selector of the refresh token and with the digest of its secret.
pub open spec fn files_session(
    statement: Statement,
    refresh: RefreshToken,
    identity: Seq<char>,
    permissions: Seq<String>,
    now: i64,
) -> bool {
    &&& statement.sql@
        == "INSERT INTO refresh_sessions (selector, token_hash, identity, permissions_json, created_at, expires_at) VALUES (?1, ?2, ?3, ?4, ?5, ?6)"@
    &&& statement.params@.len() == 6
    &&& text_at(statement, 0, refresh.selector@)
    &&& blob_at(statement, 1, refresh.token_hash@)
    &&& text_at(statement, 2, identity)
    &&& text_at(statement, 3, json::json_list_text(text::texts(permissions)))
    &&& integer_at(statement, 4, now)
    &&& integer_at(statement, 5, (now + 2_592_000) as i64)
}

proof fn lemma_files_session(
    statement: Statement,
    refresh: RefreshToken,
    identity: Seq<char>,
    permissions: Seq<String>,
    now: i64,
)
    requires
        statement@ == db::session_insert(
            refresh.selector@,
            refresh.token_hash@,
            identity,
            text::texts(permissions),
            now,
            (now + login::REFRESH_TOKEN_TTL_SECONDS) as i64,
        ),
    ensures
        files_session(statement, refresh, identity, permissions, now),
{
    assert(statement@.params.len() == statement.params@.len());
    fields::lemma_param(statement, 0);
    fields::lemma_param(statement, 1);
    fields::lemma_param(statement, 2);
    fields::lemma_param(statement, 3);
    fields::lemma_param(statement, 4);
    fields::lemma_param(statement, 5);
}

/// Whether the user is given these tokens, under their identity and with their permissions.
pub open spec fn gives(
    response: AuthResponse,
    token: (String, i64),
    refresh: RefreshToken,
    identity: Seq<char>,
    permissions: Seq<String>,
    now: i64,
) -> bool {
    &&& response.session_token@ == token.0@
    &&& response.expires_at == token.1
    &&& response.identity@ == identity
    &&& same_texts(response.permissions@, permissions)
    &&& response.refresh_token@ == refresh.token@
    &&& response.refresh_expires_at == now + 2_592_000
}

/// A session gives its user the tokens that were made, and is filed with the refresh token among
/// them.
pub proof fn law_session_gives_the_tokens_it_files(
    token: (String, i64),
    refresh: RefreshToken,
    identity: String,
    permissions: Vec<String>,
    now: i64,
    r: Result<SessionToRecord, Status>,
)
    requires
        now + 2_592_000 <= i64::MAX,
        call_ensures(login::session_of, (Ok(token), refresh, identity, permissions, now), r),
    ensures
        r matches Ok(session) && gives(
            session.response,
            token,
            refresh,
            identity@,
            permissions@,
            now,
        ) && files_session(session.record, refresh, identity@, permissions@, now),
{
    let session = r->Ok_0;
    assert(session@.record == session.record@ && session@.response == session.response@);
    lemma_files_session(session.record, refresh, identity@, permissions@, now);
    lemma_same_texts(session.response.permissions@, permissions@);
}

/// Without a token nothing is given and nothing is filed.
pub proof fn law_no_token_no_session(
    error: String,
    refresh: RefreshToken,
    identity: String,
    permissions: Vec<String>,
    now: i64,
    r: Result<SessionToRecord, Status>,
)
    requires
        now + 2_592_000 <= i64::MAX,
        call_ensures(login::session_of, (Err(error), refresh, identity, permissions, now), r),
    ensures
        refuses(r, Code::Internal, "token creation failed: "@ + error@),
{
}

/// Whether the token is made for this user under the secret: what it carries is their identity,
/// the role of a developer, their permissions, and eight hours up to the time that goes with it.
pub open spec fn is_made_for(
    token: Seq<char>,
    expires_at: i64,
    secret: Seq<u8>,
    identity: Seq<char>,
    permissions: Seq<Seq<char>>,
) -> bool {
    auth::jwt_claims(secret, token) matches Ok(claims) && {
        &&& claims.sub == identity
        &&& claims.role == "developer"@
        &&& claims.permissions == permissions
        &&& claims.exp == expires_at
        &&& claims.iat == expires_at - 28_800
    }
}

/// Whether the refresh token is made of the selector and a secret with this digest.
pub open spec fn is_split_into(
    token: Seq<char>,
    selector: Seq<char>,
    secret: Seq<char>,
    digest: Seq<u8>,
) -> bool {
    &&& token == selector + "."@ + secret
    &&& digest == secrets::sha256(vstd::utf8::encode_utf8(secret))
    &&& selector.len() == 32
    &&& secret.len() == 64
}

/// A session that is issued gives its user a session token made for them under the server's
/// secret, and a refresh token under whose selector and with the digest of whose secret it is
/// filed, as theirs, until that token expires.
pub proof fn law_issued_session_is_the_users(
    service: SupabasedService,
    identity: String,
    permissions: Vec<String>,
    session: SessionToRecord,
) -> (found: (Seq<char>, Seq<char>, Seq<u8>))
    requires
        call_ensures(
            SupabasedService::issue_auth_response,
            (&service, identity, permissions),
            Some(Ok(session)),
        ),
    ensures
        session.response.identity@ == identity@,
        same_texts(session.response.permissions@, permissions@),
        is_made_for(
            session.response.session_token@,
            session.response.expires_at,
            service.jwt_secret@,
            identity@,
            text::texts(permissions@),
        ),
        is_split_into(session.response.refresh_token@, found.0, found.1, found.2),
        session.record.sql@
            == "INSERT INTO refresh_sessions (selector, token_hash, identity, permissions_json, created_at, expires_at) VALUES (?1, ?2, ?3, ?4, ?5, ?6)"@,
        text_at(session.record, 0, found.0),
        blob_at(session.record, 1, found.2),
        text_at(session.record, 2, identity@),
        text_at(session.record, 3, json::json_list_text(text::texts(permissions@))),
        integer_at(session.record, 4, (session.response.refresh_expires_at - 2_592_000) as i64),
        integer_at(session.record, 5, session.response.refresh_expires_at),
{
    let r = Some(Ok::<SessionToRecord, Status>(session));
    let (created, refresh, now) = choose|
        created: Result<(String, i64), String>,
        refresh: Option<RefreshToken>,
        now: Option<i64>,
    |
        {
            &&& auth::issued_now(
                service.jwt_secret@,
                identity@,
                text::texts(permissions@),
                created,
            )
            &&& refresh matches Some(token) ==> secrets::fresh_token(token)
            &&& now matches Some(now) ==> 0 <= now <= i64::MAX - login::REFRESH_TOKEN_TTL_SECONDS
            &&& status::seen_if_taken(r) == #[trigger] login::issued_session(
                created,
                refresh,
                identity@,
                text::texts(permissions@),
                now,
            )
        };
    assert(status::seen_if_taken(r) == Some(status::seen(Ok::<SessionToRecord, Status>(session))));
    assert(session@.record == session.record@ && session@.response == session.response@);
    assert(created is Ok && refresh is Some && now is Some);
    let token = refresh->0;
    let secret = lemma_fresh(token);
    lemma_files_session(session.record, token, identity@, permissions@, now->0);
    lemma_same_texts(session.response.permissions@, permissions@);
    assert(session.response.refresh_expires_at == now->0 + 2_592_000);
    (token.selector@, secret, token.token_hash@)
}

pub proof fn lemma_fresh(token: RefreshToken) -> (secret: Seq<char>)
    requires
        secrets::fresh_token(token),
    ensures
        is_split_into(token.token@, token.selector@, secret, token.token_hash@),
{
    let secret = choose|secret: Seq<char>|
        {
            &&& #[trigger] secrets::refresh_token_text(token.selector@, secret) == token.token@
            &&& token.token_hash@ == secrets::secret_hash(secret)
            &&& token.selector@.len() == 32
            &&& secret.len() == 64
            &&& forall|i: int| 0 <= i < 32 ==> secrets::hex_digit(#[trigger] token.selector@[i])
            &&& forall|i: int| 0 <= i < 64 ==> secrets::hex_digit(#[trigger] secret[i])
        };
    secret
}

/// A login whose session is filed is over, and its user is given the tokens of that session; a
/// login whose session could not be filed is told that.
pub proof fn law_filed_login_is_over(
    service: &mut SupabasedService,
    auth_session_id: &str,
    session: SessionToRecord,
    recorded: Result<(), String>,
    r: Result<FinishGithubDeviceAuthResponse, Status>,
)
    requires
        old(service).wf(),
        call_ensures(
            SupabasedService::login_recorded,
            (service, auth_session_id, session, recorded),
            r,
        ),
    ensures
        is_same_server(*old(service), *final(service)),
        final(service).rate_limiter.known() == old(service).rate_limiter.known(),
        recorded matches Err(error) ==> refuses(
            r,
            Code::Internal,
            "failed to create refresh session: "@ + error@,
        ) && final(service).device_sessions.known() == old(service).device_sessions.known(),
        recorded is Ok ==> (r matches Ok(response) && (response.result matches Some(
            DeviceAuthResult::Auth(given),
        ) && {
            &&& given.session_token@ == session.response.session_token@
            &&& given.identity@ == session.response.identity@
            &&& same_texts(given.permissions@, session.response.permissions@)
            &&& given.expires_at == session.response.expires_at
            &&& given.refresh_token@ == session.response.refresh_token@
            &&& given.refresh_expires_at == session.response.refresh_expires_at
            &&& !final(service).device_sessions.known().contains_key(auth_session_id@)
            &&& forall|other: Seq<char>|
                other != auth_session_id@ ==> (#[trigger] final(service).device_sessions.known().contains_key(other) <==> old(service).device_sessions.known().contains_key(other))
        })),
{
    assert(session@.response == session.response@);
    if let Ok(response) = r {
        if let Some(DeviceAuthResult::Auth(given)) = response.result {
            lemma_same_texts(given.permissions@, session.response.permissions@);
        }
    }
}

/// Whether the token is `selector`, a dot, and `secret`, where neither is empty and the dot is
/// the first.
pub open spec fn is_token_of(token: Seq<char>, selector: Seq<char>, secret: Seq<char>) -> bool {
    &&& selector.len() > 0
    &&& secret.len() > 0
    &&& !selector.contains('.')
    &&& token == selector + seq!['.'] + secret
}

pub proof fn lemma_token_parts(token: Seq<char>, selector: Seq<char>, secret: Seq<char>)
    ensures
        is_token_of(token, selector, secret) ==> secrets::token_parts(token) == Some(
            (selector, secret),
        ),
        secrets::token_parts(token) matches Some(parts) ==> is_token_of(token, parts.0, parts.1),
{
    reveal_strlit(".");
    if is_token_of(token, selector, secret) {
        assert("."@ =~= seq!['.']);
        assert(token == secrets::refresh_token_text(selector, secret));
        secrets::law_refresh_token_parses(selector, secret);
    }
    if let Some(parts) = secrets::token_parts(token) {
        token.index_of_first_ensures('.');
        let dot = token.index_of_first('.').unwrap();
        assert(token =~= parts.0 + seq!['.'] + parts.1);
        if parts.0.contains('.') {
            let i = choose|i: int| 0 <= i < parts.0.len() && parts.0[i] == '.';
            assert(token[i] == '.');
        }
    }
}

/// A refresh token is looked up under its selector, with its secret kept for later; one that is
/// no such token is refused.
pub proof fn law_session_is_looked_up_by_its_selector(
    service: SupabasedService,
    refresh_token: &str,
    selector: Seq<char>,
    secret: Seq<char>,
    r: Result<SessionToFind, Status>,
)
    requires
        call_ensures(SupabasedService::refresh_session, (&service, refresh_token), r),
    ensures
        is_token_of(refresh_token@, selector, secret) ==> (r matches Ok(sought) && {
            &&& sought.selector@ == selector
            &&& sought.secret@ == secret
            &&& sought.lookup.sql@
                == "SELECT selector, token_hash, identity, permissions_json, expires_at, revoked_at FROM refresh_sessions WHERE selector = ?1"@
            &&& sought.lookup.params@.len() == 1
            &&& text_at(sought.lookup, 0, selector)
        }),
        r matches Ok(sought) ==> is_token_of(refresh_token@, sought.selector@, sought.secret@),
        r is Err ==> refuses(r, Code::Unauthenticated, "invalid refresh token"@),
{
    lemma_token_parts(refresh_token@, selector, secret);
    if let Ok(sought) = r {
        assert(sought@.lookup == sought.lookup@);
        assert(sought@.lookup.params.len() == sought.lookup.params@.len());
        fields::lemma_param(sought.lookup, 0);
    }
}

/// A session is to be refreshed exactly where it is filed, neither revoked nor over, with the
/// digest of the secret that was sent and permissions that can be read; it goes on under the
/// identity and with the permissions that are filed.
pub proof fn law_filed_session_is_what_is_refreshed(
    service: SupabasedService,
    sought: SessionToFind,
    found: Result<Option<RefreshSessionRecord>, String>,
    now: i64,
    r: Result<SessionToRefresh, Status>,
)
    requires
        call_ensures(SupabasedService::session_found, (&service, sought, found, now), r),
    ensures
        found matches Err(error) ==> refuses(r, Code::Internal, "database error: "@ + error@),
        found matches Ok(None) ==> refuses(r, Code::Unauthenticated, "invalid refresh token"@),
        found matches Ok(Some(record)) ==> {
            let good = record.token_hash@ == secrets::sha256(
                vstd::utf8::encode_utf8(sought.secret@),
            );
            let over = record.revoked_at is Some || record.expires_at <= now;
            &&& over ==> refuses(
                r,
                Code::Unauthenticated,
                "refresh session expired — run `supabased login` again"@,
            )
            &&& !over && !good ==> refuses(r, Code::Unauthenticated, "invalid refresh token"@)
            &&& !over && good ==> match json::json_list_items(record.permissions_json@) {
                Ok(permissions) => r matches Ok(session) && {
                    &&& session.selector@ == record.selector@
                    &&& session.identity@ == record.identity@
                    &&& text::texts(session.permissions@) == permissions
                    &&& session.now == now
                },
                Err(error) => refuses(
                    r,
                    Code::Internal,
                    "stored permissions are invalid: "@ + error,
                ),
            }
        },
{
}

/// Whether the statement retires the live session with this selector at `now`.
pub open spec fn retires_session(statement: Statement, selector: Seq<char>, now: i64) -> bool {
    &&& statement.sql@
        == "UPDATE refresh_sessions SET revoked_at = ?1, last_used_at = ?1 WHERE selector = ?2 AND revoked_at IS NULL"@
    &&& statement.params@.len() == 2
    &&& integer_at(statement, 0, now)
    &&& text_at(statement, 1, selector)
}

/// A session that is refreshed is retired and the new one is filed, both or neither; its user is
/// given the tokens of the new one, under the identity and with the permissions of the old.
pub proof fn law_refresh_retires_the_old_and_files_the_new(
    token: (String, i64),
    refresh: RefreshToken,
    session: SessionToRefresh,
    r: Result<SessionToRotate, Status>,
)
    requires
        session.now + 2_592_000 <= i64::MAX,
        call_ensures(login::rotation_of, (Ok(token), refresh, session), r),
    ensures
        r matches Ok(rotated) && {
            &&& gives(
                rotated.response,
                token,
                refresh,
                session.identity@,
                session.permissions@,
                session.now,
            )
            &&& retires_session(rotated.rotation.change, session.selector@, session.now)
            &&& files_session(
                rotated.rotation.follow,
                refresh,
                session.identity@,
                session.permissions@,
                session.now,
            )
            &&& rotated.rotation.in_transaction
        },
{
    let rotated = r->Ok_0;
    lemma_rotated(token, refresh, session, rotated);
}

proof fn lemma_rotated(
    token: (String, i64),
    refresh: RefreshToken,
    session: SessionToRefresh,
    rotated: SessionToRotate,
)
    requires
        session.now + 2_592_000 <= i64::MAX,
        login::session_to_rotate(Ok(token), refresh, session@) == Ok::<
            login::SessionToRotateView,
            status::StatusView,
        >(rotated@),
    ensures
        gives(
            rotated.response,
            token,
            refresh,
            session.identity@,
            session.permissions@,
            session.now,
        ),
        retires_session(rotated.rotation.change, session.selector@, session.now),
        files_session(
            rotated.rotation.follow,
            refresh,
            session.identity@,
            session.permissions@,
            session.now,
        ),
        rotated.rotation.in_transaction,
{
    assert(rotated@.rotation == rotated.rotation@ && rotated@.response == rotated.response@);
    assert(rotated@.rotation.change == rotated.rotation.change@);
    assert(rotated@.rotation.follow == rotated.rotation.follow@);
    lemma_files_session(
        rotated.rotation.follow,
        refresh,
        session.identity@,
        session.permissions@,
        session.now,
    );
    lemma_same_texts(rotated.response.permissions@, session.permissions@);
    let change = rotated.rotation.change;
    assert(change@.params.len() == change.params@.len());
    fields::lemma_param(change, 0);
    fields::lemma_param(change, 1);
}

/// A refresh gives its user a session token made for the identity and the permissions of the
/// session under the server's secret, retires that session, and files the one whose refresh token
/// it gives.
pub proof fn law_refreshed_session_is_the_users(
    service: SupabasedService,
    session: SessionToRefresh,
    rotated: SessionToRotate,
) -> (found: (Seq<char>, Seq<char>, Seq<u8>))
    requires
        session.now + 2_592_000 <= i64::MAX,
        call_ensures(
            SupabasedService::session_refreshed,
            (&service, session),
            Some(Ok(rotated)),
        ),
    ensures
        rotated.response.identity@ == session.identity@,
        same_texts(rotated.response.permissions@, session.permissions@),
        is_made_for(
            rotated.response.session_token@,
            rotated.response.expires_at,
            service.jwt_secret@,
            session.identity@,
            text::texts(session.permissions@),
        ),
        rotated.response.refresh_expires_at == session.now + 2_592_000,
        is_split_into(rotated.response.refresh_token@, found.0, found.1, found.2),
        retires_session(rotated.rotation.change, session.selector@, session.now),
        text_at(rotated.rotation.follow, 0, found.0),
        blob_at(rotated.rotation.follow, 1, found.2),
        text_at(rotated.rotation.follow, 2, session.identity@),
        integer_at(rotated.rotation.follow, 5, rotated.response.refresh_expires_at),
        rotated.rotation.in_transaction,
{
    let r = Some(Ok::<SessionToRotate, Status>(rotated));
    let (created, refresh) = choose|
        created: Result<(String, i64), String>,
        refresh: Option<RefreshToken>,
    |
        {
            &&& auth::issued_now(
                service.jwt_secret@,
                session@.identity,
                session@.permissions,
                created,
            )
            &&& refresh matches Some(token) ==> secrets::fresh_token(token)
            &&& status::seen_if_taken(r) == #[trigger] login::replacing_session(
                created,
                refresh,
                session@,
            )
        };
    assert(status::seen_if_taken(r) == Some(status::seen(Ok::<SessionToRotate, Status>(rotated))));
    assert(created is Ok && refresh is Some);
    let token = refresh->0;
    let secret = lemma_fresh(token);
    lemma_rotated(created->Ok_0, token, session, rotated);
    (token.selector@, secret, token.token_hash@)
}

/// Once the session is replaced, its user is given the tokens of the new one.
pub proof fn law_replaced_session_is_given(
    service: SupabasedService,
    rotated: SessionToRotate,
    done: Result<(), String>,
    r: Result<AuthResponse, Status>,
)
    requires
        call_ensures(SupabasedService::session_rotated, (&service, rotated, done), r),
    ensures
        done matches Err(error) ==> refuses(
            r,
            Code::Internal,
            "failed to rotate refresh session: "@ + error@,
        ),
        done is Ok ==> (r matches Ok(given) && {
            &&& given.session_token@ == rotated.response.session_token@
            &&& given.identity@ == rotated.response.identity@
            &&& same_texts(given.permissions@, rotated.response.permissions@)
            &&& given.expires_at == rotated.response.expires_at
            &&& given.refresh_token@ == rotated.response.refresh_token@
            &&& given.refresh_expires_at == rotated.response.refresh_expires_at
        }),
{
    assert(rotated@.response == rotated.response@);
    if let Ok(given) = r {
        lemma_same_texts(given.permissions@, rotated.response.permissions@);
    }
}

/// A logout revokes the live session with the selector of the refresh token at `now`.
pub proof fn law_logout_revokes_by_the_selector(
    service: SupabasedService,
    refresh_token: &str,
    now: i64,
    selector: Seq<char>,
    secret: Seq<char>,
    r: Result<Statement, Status>,
)
    requires
        call_ensures(SupabasedService::logout, (&service, refresh_token, now), r),
    ensures
        is_token_of(refresh_token@, selector, secret) ==> (r matches Ok(revoke) && {
            &&& revoke.sql@
                == "UPDATE refresh_sessions SET revoked_at = ?1 WHERE selector = ?2 AND revoked_at IS NULL"@
            &&& revoke.params@.len() == 2
            &&& integer_at(revoke, 0, now)
            &&& text_at(revoke, 1, selector)
        }),
        r is Ok ==> exists|a: Seq<char>, b: Seq<char>| is_token_of(refresh_token@, a, b),
        r is Err ==> refuses(r, Code::Unauthenticated, "invalid refresh token"@),
{
    lemma_token_parts(refresh_token@, selector, secret);
    if let Ok(revoke) = r {
        assert(revoke@.params.len() == revoke.params@.len());
        fields::lemma_param(revoke, 0);
        fields::lemma_param(revoke, 1);
        let parts = secrets::token_parts(refresh_token@)->0;
        assert(is_token_of(refresh_token@, parts.0, parts.1));
    }
}

/// Whoever logs out is told whether there was a live session.
pub proof fn law_logout_tells_whether_there_was_a_session(
    service: SupabasedService,
    rows: Result<usize, String>,
    r: Result<bool, Status>,
)
    requires
        call_ensures(SupabasedService::logged_out, (&service, rows), r),
    ensures
        rows matches Ok(n) ==> (r matches Ok(revoked) && revoked == (n > 0)),
        rows matches Err(error) ==> refuses(r, Code::Internal, "database error: "@ + error@),
{
}

/// Whether the address has used up its five requests of the minute that began with the first of
/// them.
pub open spec fn has_used_up(
    known: Map<ClientAddr, rate_limit::Entry>,
    addr: ClientAddr,
    now: u128,
) -> bool {
    &&& known.contains_key(addr)
    &&& known[addr].count >= 5
    &&& now < known[addr].window_start + 60_000_000_000
}

/// Whether one more request of the address is counted: in the minute that is running, or as the
/// first of a new one.
pub open spec fn counts_one_more(
    before: Map<ClientAddr, rate_limit::Entry>,
    after: Map<ClientAddr, rate_limit::Entry>,
    addr: ClientAddr,
    now: u128,
) -> bool {
    let running = before.contains_key(addr) && now < before[addr].window_start + 60_000_000_000;
    &&& after.contains_key(addr)
    &&& running ==> after[addr].window_start == before[addr].window_start && (before[addr].count
        < u32::MAX ==> after[addr].count == before[addr].count + 1)
    &&& !running ==> after[addr].window_start == now && after[addr].count == 1
}

/// Of the requests that an address makes to log in within a minute from its first, five are let
/// through and the rest are refused.
pub proof fn law_five_logins_a_minute(
    service: &mut SupabasedService,
    addr: ClientAddr,
    now: u128,
    r: Result<HttpRequest, Status>,
)
    requires
        old(service).wf(),
        call_ensures(SupabasedService::start_github_device_auth, (service, Some(addr), now), r),
    ensures
        ({
            let before = old(service).rate_limiter.known();
            let after = final(service).rate_limiter.known();
            &&& r is Err <==> has_used_up(before, addr, now)
            &&& counts_one_more(before, after, addr, now)
        }),
{
}

/// Of the requests that an address makes to finish logins within a minute from its first, five
/// are let through and the rest are refused; they count together with those to begin a login.
pub proof fn law_five_polls_a_minute(
    service: &mut SupabasedService,
    addr: ClientAddr,
    auth_session_id: &str,
    now: u128,
    r: Result<LoginToPoll, Status>,
)
    requires
        old(service).wf(),
        call_ensures(
            SupabasedService::finish_github_device_auth,
            (service, Some(addr), auth_session_id, now),
            r,
        ),
    ensures
        ({
            let before = old(service).rate_limiter.known();
            let after = final(service).rate_limiter.known();
            &&& refuses(r, Code::ResourceExhausted, "rate limit exceeded, try again later"@)
                <==> has_used_up(before, addr, now)
            &&& counts_one_more(before, after, addr, now)
        }),
{
}

/// Of the requests that an address makes within a window from its first, as many as the quota are
/// let through and the rest are refused.
pub proof fn law_quota_is_kept(
    limiter: &mut RateLimiter,
    addr: ClientAddr,
    now: u128,
    r: Result<(), Status>,
)
    requires
        old(limiter).wf(),
        call_ensures(RateLimiter::check_rate_limit, (limiter, addr, now), r),
        0 < old(limiter).quota() < u32::MAX,
        0 < old(limiter).period(),
    ensures
        ({
            let before = old(limiter).known();
            let after = final(limiter).known();
            let running = before.contains_key(addr) && now < before[addr].window_start + old(
                limiter).period();
            &&& r is Ok <==> !(running && before[addr].count >= old(limiter).quota())
            &&& r is Err ==> refuses(
                r,
                Code::ResourceExhausted,
                "rate limit exceeded, try again later"@,
            )
            &&& after.contains_key(addr)
            &&& running ==> after[addr].window_start == before[addr].window_start
            &&& running && before[addr].count < u32::MAX ==> after[addr].count == before[addr].count
                + 1
            &&& !running ==> after[addr].window_start == now && after[addr].count == 1
            &&& forall|other: ClientAddr|
                other != addr && #[trigger] after.contains_key(other) ==> before.contains_key(other)
                    && after[other] == before[other]
            &&& forall|other: ClientAddr|
                other != addr && #[trigger] before.contains_key(other) && now
                    < before[other].window_start + old(limiter).period() ==> after.contains_key(
                    other,
                )
            &&& before.dom().insert(addr).len() <= 10_000 ==> forall|other: ClientAddr| #[trigger]
                before.contains_key(other) ==> after.contains_key(other)
            &&& before.dom().insert(addr).len() > 10_000 && running && r is Ok ==> forall|
                other: ClientAddr,
            | #[trigger]
                after.contains_key(other) ==> now < after[other].window_start + old(
                    limiter).period()
        }),
{
    let before = old(limiter).known();
    let entry = rate_limit::entry_at(before, addr, now);
    let counted = before.insert(
        addr,
        rate_limit::Entry {
            count: rate_limit::one_more(entry.count),
            window_start: entry.window_start,
        },
    );
    assert(counted.dom() =~= before.dom().insert(addr));
}

/// A session is issued where there are a token, a refresh token and a time: it is the one of all
/// three. Without a token it is refused; without one of the others there is none.
pub proof fn law_session_is_issued_with_what_is_there(
    created: Result<(String, i64), String>,
    refresh: Option<RefreshToken>,
    identity: String,
    permissions: Vec<String>,
    now: Option<i64>,
    r: Option<Result<SessionToRecord, Status>>,
)
    requires
        now matches Some(now) ==> now + 2_592_000 <= i64::MAX,
        call_ensures(login::session_issued, (created, refresh, identity, permissions, now), r),
    ensures
        created matches Err(error) ==> (r matches Some(Err(status)) && status.code == Code::Internal
            && status.message@ == "token creation failed: "@ + error@),
        created is Ok && (refresh is None || now is None) ==> r is None,
        created matches Ok(token) ==> (refresh matches Some(refresh) ==> (now matches Some(now) ==> (
        r matches Some(Ok(session)) && gives(
            session.response,
            token,
            refresh,
            identity@,
            permissions@,
            now,
        ) && files_session(session.record, refresh, identity@, permissions@, now)))),
{
    if let Some(Ok(session)) = r {
        assert(status::seen_if_taken(r) == Some(
            status::seen(Ok::<SessionToRecord, Status>(session)),
        ));
        assert(session@.record == session.record@ && session@.response == session.response@);
        lemma_files_session(session.record, refresh->0, identity@, permissions@, now->0);
        lemma_same_texts(session.response.permissions@, permissions@);
    }
}

/// A session is replaced where there are a token and a refresh token: by the one of both. Without
/// a token it is refused; without a refresh token there is none.
pub proof fn law_session_is_replaced_with_what_is_there(
    created: Result<(String, i64), String>,
    refresh: Option<RefreshToken>,
    session: SessionToRefresh,
    r: Option<Result<SessionToRotate, Status>>,
)
    requires
        session.now + 2_592_000 <= i64::MAX,
        call_ensures(login::session_replaced, (created, refresh, session), r),
    ensures
        created matches Err(error) ==> (r matches Some(Err(status)) && status.code == Code::Internal
            && status.message@ == "token creation failed: "@ + error@),
        created is Ok && refresh is None ==> r is None,
        created matches Ok(token) ==> (refresh matches Some(refresh) ==> (
        r matches Some(Ok(rotated)) && {
            &&& gives(
                rotated.response,
                token,
                refresh,
                session.identity@,
                session.permissions@,
                session.now,
            )
            &&& retires_session(rotated.rotation.change, session.selector@, session.now)
            &&& files_session(
                rotated.rotation.follow,
                refresh,
                session.identity@,
                session.permissions@,
                session.now,
            )
            &&& rotated.rotation.in_transaction
        })),
{
    if let Some(Ok(rotated)) = r {
        assert(status::seen_if_taken(r) == Some(
            status::seen(Ok::<SessionToRotate, Status>(rotated)),
        ));
        lemma_rotated(created->Ok_0, refresh->0, session, rotated);
    }
}

/// A session begins at the current time, as long as the clock can still reach its end.
pub proof fn law_session_begins_now(now: Option<i64>, r: Option<i64>)
    requires
        call_ensures(login::session_start_at, (now,), r),
    ensures
        r is Some ==> r == now,
        r is Some <==> (now matches Some(time) && time <= i64::MAX - 2_592_000),
{
}

/// A client that is to ask again is told after how many seconds, and no less than one.
pub proof fn law_waiting_client_is_told_when_to_ask(
    interval: i64,
    r: FinishGithubDeviceAuthResponse,
)
    requires
        call_ensures(login::pending_response, (interval,), r),
    ensures
        r.result matches Some(DeviceAuthResult::Pending(pending)) && pending.interval
            == no_less_than_one(interval) && pending.message@
            == "Waiting for GitHub authorization"@,
{
}

/// What a token that is issued at `now` is to carry: who its bearer is, that they are a developer,
/// what they may do, and eight hours from then on.
pub open spec fn to_carry(
    identity: Seq<char>,
    permissions: Seq<Seq<char>>,
    now: i64,
) -> auth::ClaimsView {
    auth::ClaimsView {
        sub: identity,
        role: "developer"@,
        permissions,
        iat: now,
        exp: (now + 28_800) as i64,
    }
}

/// A token is issued wherever one can be made of what it is to carry, and is then that one, with
/// the time at which it expires.
pub proof fn law_issued_token_carries_its_bearer(
    secret: &[u8],
    identity: &str,
    permissions: &[String],
    now: i64,
    r: Result<(String, i64), String>,
)
    requires
        now <= i64::MAX - 28_800,
        call_ensures(auth::create_token_at, (secret, identity, permissions, now), r),
    ensures
        match auth::jwt_text(secret@, to_carry(identity@, text::texts(permissions@), now)) {
            Ok(token) => r matches Ok(made) && made.0@ == token && made.1 == now + 28_800,
            Err(error) => r matches Err(message) && message@ == error,
        },
        0 <= now ==> (r matches Ok(made) ==> is_made_for(
            made.0@,
            made.1,
            secret@,
            identity@,
            text::texts(permissions@),
        )),
{
}

/// Whatever the clock gives, a token is issued at the time that it gives, where that can be used.
pub proof fn law_token_is_issued_by_the_clock(
    secret: &[u8],
    identity: &str,
    permissions: &[String],
    now: Option<i64>,
    r: Result<(String, i64), String>,
    at_once: Result<(String, i64), String>,
)
    requires
        call_ensures(auth::create_token_by_clock, (secret, identity, permissions, now), r),
        call_ensures(auth::create_token, (secret, identity, permissions), at_once),
    ensures
        now matches Some(time) ==> 0 <= time <= i64::MAX - 28_800 ==> match auth::jwt_text(
            secret@,
            to_carry(identity@, text::texts(permissions@), time),
        ) {
            Ok(token) => r matches Ok(made) && made.0@ == token && made.1 == time + 28_800
                && is_made_for(made.0@, made.1, secret@, identity@, text::texts(permissions@)),
            Err(error) => r matches Err(message) && message@ == error,
        },
        !(now matches Some(time) && 0 <= time <= i64::MAX - 28_800) ==> (r matches Err(message)
            && message@ == "the system clock gives no usable time"@),
        at_once matches Ok(made) ==> is_made_for(
            made.0@,
            made.1,
            secret@,
            identity@,
            text::texts(permissions@),
        ),
{
}

/// Whether the claims are what the token carries under the secret.
pub open spec fn are_carried(claims: Claims, secret: Seq<u8>, token: Seq<char>) -> bool {
    auth::jwt_claims(secret, token) matches Ok(carried) && {
        &&& claims.sub@ == carried.sub
        &&& claims.role@ == carried.role
        &&& text::texts(claims.permissions@) == carried.permissions
        &&& claims.iat == carried.iat
        &&& claims.exp == carried.exp
    }
}

/// A token is good for what it carries under the secret, as long as its time is not over; it is
/// refused for that, or because it carries nothing under the secret.
pub proof fn law_good_token_gives_what_it_carries(
    secret: &[u8],
    token: &str,
    now: Option<i64>,
    r: Result<Claims, String>,
    at_once: Result<Claims, String>,
)
    requires
        call_ensures(auth::verify_token_by_clock, (secret, token, now), r),
        call_ensures(auth::verify_token, (secret, token), at_once),
    ensures
        r matches Ok(claims) ==> are_carried(claims, secret@, token@),
        now matches Some(time) ==> time >= 60 ==> (r matches Err(message) ==> message@
            == "ExpiredSignature"@ || (auth::jwt_claims(secret@, token@) matches Err(error)
            && message@ == error)),
        !(now matches Some(time) && time >= 60) ==> (r matches Err(message) && message@
            == "the system clock gives no usable time"@),
        at_once matches Ok(claims) ==> are_carried(claims, secret@, token@),
        at_once matches Err(message) ==> message@ == "ExpiredSignature"@ || message@
            == "the system clock gives no usable time"@ || (auth::jwt_claims(
            secret@,
            token@,
        ) matches Err(error) && message@ == error),
{
}

/// A clean-up forgets the addresses whose window is over, and no others.
pub proof fn law_cleanup_forgets_what_is_over(limiter: &mut RateLimiter, now: u128)
    requires
        old(limiter).wf(),
        call_ensures(RateLimiter::cleanup, (limiter, now), ()),
        0 < old(limiter).period(),
    ensures
        forall|addr: ClientAddr| #[trigger]
            final(limiter).known().contains_key(addr) <==> old(limiter).known().contains_key(addr)
                && now < old(limiter).known()[addr].window_start + old(limiter).period(),
        forall|addr: ClientAddr| #[trigger]
            final(limiter).known().contains_key(addr) ==> final(limiter).known()[addr] == old(
                limiter).known()[addr],
{
}

} // verus!

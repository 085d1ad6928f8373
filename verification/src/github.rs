//! GitHub: its OAuth device flow and its organisations.

use vstd::prelude::*;

use crate::http::{
    bearer_header, is_success, pair, HttpBody, HttpMethod, HttpReply, HttpReplyView, HttpRequest,
    HTTP_TIMEOUT_SECONDS,
};
use crate::status::{Code, Status, StatusView};
use crate::text::same_text;
use crate::{http, status};

verus! {

/// A user of GitHub.
#[derive(Clone, Debug)]
pub struct GitHubUser {
    pub login: String,
}

/// A device flow that GitHub has started.
#[derive(Clone, Debug)]
pub struct DeviceAuthStart {
    pub device_code: String,
    pub user_code: String,
    pub verification_uri: String,
    pub expires_in: i64,
    pub interval: i64,
}

/// Where a device flow stands.
#[derive(Clone, Debug, PartialEq, Eq)]
pub enum DeviceAuthPoll {
    /// The user has authorised the device.
    Complete { access_token: String, scope: String, token_type: String },
    /// The user has not decided yet.
    Pending { interval: Option<i64> },
    /// The server asks too often.
    SlowDown { interval: Option<i64> },
}

/// The body of a reply that hands out an access token.
#[derive(Clone, Debug)]
pub struct DeviceAuthPollSuccess {
    pub access_token: String,
    pub scope: String,
    pub token_type: String,
}

/// The body of a reply that hands out none.
#[derive(Clone, Debug)]
pub struct DeviceAuthError {
    pub error: String,
    pub error_description: Option<String>,
    pub interval: Option<i64>,
}

/// The headers of a request to the API on behalf of `token`.
pub open spec fn api_headers(token: Seq<char>) -> Seq<(Seq<char>, Seq<char>)> {
    seq![
        ("Authorization"@, http::bearer(token)),
        ("User-Agent"@, "supabased-server"@),
        ("Accept"@, "application/vnd.github+json"@),
    ]
}

/// The headers of a request of the device flow.
pub open spec fn oauth_headers() -> Seq<(Seq<char>, Seq<char>)> {
    seq![("User-Agent"@, "supabased-server"@), ("Accept"@, "application/json"@)]
}

/// A request to the API on behalf of `token`.
pub open spec fn api_request(
    token: Seq<char>,
    url: Seq<char>,
    follow_redirects: bool,
) -> http::HttpRequestView {
    http::HttpRequestView {
        method: HttpMethod::Get,
        url,
        headers: api_headers(token),
        body: http::HttpBodyView::Empty,
        follow_redirects,
        timeout_seconds: HTTP_TIMEOUT_SECONDS,
    }
}

/// A request of the device flow with these fields.
pub open spec fn oauth_request(
    url: Seq<char>,
    fields: Seq<(Seq<char>, Seq<char>)>,
) -> http::HttpRequestView {
    http::HttpRequestView {
        method: HttpMethod::Post,
        url,
        headers: oauth_headers(),
        body: http::HttpBodyView::Form(fields),
        follow_redirects: true,
        timeout_seconds: HTTP_TIMEOUT_SECONDS,
    }
}

fn api_get(token: &str, url: String, follow_redirects: bool) -> (r: HttpRequest)
    ensures
        r@ == api_request(token@, url@, follow_redirects),
{
    let mut headers: Vec<(String, String)> = Vec::new();
    let authorization = bearer_header(token);
    headers.push(pair("Authorization", authorization.as_str()));
    headers.push(pair("User-Agent", "supabased-server"));
    headers.push(pair("Accept", "application/vnd.github+json"));
    assert(http::pairs(headers@) =~= api_headers(token@));
    HttpRequest {
        method: HttpMethod::Get,
        url,
        headers,
        body: HttpBody::Empty,
        follow_redirects,
        timeout_seconds: HTTP_TIMEOUT_SECONDS,
    }
}

fn oauth_post(url: &str, fields: Vec<(String, String)>) -> (r: HttpRequest)
    ensures
        r@ == oauth_request(url@, http::pairs(fields@)),
{
    let mut headers: Vec<(String, String)> = Vec::new();
    headers.push(pair("User-Agent", "supabased-server"));
    headers.push(pair("Accept", "application/json"));
    assert(http::pairs(headers@) =~= oauth_headers());
    HttpRequest {
        method: HttpMethod::Post,
        url: url.to_string(),
        headers,
        body: HttpBody::Form(fields),
        follow_redirects: true,
        timeout_seconds: HTTP_TIMEOUT_SECONDS,
    }
}

/// The request that asks whose token this is.
pub fn validate_token(token: &str) -> (r: HttpRequest)
    ensures
        r@ == api_request(token@, "https://api.github.com/user"@, true),
{
    api_get(token, "https://api.github.com/user".to_string(), true)
}

/// The address of the membership of `username` in `org`.
pub open spec fn membership_address(org: Seq<char>, username: Seq<char>) -> Seq<char> {
    "https://api.github.com/orgs/"@ + org + "/members/"@ + username
}

/// The request that asks whether `username` is a member of `org`; a redirect is an answer
/// of its own and not followed.
pub fn check_org_membership(token: &str, org: &str, username: &str) -> (r: HttpRequest)
    ensures
        r@ == api_request(token@, membership_address(org@, username@), false),
{
    let mut url = "https://api.github.com/orgs/".to_string();
    url.append(org);
    url.append("/members/");
    url.append(username);
    api_get(token, url, false)
}

/// The request that starts a device flow.
pub fn start_device_auth(client_id: &str, scope: &str) -> (r: HttpRequest)
    ensures
        r@ == oauth_request(
            "https://github.com/login/device/code"@,
            seq![("client_id"@, client_id@), ("scope"@, scope@)],
        ),
{
    let mut fields: Vec<(String, String)> = Vec::new();
    fields.push(pair("client_id", client_id));
    fields.push(pair("scope", scope));
    assert(http::pairs(fields@) =~= seq![("client_id"@, client_id@), ("scope"@, scope@)]);
    oauth_post("https://github.com/login/device/code", fields)
}

/// The fields of the request that asks where a device flow stands.
pub open spec fn poll_fields(client_id: Seq<char>, device_code: Seq<char>) -> Seq<
    (Seq<char>, Seq<char>),
> {
    seq![
        ("client_id"@, client_id),
        ("device_code"@, device_code),
        ("grant_type"@, "urn:ietf:params:oauth:grant-type:device_code"@),
    ]
}

/// The request that asks where a device flow stands.
pub fn poll_device_auth(client_id: &str, device_code: &str) -> (r: HttpRequest)
    ensures
        r@ == oauth_request(
            "https://github.com/login/oauth/access_token"@,
            poll_fields(client_id@, device_code@),
        ),
{
    let mut fields: Vec<(String, String)> = Vec::new();
    fields.push(pair("client_id", client_id));
    fields.push(pair("device_code", device_code));
    fields.push(pair("grant_type", "urn:ietf:params:oauth:grant-type:device_code"));
    assert(http::pairs(fields@) =~= poll_fields(client_id@, device_code@));
    oauth_post("https://github.com/login/oauth/access_token", fields)
}

/// The failure of an endpoint that answered with this status and this body.
pub open spec fn endpoint_failure(
    endpoint: Seq<char>,
    status_text: Seq<char>,
    body: Seq<char>,
) -> StatusView {
    status::refusal(Code::Internal, endpoint + " returned "@ + status_text + ": "@ + body)
}

fn endpoint_error(endpoint: &str, status_text: &str, body: &str) -> (r: Status)
    ensures
        r@ == endpoint_failure(endpoint@, status_text@, body@),
{
    let mut message = endpoint.to_string();
    message.append(" returned ");
    message.append(status_text);
    message.append(": ");
    message.append(body);
    Status { code: Code::Internal, message }
}

/// Whose token it is, by the reply and the user read from its body.
pub open spec fn user_result(
    reply: HttpReplyView,
    parsed: Result<GitHubUser, String>,
) -> Result<GitHubUser, StatusView> {
    match reply {
        HttpReplyView::NotBuilt(error) => Err(
            status::refusal(Code::Internal, "failed to build GitHub HTTP client: "@ + error),
        ),
        HttpReplyView::NotSent(error) => Err(
            status::refusal(Code::Unavailable, "GitHub API request failed: "@ + error),
        ),
        HttpReplyView::Answered { status, status_text, body } => if status == 401 {
            Err(
                status::refusal(
                    Code::Unauthenticated,
                    "invalid GitHub OAuth token -- authorization may have been revoked or expired"@,
                ),
            )
        } else if !http::success(status) {
            Err(endpoint_failure("GitHub API"@, status_text, body))
        } else {
            match parsed {
                Ok(user) => Ok(user),
                Err(error) => Err(
                    status::refusal(Code::Internal, "failed to parse GitHub response: "@ + error@),
                ),
            }
        },
    }
}

/// Whose token it is, by the reply and the user read from its body.
pub fn validated_user(reply: &HttpReply, parsed: Result<GitHubUser, String>) -> (r: Result<
    GitHubUser,
    Status,
>)
    ensures
        status::outcome(r) == user_result(reply@, parsed),
{
    match reply {
        HttpReply::NotBuilt(error) => Err(
            Status::with_detail(
                Code::Internal,
                "failed to build GitHub HTTP client: ",
                error.as_str(),
            ),
        ),
        HttpReply::NotSent(error) => Err(
            Status::with_detail(Code::Unavailable, "GitHub API request failed: ", error.as_str()),
        ),
        HttpReply::Answered { status, status_text, body } => {
            if *status == 401 {
                return Err(
                    Status::new(
                        Code::Unauthenticated,
                        "invalid GitHub OAuth token -- authorization may have been revoked or expired",
                    ),
                );
            }
            if !is_success(*status) {
                return Err(endpoint_error("GitHub API", status_text.as_str(), body.as_str()));
            }
            match parsed {
                Ok(user) => Ok(user),
                Err(error) => Err(
                    Status::with_detail(
                        Code::Internal,
                        "failed to parse GitHub response: ",
                        error.as_str(),
                    ),
                ),
            }
        },
    }
}

/// Whether `username` is a member of `org`, by the reply.
pub open spec fn membership_result(
    org: Seq<char>,
    username: Seq<char>,
    reply: HttpReplyView,
) -> Result<(), StatusView> {
    match reply {
        HttpReplyView::NotBuilt(error) => Err(
            status::refusal(Code::Internal, "failed to build HTTP client: "@ + error),
        ),
        HttpReplyView::NotSent(error) => Err(
            status::refusal(Code::Unavailable, "GitHub API request failed: "@ + error),
        ),
        HttpReplyView::Answered { status, status_text, body } => if status == 204 {
            Ok(())
        } else if status == 404 {
            Err(
                status::refusal(
                    Code::PermissionDenied,
                    "user '"@ + username + "' is not a member of the '"@ + org
                        + "' GitHub organization"@,
                ),
            )
        } else if status == 302 {
            Err(
                status::refusal(
                    Code::PermissionDenied,
                    "org membership check failed -- ensure your GitHub token has the 'read:org' scope"@,
                ),
            )
        } else {
            Err(endpoint_failure("GitHub org membership API"@, status_text, body))
        },
    }
}

/// Whether `username` is a member of `org`, by the reply.
pub fn org_membership(org: &str, username: &str, reply: &HttpReply) -> (r: Result<(), Status>)
    ensures
        status::outcome(r) == membership_result(org@, username@, reply@),
{
    match reply {
        HttpReply::NotBuilt(error) => Err(
            Status::with_detail(Code::Internal, "failed to build HTTP client: ", error.as_str()),
        ),
        HttpReply::NotSent(error) => Err(
            Status::with_detail(Code::Unavailable, "GitHub API request failed: ", error.as_str()),
        ),
        HttpReply::Answered { status, status_text, body } => {
            if *status == 204 {
                return Ok(());
            }
            if *status == 404 {
                let mut message = "user '".to_string();
                message.append(username);
                message.append("' is not a member of the '");
                message.append(org);
                message.append("' GitHub organization");
                return Err(Status { code: Code::PermissionDenied, message });
            }
            if *status == 302 {
                return Err(
                    Status::new(
                        Code::PermissionDenied,
                        "org membership check failed -- ensure your GitHub token has the 'read:org' scope",
                    ),
                );
            }
            Err(endpoint_error("GitHub org membership API", status_text.as_str(), body.as_str()))
        },
    }
}

/// Why a reply of the device flow is no success, where it is none.
pub open spec fn oauth_failure(endpoint: Seq<char>, reply: HttpReplyView) -> Option<StatusView> {
    match reply {
        HttpReplyView::NotBuilt(error) => Some(
            status::refusal(Code::Internal, "failed to build GitHub HTTP client: "@ + error),
        ),
        HttpReplyView::NotSent(error) => Some(
            status::refusal(Code::Unavailable, "GitHub OAuth request failed: "@ + error),
        ),
        HttpReplyView::Answered { status, status_text, body } => if http::success(status) {
            None
        } else {
            Some(endpoint_failure(endpoint, status_text, body))
        },
    }
}

fn require_oauth_success(endpoint: &str, reply: &HttpReply) -> (r: Result<(), Status>)
    ensures
        match oauth_failure(endpoint@, reply@) {
            Some(failure) => r matches Err(status) && status@ == failure,
            None => r is Ok,
        },
{
    match reply {
        HttpReply::NotBuilt(error) => Err(
            Status::with_detail(
                Code::Internal,
                "failed to build GitHub HTTP client: ",
                error.as_str(),
            ),
        ),
        HttpReply::NotSent(error) => Err(
            Status::with_detail(
                Code::Unavailable,
                "GitHub OAuth request failed: ",
                error.as_str(),
            ),
        ),
        HttpReply::Answered { status, status_text, body } => if is_success(*status) {
            Ok(())
        } else {
            Err(endpoint_error(endpoint, status_text.as_str(), body.as_str()))
        },
    }
}

/// The failure to read the body of a reply of the device flow.
pub open spec fn oauth_parse_failure(error: Seq<char>) -> StatusView {
    status::refusal(Code::Internal, "failed to parse GitHub OAuth response: "@ + error)
}

/// The device flow that was started, by what was read from the body of the reply.
pub fn parse_device_auth_start(parsed: Result<DeviceAuthStart, String>) -> (r: Result<
    DeviceAuthStart,
    Status,
>)
    ensures
        status::outcome(r) == match parsed {
            Ok(start) => Ok(start),
            Err(error) => Err(oauth_parse_failure(error@)),
        },
{
    match parsed {
        Ok(start) => Ok(start),
        Err(error) => Err(
            Status::with_detail(
                Code::Internal,
                "failed to parse GitHub OAuth response: ",
                error.as_str(),
            ),
        ),
    }
}

/// The device flow that was started, by the reply.
pub open spec fn start_result(
    reply: HttpReplyView,
    parsed: Result<DeviceAuthStart, String>,
) -> Result<DeviceAuthStart, StatusView> {
    match oauth_failure("GitHub OAuth device-code endpoint"@, reply) {
        Some(failure) => Err(failure),
        None => match parsed {
            Ok(start) => Ok(start),
            Err(error) => Err(oauth_parse_failure(error@)),
        },
    }
}

/// The device flow that was started, by the reply.
pub fn started_device_auth(reply: &HttpReply, parsed: Result<DeviceAuthStart, String>) -> (r:
    Result<DeviceAuthStart, Status>)
    ensures
        status::outcome(r) == start_result(reply@, parsed),
{
    match require_oauth_success("GitHub OAuth device-code endpoint", reply) {
        Err(status) => Err(status),
        Ok(()) => parse_device_auth_start(parsed),
    }
}

/// What is told of an error: `prefix`, and the description where there is one.
pub open spec fn oauth_error_text(prefix: Seq<char>, error: DeviceAuthError) -> Seq<char> {
    match error.error_description {
        Some(description) => if description@.len() > 0 {
            prefix + ": "@ + description@
        } else {
            prefix
        },
        None => prefix,
    }
}

/// What is told of an error: `prefix`, and the description where there is one.
pub fn github_oauth_error_message(prefix: &str, error: &DeviceAuthError) -> (r: String)
    ensures
        r@ == oauth_error_text(prefix@, *error),
{
    let mut message = prefix.to_string();
    if let Some(description) = &error.error_description {
        if !description.as_str().is_empty() {
            message.append(": ");
            message.append(description.as_str());
        }
    }
    message
}

/// Where a device flow stands that handed out no access token.
pub open spec fn poll_error(error: DeviceAuthError) -> Result<DeviceAuthPoll, StatusView> {
    if error.error@ == "authorization_pending"@ {
        Ok(DeviceAuthPoll::Pending { interval: error.interval })
    } else if error.error@ == "slow_down"@ {
        Ok(DeviceAuthPoll::SlowDown { interval: error.interval })
    } else if error.error@ == "expired_token"@ {
        Err(
            status::refusal(
                Code::DeadlineExceeded,
                oauth_error_text("GitHub OAuth device code expired"@, error),
            ),
        )
    } else if error.error@ == "access_denied"@ {
        Err(
            status::refusal(
                Code::PermissionDenied,
                oauth_error_text("GitHub OAuth authorization was denied"@, error),
            ),
        )
    } else if error.error@ == "device_flow_disabled"@ {
        Err(
            status::refusal(
                Code::FailedPrecondition,
                oauth_error_text("GitHub OAuth device flow is disabled for this app"@, error),
            ),
        )
    } else {
        Err(
            status::refusal(
                Code::Internal,
                oauth_error_text("GitHub OAuth returned error '"@ + error.error@ + "'"@, error),
            ),
        )
    }
}

/// Where a device flow stands, by what was read from the body of the reply: as an access
/// token, and where it is none, as an error.
pub open spec fn poll_result(
    success: Option<DeviceAuthPollSuccess>,
    error: Result<DeviceAuthError, String>,
) -> Result<DeviceAuthPoll, StatusView> {
    match success {
        Some(token) => Ok(
            DeviceAuthPoll::Complete {
                access_token: token.access_token,
                scope: token.scope,
                token_type: token.token_type,
            },
        ),
        None => match error {
            Ok(error) => poll_error(error),
            Err(message) => Err(oauth_parse_failure(message@)),
        },
    }
}

/// Where a device flow stands, by what was read from the body of the reply: as an access
/// token, and where it is none, as an error.
pub fn parse_device_auth_poll(
    success: Option<DeviceAuthPollSuccess>,
    error: Result<DeviceAuthError, String>,
) -> (r: Result<DeviceAuthPoll, Status>)
    ensures
        status::outcome(r) == poll_result(success, error),
{
    if let Some(token) = success {
        return Ok(
            DeviceAuthPoll::Complete {
                access_token: token.access_token,
                scope: token.scope,
                token_type: token.token_type,
            },
        );
    }
    let error = match error {
        Ok(error) => error,
        Err(message) => {
            return Err(
                Status::with_detail(
                    Code::Internal,
                    "failed to parse GitHub OAuth response: ",
                    message.as_str(),
                ),
            );
        },
    };
    let kind = error.error.as_str();
    if same_text(kind, "authorization_pending") {
        Ok(DeviceAuthPoll::Pending { interval: error.interval })
    } else if same_text(kind, "slow_down") {
        Ok(DeviceAuthPoll::SlowDown { interval: error.interval })
    } else if same_text(kind, "expired_token") {
        let message = github_oauth_error_message("GitHub OAuth device code expired", &error);
        Err(Status { code: Code::DeadlineExceeded, message })
    } else if same_text(kind, "access_denied") {
        let message = github_oauth_error_message("GitHub OAuth authorization was denied", &error);
        Err(Status { code: Code::PermissionDenied, message })
    } else if same_text(kind, "device_flow_disabled") {
        let message = github_oauth_error_message(
            "GitHub OAuth device flow is disabled for this app",
            &error,
        );
        Err(Status { code: Code::FailedPrecondition, message })
    } else {
        let mut prefix = "GitHub OAuth returned error '".to_string();
        prefix.append(kind);
        prefix.append("'");
        let message = github_oauth_error_message(prefix.as_str(), &error);
        Err(Status { code: Code::Internal, message })
    }
}

/// Where a device flow stands, by the reply.
pub fn polled_device_auth(
    reply: &HttpReply,
    success: Option<DeviceAuthPollSuccess>,
    error: Result<DeviceAuthError, String>,
) -> (r: Result<DeviceAuthPoll, Status>)
    ensures
        status::outcome(r) == match oauth_failure("GitHub OAuth token endpoint"@, reply@) {
            Some(failure) => Err(failure),
            None => poll_result(success, error),
        },
{
    match require_oauth_success("GitHub OAuth token endpoint", reply) {
        Err(status) => Err(status),
        Ok(()) => parse_device_auth_poll(success, error),
    }
}

/// Only the answer 204 makes a user a member of the organisation.
pub proof fn law_membership_needs_no_content(
    org: Seq<char>,
    username: Seq<char>,
    reply: HttpReplyView,
)
    ensures
        membership_result(org, username, reply) is Ok <==> (reply matches HttpReplyView::Answered {
            status,
            ..
        } && status == 204),
{
}

} // verus!

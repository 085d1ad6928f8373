//! The Supabase management service: what is asked of it and what its answers mean.

use vstd::prelude::*;

use crate::{http, json, status, text};
use crate::http::{
    bearer_header, is_success, pair, HttpBody, HttpMethod, HttpReply, HttpReplyView, HttpRequest,
    HTTP_TIMEOUT_SECONDS,
};
use crate::json::{json_object, JsonValue};
use crate::status::{Code, Status, StatusView};
use crate::text::{chars_of, find_from, same_text, text_occurs_at};

verus! {

/// An API key of a branch, as the service lists it.
#[derive(Clone, Debug)]
pub struct ApiKeyResponse {
    pub api_key: String,
    pub name: Option<String>,
    pub key_type: Option<String>,
}

pub struct ApiKeyView {
    pub api_key: Seq<char>,
    pub name: Option<Seq<char>>,
    pub key_type: Option<Seq<char>>,
}

/// The text in an optional string.
pub open spec fn optional_text(s: Option<String>) -> Option<Seq<char>> {
    match s {
        Some(text) => Some(text@),
        None => None,
    }
}

impl View for ApiKeyResponse {
    type V = ApiKeyView;

    open spec fn view(&self) -> ApiKeyView {
        ApiKeyView {
            api_key: self.api_key@,
            name: optional_text(self.name),
            key_type: optional_text(self.key_type),
        }
    }
}

pub open spec fn key_views(keys: Seq<ApiKeyResponse>) -> Seq<ApiKeyView> {
    keys.map_values(|k: ApiKeyResponse| k@)
}

/// The keys of type `key_type`, in order.
pub open spec fn keys_of_type(keys: Seq<ApiKeyView>, key_type: Seq<char>) -> Seq<ApiKeyView> {
    keys.filter(|k: ApiKeyView| k.key_type == Some(key_type))
}

/// The keys that bear the name `default`, in order.
pub open spec fn default_keys(keys: Seq<ApiKeyView>) -> Seq<ApiKeyView> {
    keys.filter(|k: ApiKeyView| k.name == Some("default"@))
}

/// Whether what follows a key's prefix is missing or masked.
pub open spec fn masked(suffix: Seq<char>) -> bool {
    ||| suffix.len() == 0
    ||| suffix.contains('*')
    ||| text::occurs(suffix, "..."@)
    ||| suffix.contains('\u{2026}')
    ||| suffix.contains('\u{2022}')
}

/// The one key of type `key_type` that is meant: the only one, or else the only one
/// that bears the name `default`.
pub open spec fn meant_key(keys: Seq<ApiKeyView>, key_type: Seq<char>) -> Result<
    ApiKeyView,
    Seq<char>,
> {
    let candidates = keys_of_type(keys, key_type);
    if candidates.len() == 0 {
        Err(
            "no modern "@ + key_type
                + " API key found; create one in the Supabase API Keys settings"@,
        )
    } else if candidates.len() == 1 {
        Ok(candidates[0])
    } else if default_keys(candidates).len() == 1 {
        Ok(default_keys(candidates)[0])
    } else {
        Err(
            "multiple "@ + key_type
                + " API keys found without a unique key named 'default'"@,
        )
    }
}

/// The value of the key that is meant, where it has the expected prefix and is shown in full.
pub open spec fn modern_key(
    keys: Seq<ApiKeyView>,
    key_type: Seq<char>,
    prefix: Seq<char>,
) -> Result<Seq<char>, Seq<char>> {
    match meant_key(keys, key_type) {
        Err(message) => Err(message),
        Ok(key) => if !text::occurs_at(key.api_key, prefix, 0) {
            Err(
                "selected "@ + key_type + " API key does not have the expected "@ + prefix
                    + " prefix"@,
            )
        } else if masked(key.api_key.skip(prefix.len() as int)) {
            Err(
                "selected "@ + key_type
                    + " API key is masked or incomplete; ensure the Management API response reveals key values"@,
            )
        } else {
            Ok(key.api_key)
        },
    }
}

/// Whether `s` holds the text `text`.
fn is_text(s: &Option<String>, text: &str) -> (r: bool)
    ensures
        r == (optional_text(*s) == Some(text@)),
{
    match s {
        Some(value) => same_text(value.as_str(), text),
        None => false,
    }
}

/// The message `before`, `key_type`, `after`, as an internal failure.
fn key_failure(before: &str, key_type: &str, after: &str) -> (r: Status)
    ensures
        r@ == status::refusal(Code::Internal, before@ + key_type@ + after@),
{
    let mut message = before.to_string();
    message.append(key_type);
    message.append(after);
    Status { code: Code::Internal, message }
}

/// Whether the character `c` stands in `v` at or behind `from`.
fn char_behind(v: &Vec<char>, from: usize, c: char) -> (r: bool)
    requires
        from <= v.len(),
    ensures
        r == v@.skip(from as int).contains(c),
{
    let mut i: usize = from;
    while i < v.len()
        invariant
            from <= i <= v.len(),
            forall|j: int| from <= j < i ==> v@[j] != c,
        decreases v.len() - i,
    {
        if v[i] == c {
            assert(v@.skip(from as int)[i - from] == c);
            return true;
        }
        i += 1;
    }
    assert forall|j: int| 0 <= j < v@.skip(from as int).len() implies v@.skip(from as int)[j]
        != c by {
        assert(v@[from + j] != c);
    }
    false
}

/// Whether what follows the first `from` characters of `v` is missing or masked.
fn masked_behind(v: &Vec<char>, from: usize) -> (r: bool)
    requires
        from <= v.len(),
    ensures
        r == masked(v@.skip(from as int)),
{
    let ghost suffix = v@.skip(from as int);
    let dots = chars_of("...");
    if from == v.len() || char_behind(v, from, '*') || char_behind(v, from, '\u{2026}')
        || char_behind(v, from, '\u{2022}') {
        return true;
    }
    match find_from(v, &dots, from) {
        Some(i) => {
            proof {
                assert(suffix.subrange(i - from, i - from + dots@.len()) =~= v@.subrange(
                    i as int,
                    i + dots@.len(),
                ));
                assert(text::occurs_at(suffix, "..."@, i - from));
            }
            true
        },
        None => {
            assert forall|j: int| !#[trigger] text::occurs_at(suffix, "..."@, j) by {
                if text::occurs_at(suffix, "..."@, j) {
                    assert(suffix.subrange(j, j + dots@.len()) =~= v@.subrange(
                        from + j,
                        from + j + dots@.len(),
                    ));
                    assert(text::occurs_at(v@, dots@, from + j));
                }
            }
            false
        },
    }
}

/// The positions of the keys of type `key_type`.
fn positions_of_type(keys: &[ApiKeyResponse], key_type: &str) -> (r: Vec<usize>)
    ensures
        forall|i: int| 0 <= i < r.len() ==> #[trigger] r@[i] < keys@.len(),
        r@.map_values(|p: usize| keys@[p as int]@) == keys_of_type(key_views(keys@), key_type@),
{
    let ghost views = key_views(keys@);
    let ghost chosen = |k: ApiKeyView| k.key_type == Some(key_type@);
    let mut out: Vec<usize> = Vec::new();
    let mut i: usize = 0;
    assert(views.take(0).filter(chosen) =~= Seq::empty()) by {
        reveal(Seq::filter);
    }
    while i < keys.len()
        invariant
            i <= keys.len(),
            views == key_views(keys@),
            chosen == (|k: ApiKeyView| k.key_type == Some(key_type@)),
            forall|j: int| 0 <= j < out.len() ==> #[trigger] out@[j] < keys@.len(),
            out@.map_values(|p: usize| keys@[p as int]@) == views.take(i as int).filter(chosen),
        decreases keys.len() - i,
    {
        let ghost before = out@;
        proof {
            reveal(Seq::filter);
            assert(views.take(i + 1).drop_last() =~= views.take(i as int));
            assert(views.take(i + 1).last() == keys@[i as int]@);
        }
        if is_text(&keys[i].key_type, key_type) {
            out.push(i);
            assert(out@.map_values(|p: usize| keys@[p as int]@) =~= before.map_values(
                |p: usize| keys@[p as int]@,
            ).push(keys@[i as int]@));
        }
        i += 1;
    }
    assert(views.take(i as int) =~= views);
    out
}

/// Those of the positions whose keys bear the name `default`.
fn positions_of_default(keys: &[ApiKeyResponse], positions: &Vec<usize>) -> (r: Vec<usize>)
    requires
        forall|i: int| 0 <= i < positions.len() ==> #[trigger] positions@[i] < keys@.len(),
    ensures
        forall|i: int| 0 <= i < r.len() ==> #[trigger] r@[i] < keys@.len(),
        r@.map_values(|p: usize| keys@[p as int]@) == default_keys(
            positions@.map_values(|p: usize| keys@[p as int]@),
        ),
{
    let ghost views = positions@.map_values(|p: usize| keys@[p as int]@);
    let ghost chosen = |k: ApiKeyView| k.name == Some("default"@);
    let mut out: Vec<usize> = Vec::new();
    let mut i: usize = 0;
    assert(views.take(0).filter(chosen) =~= Seq::empty()) by {
        reveal(Seq::filter);
    }
    while i < positions.len()
        invariant
            i <= positions.len(),
            views == positions@.map_values(|p: usize| keys@[p as int]@),
            chosen == (|k: ApiKeyView| k.name == Some("default"@)),
            forall|j: int| 0 <= j < positions.len() ==> #[trigger] positions@[j] < keys@.len(),
            forall|j: int| 0 <= j < out.len() ==> #[trigger] out@[j] < keys@.len(),
            out@.map_values(|p: usize| keys@[p as int]@) == views.take(i as int).filter(chosen),
        decreases positions.len() - i,
    {
        let ghost before = out@;
        let position = positions[i];
        proof {
            reveal(Seq::filter);
            assert(views.take(i + 1).drop_last() =~= views.take(i as int));
            assert(views.take(i + 1).last() == keys@[position as int]@);
        }
        if is_text(&keys[position].name, "default") {
            out.push(position);
            assert(out@.map_values(|p: usize| keys@[p as int]@) =~= before.map_values(
                |p: usize| keys@[p as int]@,
            ).push(keys@[position as int]@));
        }
        i += 1;
    }
    assert(views.take(i as int) =~= views);
    out
}

/// The value of the one key of type `key_type` that is meant, where it has the expected
/// prefix and is shown in full.
pub fn select_modern_key<'a>(
    keys: &'a [ApiKeyResponse],
    key_type: &str,
    expected_prefix: &str,
) -> (r: Result<&'a str, Status>)
    ensures
        match modern_key(key_views(keys@), key_type@, expected_prefix@) {
            Ok(value) => r matches Ok(key) && key@ == value,
            Err(message) => r matches Err(status) && status@ == status::refusal(
                Code::Internal,
                message,
            ),
        },
{
    let candidates = positions_of_type(keys, key_type);
    let ghost views = candidates@.map_values(|p: usize| keys@[p as int]@);
    let selected: usize = if candidates.len() == 0 {
        return Err(
            key_failure(
                "no modern ",
                key_type,
                " API key found; create one in the Supabase API Keys settings",
            ),
        );
    } else if candidates.len() == 1 {
        assert(views[0] == keys@[candidates@[0] as int]@);
        candidates[0]
    } else {
        let defaults = positions_of_default(keys, &candidates);
        let ghost named = defaults@.map_values(|p: usize| keys@[p as int]@);
        assert(named.len() == defaults@.len());
        if defaults.len() != 1 {
            return Err(
                key_failure(
                    "multiple ",
                    key_type,
                    " API keys found without a unique key named 'default'",
                ),
            );
        }
        assert(named[0] == keys@[defaults@[0] as int]@);
        defaults[0]
    };
    let value = chars_of(keys[selected].api_key.as_str());
    let prefix = chars_of(expected_prefix);
    if !text_occurs_at(&value, &prefix, 0) {
        let mut before = "selected ".to_string();
        before.append(key_type);
        before.append(" API key does not have the expected ");
        return Err(key_failure(before.as_str(), expected_prefix, " prefix"));
    }
    if masked_behind(&value, prefix.len()) {
        return Err(
            key_failure(
                "selected ",
                key_type,
                " API key is masked or incomplete; ensure the Management API response reveals key values",
            ),
        );
    }
    Ok(keys[selected].api_key.as_str())
}

/// The credentials of a branch.
#[derive(Clone, Debug)]
pub struct BranchCredentialSet {
    pub api_url: String,
    pub publishable_key: String,
    pub secret_key: String,
}

/// The address of the API of the branch `branch_ref`.
pub open spec fn branch_api_url(branch_ref: Seq<char>) -> Seq<char> {
    "https://"@ + branch_ref + ".supabase.co"@
}

/// The modern publishable and secret keys among `keys`; legacy keys are ignored.
pub fn extract_credentials(keys: &[ApiKeyResponse], branch_ref: &str) -> (r: Result<
    BranchCredentialSet,
    Status,
>)
    ensures
        ({
            let publishable = modern_key(key_views(keys@), "publishable"@, "sb_publishable_"@);
            let secret = modern_key(key_views(keys@), "secret"@, "sb_secret_"@);
            match (publishable, secret) {
                (Err(message), _) => r matches Err(status) && status@ == status::refusal(
                    Code::Internal,
                    message,
                ),
                (Ok(_), Err(message)) => r matches Err(status) && status@
                    == status::refusal(Code::Internal, message),
                (Ok(public), Ok(private)) => r matches Ok(set) && set.api_url@ == branch_api_url(
                    branch_ref@,
                ) && set.publishable_key@ == public && set.secret_key@ == private,
            }
        }),
{
    let publishable_key = match select_modern_key(keys, "publishable", "sb_publishable_") {
        Ok(key) => key,
        Err(status) => {
            return Err(status);
        },
    };
    let secret_key = match select_modern_key(keys, "secret", "sb_secret_") {
        Ok(key) => key,
        Err(status) => {
            return Err(status);
        },
    };
    let mut api_url = "https://".to_string();
    api_url.append(branch_ref);
    api_url.append(".supabase.co");
    Ok(
        BranchCredentialSet {
            api_url,
            publishable_key: publishable_key.to_string(),
            secret_key: secret_key.to_string(),
        },
    )
}

/// A branch, as the service describes it.
#[derive(Clone, Debug)]
pub struct BranchResponse {
    pub id: String,
    pub name: Option<String>,
    pub project_ref: Option<String>,
    pub parent_project_ref: Option<String>,
    pub is_default: Option<bool>,
    pub git_branch: Option<String>,
    pub status: Option<String>,
    pub created_at: Option<String>,
    pub updated_at: Option<String>,
}

/// What became of a branch that was to be deleted.
#[derive(Clone, Copy, Debug, PartialEq, Eq, Structural)]
pub enum DeleteBranchOutcome {
    Deleted,
    Missing,
}

/// The fields of the request that creates the branch `branch_name` with data.
pub open spec fn create_branch_fields(branch_name: Seq<char>) -> Seq<
    (Seq<char>, json::JsonView),
> {
    seq![
        ("branch_name"@, json::JsonView::Text(branch_name)),
        ("is_default"@, json::JsonView::Flag(false)),
        ("with_data"@, json::JsonView::Flag(true)),
    ]
}

/// The fields of the request that creates the branch `branch_name` with data.
pub fn create_branch_object(branch_name: &str) -> (r: Vec<(String, JsonValue)>)
    ensures
        json::json_fields(r@) == create_branch_fields(branch_name@),
{
    let mut fields: Vec<(String, JsonValue)> = Vec::new();
    fields.push(("branch_name".to_string(), JsonValue::Text(branch_name.to_string())));
    fields.push(("is_default".to_string(), JsonValue::Flag(false)));
    fields.push(("with_data".to_string(), JsonValue::Flag(true)));
    assert(json::json_fields(fields@) =~= create_branch_fields(branch_name@));
    fields
}

/// The JSON text of the request that creates the branch `branch_name` with data.
pub fn create_branch_body(branch_name: &str) -> (r: String)
    ensures
        r@ == json::json_object_text(create_branch_fields(branch_name@)),
{
    json_object(&create_branch_object(branch_name))
}

/// The address of the branches of the project `project_ref`.
pub open spec fn branches_address(project_ref: Seq<char>) -> Seq<char> {
    "https://api.supabase.com/v1/projects/"@ + project_ref + "/branches"@
}

/// The address of the branch `branch_ref`.
pub open spec fn branch_address(branch_ref: Seq<char>) -> Seq<char> {
    "https://api.supabase.com/v1/branches/"@ + branch_ref
}

/// The address of the API keys of the branch `branch_ref`, with their values revealed.
pub open spec fn api_keys_address(branch_ref: Seq<char>) -> Seq<char> {
    "https://api.supabase.com/v1/projects/"@ + branch_ref + "/api-keys?reveal=true"@
}

/// The address of the API keys of the branch `branch_ref`, with their values revealed.
pub fn api_keys_url(branch_ref: &str) -> (r: String)
    ensures
        r@ == api_keys_address(branch_ref@),
{
    let mut url = "https://api.supabase.com/v1/projects/".to_string();
    url.append(branch_ref);
    url.append("/api-keys?reveal=true");
    url
}

/// The address of the branches of the project `project_ref`.
fn branches_url(project_ref: &str) -> (r: String)
    ensures
        r@ == branches_address(project_ref@),
{
    let mut url = "https://api.supabase.com/v1/projects/".to_string();
    url.append(project_ref);
    url.append("/branches");
    url
}

/// The headers of every request: the access token and who asks.
pub open spec fn supabase_headers(token: Seq<char>) -> Seq<(Seq<char>, Seq<char>)> {
    seq![
        ("Authorization"@, http::bearer(token)),
        ("User-Agent"@, "supabased-server"@),
    ]
}

/// The request with the given method, address and body on behalf of `token`.
pub open spec fn supabase_request(
    token: Seq<char>,
    method: HttpMethod,
    url: Seq<char>,
    body: http::HttpBodyView,
) -> http::HttpRequestView {
    http::HttpRequestView {
        method,
        url,
        headers: supabase_headers(token),
        body,
        follow_redirects: true,
        timeout_seconds: HTTP_TIMEOUT_SECONDS,
    }
}

/// The request that creates a branch with data from the project `project_ref`.
pub open spec fn create_request(
    token: Seq<char>,
    project_ref: Seq<char>,
    branch_name: Seq<char>,
) -> http::HttpRequestView {
    supabase_request(
        token,
        HttpMethod::Post,
        branches_address(project_ref),
        http::HttpBodyView::Json(json::json_object_text(create_branch_fields(branch_name))),
    )
}

/// The request that lists the branches of the project `project_ref`.
pub open spec fn list_request(token: Seq<char>, project_ref: Seq<char>) -> http::HttpRequestView {
    supabase_request(
        token,
        HttpMethod::Get,
        branches_address(project_ref),
        http::HttpBodyView::Empty,
    )
}

/// The request that deletes the one branch `branch_ref`.
pub open spec fn delete_request(token: Seq<char>, branch_ref: Seq<char>) -> http::HttpRequestView {
    supabase_request(
        token,
        HttpMethod::Delete,
        branch_address(branch_ref),
        http::HttpBodyView::Empty,
    )
}

/// The request that lists the API keys of the branch `branch_ref`.
pub open spec fn keys_request(token: Seq<char>, branch_ref: Seq<char>) -> http::HttpRequestView {
    supabase_request(
        token,
        HttpMethod::Get,
        api_keys_address(branch_ref),
        http::HttpBodyView::Empty,
    )
}

/// An account of the management service.
#[derive(Clone)]
pub struct SupabaseClient {
    token: String,
}

impl SupabaseClient {
    /// The access token of the account.
    pub closed spec fn access_token(&self) -> Seq<char> {
        self.token@
    }

    /// The account with the access token `token`.
    pub fn new(token: String) -> (r: SupabaseClient)
        ensures
            r.access_token() == token@,
    {
        SupabaseClient { token }
    }

    fn request(&self, method: HttpMethod, url: String, body: HttpBody) -> (r: HttpRequest)
        ensures
            r@ == supabase_request(self.access_token(), method, url@, body@),
    {
        let mut headers: Vec<(String, String)> = Vec::new();
        let authorization = bearer_header(self.token.as_str());
        headers.push(pair("Authorization", authorization.as_str()));
        headers.push(pair("User-Agent", "supabased-server"));
        assert(http::pairs(headers@) =~= supabase_headers(self.access_token()));
        HttpRequest {
            method,
            url,
            headers,
            body,
            follow_redirects: true,
            timeout_seconds: HTTP_TIMEOUT_SECONDS,
        }
    }

    /// The request that creates a branch with data from the project `project_ref`.
    pub fn create_branch(&self, project_ref: &str, branch_name: &str) -> (r: HttpRequest)
        ensures
            r@ == create_request(self.access_token(), project_ref@, branch_name@),
    {
        let body = create_branch_body(branch_name);
        self.request(HttpMethod::Post, branches_url(project_ref), HttpBody::Json(body))
    }

    /// The request that lists the branches of the project `project_ref`.
    pub fn list_branches(&self, project_ref: &str) -> (r: HttpRequest)
        ensures
            r@ == list_request(self.access_token(), project_ref@),
    {
        self.request(HttpMethod::Get, branches_url(project_ref), HttpBody::Empty)
    }

    /// The request that deletes the one branch `branch_ref`.
    pub fn delete_branch(&self, branch_ref: &str) -> (r: HttpRequest)
        ensures
            r@ == delete_request(self.access_token(), branch_ref@),
    {
        let mut url = "https://api.supabase.com/v1/branches/".to_string();
        url.append(branch_ref);
        self.request(HttpMethod::Delete, url, HttpBody::Empty)
    }

    /// The request that lists the API keys of the branch `branch_ref`.
    pub fn get_api_keys(&self, branch_ref: &str) -> (r: HttpRequest)
        ensures
            r@ == keys_request(self.access_token(), branch_ref@),
    {
        self.request(HttpMethod::Get, api_keys_url(branch_ref), HttpBody::Empty)
    }
}

/// Why a reply is no success, where it is none.
pub open spec fn supabase_failure(reply: HttpReplyView) -> Option<StatusView> {
    match reply {
        HttpReplyView::NotBuilt(error) => Some(
            status::refusal(Code::Internal, "failed to build Supabase HTTP client: "@ + error),
        ),
        HttpReplyView::NotSent(error) => Some(
            status::refusal(Code::Unavailable, "Supabase API request failed: "@ + error),
        ),
        HttpReplyView::Answered { status, status_text, body } => if http::success(status) {
            None
        } else {
            Some(
                status::refusal(
                    Code::Internal,
                    "Supabase API returned "@ + status_text + ": "@ + body,
                ),
            )
        },
    }
}

/// The status code of a reply, where the service answered.
pub open spec fn answered_with(reply: HttpReplyView, code: u16) -> bool {
    reply matches HttpReplyView::Answered { status, .. } && status == code
}

/// What a reply and the value read from its body amount to.
pub open spec fn supabase_result<T>(reply: HttpReplyView, parsed: Result<T, String>) -> Result<
    T,
    StatusView,
> {
    match supabase_failure(reply) {
        Some(failure) => Err(failure),
        None => match parsed {
            Ok(value) => Ok(value),
            Err(error) => Err(
                status::refusal(Code::Internal, "failed to parse Supabase response: "@ + error@),
            ),
        },
    }
}

/// Refuses a reply that is no success.
fn require_success(reply: &HttpReply) -> (r: Result<(), Status>)
    ensures
        match supabase_failure(reply@) {
            Some(failure) => r matches Err(status) && status@ == failure,
            None => r is Ok,
        },
{
    match reply {
        HttpReply::NotBuilt(error) => Err(
            Status::with_detail(
                Code::Internal,
                "failed to build Supabase HTTP client: ",
                error.as_str(),
            ),
        ),
        HttpReply::NotSent(error) => Err(
            Status::with_detail(
                Code::Unavailable,
                "Supabase API request failed: ",
                error.as_str(),
            ),
        ),
        HttpReply::Answered { status, status_text, body } => {
            if is_success(*status) {
                return Ok(());
            }
            let mut message = "Supabase API returned ".to_string();
            message.append(status_text.as_str());
            message.append(": ");
            message.append(body.as_str());
            Err(Status { code: Code::Internal, message })
        },
    }
}

/// The value read from the body of a successful reply.
fn read_reply<T>(reply: &HttpReply, parsed: Result<T, String>) -> (r: Result<T, Status>)
    ensures
        status::outcome(r) == supabase_result(reply@, parsed),
{
    match require_success(reply) {
        Err(status) => Err(status),
        Ok(()) => match parsed {
            Ok(value) => Ok(value),
            Err(error) => Err(
                Status::with_detail(
                    Code::Internal,
                    "failed to parse Supabase response: ",
                    error.as_str(),
                ),
            ),
        },
    }
}

/// What the reply to the creation of a branch amounts to.
pub open spec fn creation_result(
    reply: HttpReplyView,
    parsed: Result<BranchResponse, String>,
) -> Result<BranchResponse, StatusView> {
    if answered_with(reply, 401) {
        Err(status::refusal(Code::Unauthenticated, "Supabase access token is invalid or expired"@))
    } else {
        supabase_result(reply, parsed)
    }
}

/// What the reply to the deletion of a branch amounts to.
pub open spec fn deletion_result(reply: HttpReplyView) -> Result<DeleteBranchOutcome, StatusView> {
    if answered_with(reply, 404) {
        Ok(DeleteBranchOutcome::Missing)
    } else {
        match supabase_failure(reply) {
            Some(failure) => Err(failure),
            None => Ok(DeleteBranchOutcome::Deleted),
        }
    }
}

/// What the reply to the creation of a branch amounts to.
pub fn created_branch(reply: &HttpReply, parsed: Result<BranchResponse, String>) -> (r: Result<
    BranchResponse,
    Status,
>)
    ensures
        status::outcome(r) == creation_result(reply@, parsed),
{
    if let HttpReply::Answered { status, .. } = reply {
        if *status == 401 {
            return Err(
                Status::new(Code::Unauthenticated, "Supabase access token is invalid or expired"),
            );
        }
    }
    read_reply(reply, parsed)
}

/// What the reply to the listing of branches amounts to.
pub fn listed_branches(
    reply: &HttpReply,
    parsed: Result<Vec<BranchResponse>, String>,
) -> (r: Result<Vec<BranchResponse>, Status>)
    ensures
        status::outcome(r) == supabase_result(reply@, parsed),
{
    read_reply(reply, parsed)
}

/// What the reply to the deletion of a branch amounts to.
pub fn deleted_branch(reply: &HttpReply) -> (r: Result<DeleteBranchOutcome, Status>)
    ensures
        status::outcome(r) == deletion_result(reply@),
{
    if let HttpReply::Answered { status, .. } = reply {
        if *status == 404 {
            return Ok(DeleteBranchOutcome::Missing);
        }
    }
    match require_success(reply) {
        Err(status) => Err(status),
        Ok(()) => Ok(DeleteBranchOutcome::Deleted),
    }
}

/// What the reply to the listing of API keys amounts to.
pub fn listed_api_keys(
    reply: &HttpReply,
    parsed: Result<Vec<ApiKeyResponse>, String>,
) -> (r: Result<Vec<ApiKeyResponse>, Status>)
    ensures
        status::outcome(r) == supabase_result(reply@, parsed),
{
    read_reply(reply, parsed)
}

/// A key that is selected is one of those that are listed under its type, has the expected
/// prefix, and is shown in full.
pub proof fn law_selected_key_is_listed(
    keys: Seq<ApiKeyView>,
    key_type: Seq<char>,
    prefix: Seq<char>,
)
    requires
        modern_key(keys, key_type, prefix) is Ok,
    ensures
        ({
            let value = modern_key(keys, key_type, prefix)->Ok_0;
            &&& exists|i: int|
                0 <= i < keys.len() && (#[trigger] keys[i]).key_type == Some(key_type)
                    && keys[i].api_key == value
            &&& text::occurs_at(value, prefix, 0)
            &&& !masked(value.skip(prefix.len() as int))
        }),
{
    let of_type = |k: ApiKeyView| k.key_type == Some(key_type);
    let is_default = |k: ApiKeyView| k.name == Some("default"@);
    let candidates = keys_of_type(keys, key_type);
    let key = meant_key(keys, key_type)->Ok_0;
    assert(candidates.contains(key)) by {
        if candidates.len() != 1 {
            let named = default_keys(candidates);
            assert(named.contains(named[0]));
            candidates.lemma_filter_contains_rev(is_default, named[0]);
        }
    }
    let k = choose|k: int| 0 <= k < candidates.len() && candidates[k] == key;
    keys.lemma_filter_pred(of_type, k);
    keys.lemma_filter_contains_rev(of_type, key);
    let i = choose|i: int| 0 <= i < keys.len() && keys[i] == key;
    assert(keys[i].key_type == Some(key_type));
}

/// Keys of other types, such as legacy keys, change nothing, wherever they stand in the list.
pub proof fn law_keys_of_other_types_are_ignored(
    before: Seq<ApiKeyView>,
    other: ApiKeyView,
    behind: Seq<ApiKeyView>,
    key_type: Seq<char>,
    prefix: Seq<char>,
)
    requires
        other.key_type != Some(key_type),
    ensures
        modern_key(before.push(other) + behind, key_type, prefix) == modern_key(
            before + behind,
            key_type,
            prefix,
        ),
{
    let of_type = |k: ApiKeyView| k.key_type == Some(key_type);
    Seq::filter_distributes_over_add(before.push(other), behind, of_type);
    Seq::filter_distributes_over_add(before, behind, of_type);
    assert(before.push(other).filter(of_type) == before.filter(of_type)) by {
        reveal(Seq::filter);
        assert(before.push(other).drop_last() =~= before);
    }
}

/// The messages that a selection can fail with. They are made of the type and the prefix.
pub open spec fn key_failures(key_type: Seq<char>, prefix: Seq<char>) -> Seq<Seq<char>> {
    seq![
        "no modern "@ + key_type + " API key found; create one in the Supabase API Keys settings"@,
        "multiple "@ + key_type + " API keys found without a unique key named 'default'"@,
        "selected "@ + key_type + " API key does not have the expected "@ + prefix + " prefix"@,
        "selected "@ + key_type
            + " API key is masked or incomplete; ensure the Management API response reveals key values"@,
    ]
}

/// A selection that fails tells nothing of the keys: its message is one of four that are made
/// of the type and the prefix that were asked for.
pub proof fn law_key_failure_tells_no_key(
    keys: Seq<ApiKeyView>,
    key_type: Seq<char>,
    prefix: Seq<char>,
)
    requires
        modern_key(keys, key_type, prefix) is Err,
    ensures
        key_failures(key_type, prefix).contains(modern_key(keys, key_type, prefix)->Err_0),
{
    let failures = key_failures(key_type, prefix);
    let message = modern_key(keys, key_type, prefix)->Err_0;
    assert(failures[0] == message || failures[1] == message || failures[2] == message || failures[3]
        == message);
}

} // verus!

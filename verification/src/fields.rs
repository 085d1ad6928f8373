//! What requests and statements say, field by field.

use vstd::prelude::*;

use crate::auth::AuthContext;
use crate::config::ProjectConfig;
use crate::db::{SqlValue, Statement};
use crate::http::{HttpBody, HttpReply, HttpRequest};
use crate::status::{Code, Status};
use crate::{auth, config, db, http, json, text};

verus! {

/// Whether the name at this place of the list has this value.
pub open spec fn says(
    list: Seq<(String, String)>,
    place: int,
    name: Seq<char>,
    value: Seq<char>,
) -> bool {
    &&& 0 <= place < list.len()
    &&& list[place].0@ == name
    &&& list[place].1@ == value
}

pub proof fn lemma_says(list: Seq<(String, String)>, place: int)
    requires
        0 <= place < list.len(),
    ensures
        http::pairs(list).len() == list.len(),
        http::pairs(list)[place].0 == list[place].0@,
        http::pairs(list)[place].1 == list[place].1@,
{
}

/// Whether the statement has this text and these texts for its parameters.
pub open spec fn asks(statement: Statement, sql: Seq<char>, params: Seq<Seq<char>>) -> bool {
    &&& statement.sql@ == sql
    &&& statement.params@.len() == params.len()
    &&& forall|i: int|
        0 <= i < params.len() ==> (#[trigger] statement.params@[i] matches SqlValue::Text(text)
            && text@ == params[i])
}

pub proof fn lemma_asks(statement: Statement, sql: Seq<char>, params: Seq<Seq<char>>)
    requires
        statement@ == db::statement(sql, params.map_values(|p: Seq<char>| db::SqlView::Text(p))),
    ensures
        asks(statement, sql, params),
{
    let views = params.map_values(|p: Seq<char>| db::SqlView::Text(p));
    assert(statement@.params.len() == statement.params@.len());
    assert forall|i: int| 0 <= i < params.len() implies (
    #[trigger] statement.params@[i] matches SqlValue::Text(text) && text@ == params[i]) by {
        assert(statement@.params[i] == statement.params@[i]@);
        assert(views[i] == db::SqlView::Text(params[i]));
    }
}

/// Whether the parameter at this place is this text.
pub open spec fn text_at(statement: Statement, place: int, value: Seq<char>) -> bool {
    0 <= place < statement.params@.len() && (statement.params@[place] matches SqlValue::Text(text)
        && text@ == value)
}

/// Whether the parameter at this place is this number.
pub open spec fn integer_at(statement: Statement, place: int, value: i64) -> bool {
    0 <= place < statement.params@.len() && (statement.params@[place] matches SqlValue::Integer(n)
        && n == value)
}

/// Whether the parameter at this place is these bytes.
pub open spec fn blob_at(statement: Statement, place: int, value: Seq<u8>) -> bool {
    0 <= place < statement.params@.len() && (statement.params@[place] matches SqlValue::Blob(bytes)
        && bytes@ == value)
}

pub proof fn lemma_param(statement: Statement, place: int)
    requires
        0 <= place < statement.params@.len(),
    ensures
        statement@.params.len() == statement.params@.len(),
        statement@.params[place] == statement.params@[place]@,
{
}

/// Whether the request goes to the management service on behalf of the account with this
/// access token.
pub open spec fn to_supabase(request: HttpRequest, token: Seq<char>) -> bool {
    &&& request.headers@.len() == 2
    &&& says(request.headers@, 0, "Authorization"@, "Bearer "@ + token)
    &&& says(request.headers@, 1, "User-Agent"@, "supabased-server"@)
    &&& request.follow_redirects
    &&& request.timeout_seconds == 30
}

/// Whether the request goes to GitHub's API on behalf of the user with this access token.
pub open spec fn to_github(request: HttpRequest, token: Seq<char>) -> bool {
    &&& request.headers@.len() == 3
    &&& says(request.headers@, 0, "Authorization"@, "Bearer "@ + token)
    &&& says(request.headers@, 1, "User-Agent"@, "supabased-server"@)
    &&& says(request.headers@, 2, "Accept"@, "application/vnd.github+json"@)
    &&& request.body matches HttpBody::Empty
    &&& request.timeout_seconds == 30
}

/// Whether the request posts a form of GitHub's device flow.
pub open spec fn to_device_flow(request: HttpRequest) -> bool {
    &&& request.headers@.len() == 2
    &&& says(request.headers@, 0, "User-Agent"@, "supabased-server"@)
    &&& says(request.headers@, 1, "Accept"@, "application/json"@)
    &&& request.follow_redirects
    &&& request.timeout_seconds == 30
}

/// Whether the request asks for a branch of this name with a copy of the data, which is not the
/// default branch.
pub open spec fn for_branch_named(request: HttpRequest, branch_name: Seq<char>) -> bool {
    request.body matches HttpBody::Json(body) && body@ == json::json_object_text(
        seq![
            ("branch_name"@, json::JsonView::Text(branch_name)),
            ("is_default"@, json::JsonView::Flag(false)),
            ("with_data"@, json::JsonView::Flag(true)),
        ],
    )
}

/// Whether the service answered with a status from 200 to 299.
pub open spec fn succeeded(reply: HttpReply) -> bool {
    reply matches HttpReply::Answered { status, .. } && 200 <= status <= 299
}

/// Whether the service answered with this status.
pub open spec fn answered(reply: HttpReply, code: u16) -> bool {
    reply matches HttpReply::Answered { status, .. } && status == code
}

/// Whether it is a refusal with this code and this message.
pub open spec fn refuses<T>(r: Result<T, Status>, code: Code, message: Seq<char>) -> bool {
    r matches Err(status) && status.code == code && status.message@ == message
}

/// Whether a reply of the management service that is no success is told as it came. A status
/// that is told otherwise is `apart`.
pub open spec fn tells_failure<T>(r: Result<T, Status>, reply: HttpReply, apart: u16) -> bool {
    match reply {
        HttpReply::NotBuilt(error) => refuses(
            r,
            Code::Internal,
            "failed to build Supabase HTTP client: "@ + error@,
        ),
        HttpReply::NotSent(error) => refuses(
            r,
            Code::Unavailable,
            "Supabase API request failed: "@ + error@,
        ),
        HttpReply::Answered { status, status_text, body } => status == apart || 200 <= status
            <= 299 || refuses(
            r,
            Code::Internal,
            "Supabase API returned "@ + status_text@ + ": "@ + body@,
        ),
    }
}

/// Whether the project at this place is the first of its name.
pub open spec fn is_first(projects: Seq<ProjectConfig>, name: Seq<char>, place: int) -> bool {
    &&& 0 <= place < projects.len()
    &&& projects[place].name@ == name
    &&& forall|i: int| 0 <= i < place ==> (#[trigger] projects[i]).name@ != name
}

/// Whether no project has this name.
pub open spec fn is_unknown(projects: Seq<ProjectConfig>, name: Seq<char>) -> bool {
    forall|i: int| 0 <= i < projects.len() ==> (#[trigger] projects[i]).name@ != name
}

/// What is found under a name is the first project of that name, and nothing where there is
/// none.
pub proof fn law_first_project_of_a_name_is_meant(
    projects: Seq<ProjectConfig>,
    name: Seq<char>,
    place: int,
)
    ensures
        is_first(projects, name, place) ==> config::first_named(projects, name) == Some(
            projects[place],
        ),
        is_unknown(projects, name) ==> config::first_named(projects, name) is None,
    decreases projects.len(),
{
    if projects.len() > 0 {
        let rest = projects.skip(1);
        assert(forall|i: int| 0 <= i < rest.len() ==> #[trigger] rest[i] == projects[i + 1]);
        law_first_project_of_a_name_is_meant(rest, name, place - 1);
        if is_first(projects, name, place) && place > 0 {
            assert(projects[0].name@ != name);
            assert forall|i: int| 0 <= i < place - 1 implies (#[trigger] rest[i]).name@ != name by {
                assert(projects[i + 1].name@ != name);
            }
            assert(is_first(rest, name, place - 1));
        }
        if is_unknown(projects, name) {
            assert(projects[0].name@ != name);
        }
    }
}

/// Whether one of the permissions of the maker of a request is this one.
pub open spec fn may(ctx: AuthContext, permission: Seq<char>) -> bool {
    exists|i: int| 0 <= i < ctx.permissions@.len() && (#[trigger] ctx.permissions@[i])@ == permission
}

/// Whether the maker of a request may do something to what `owner` owns.
pub open spec fn may_as_owner(
    ctx: AuthContext,
    own: Seq<char>,
    any: Seq<char>,
    owner: Seq<char>,
) -> bool {
    may(ctx, any) || (may(ctx, own) && ctx.identity@ == owner)
}

pub proof fn lemma_may(ctx: AuthContext, permission: Seq<char>)
    ensures
        may(ctx, permission) == auth::permits(ctx@, permission),
{
    let permissions = text::texts(ctx.permissions@);
    if may(ctx, permission) {
        let i = choose|i: int|
            0 <= i < ctx.permissions@.len() && (#[trigger] ctx.permissions@[i])@ == permission;
        assert(permissions[i] == permission);
    }
    if permissions.contains(permission) {
        let i = choose|i: int| 0 <= i < permissions.len() && permissions[i] == permission;
        assert(ctx.permissions@[i]@ == permission);
    }
}

/// Whether the text is white space alone.
pub open spec fn is_blank(s: Seq<char>) -> bool {
    forall|i: int| 0 <= i < s.len() ==> text::white_space(#[trigger] s[i])
}

pub proof fn lemma_blank(s: Seq<char>)
    ensures
        is_blank(s) <==> text::trimmed(s).len() == 0,
{
    let white = |c: char| text::white_space(c);
    let start = text::drop_start(s, white);
    text::lemma_drop_start(s, white);
    text::lemma_drop_end(start, white);
    let from = s.len() - start.len();
    assert(forall|i: int| 0 <= i < start.len() ==> start[i] == #[trigger] s[i + from]);
    if start.len() == 0 {
        assert forall|i: int| 0 <= i < s.len() implies text::white_space(#[trigger] s[i]) by {
            assert(white(s[i]));
        }
    } else {
        assert(!white(start[0]));
        assert(s[from] == start[0]);
        assert(!is_blank(s));
    }
}

/// Whether `inner` is what is left of `s` without the white space at its two ends.
pub open spec fn is_trim_of(inner: Seq<char>, s: Seq<char>) -> bool {
    &&& exists|from: int|
        0 <= from && from + inner.len() <= s.len() && inner == #[trigger] s.subrange(
            from,
            from + inner.len(),
        ) && is_blank(s.take(from)) && is_blank(s.skip(from + inner.len()))
    &&& inner.len() > 0 ==> !text::white_space(inner[0]) && !text::white_space(inner.last())
}

pub proof fn lemma_trim(s: Seq<char>)
    ensures
        is_trim_of(text::trimmed(s), s),
{
    let white = |c: char| text::white_space(c);
    let start = text::drop_start(s, white);
    text::lemma_drop_start(s, white);
    text::lemma_drop_end(start, white);
    let inner = text::trimmed(s);
    let from = s.len() - start.len();
    assert(inner == text::drop_end(start, white));
    assert(forall|i: int| 0 <= i < start.len() ==> start[i] == #[trigger] s[i + from]);
    assert(inner =~= s.subrange(from, from + inner.len()));
    let head = s.take(from);
    let tail = s.skip(from + inner.len());
    assert forall|i: int| 0 <= i < head.len() implies text::white_space(#[trigger] head[i]) by {
        assert(white(s[i]));
    }
    assert forall|i: int| 0 <= i < tail.len() implies text::white_space(#[trigger] tail[i]) by {
        assert(tail[i] == s[i + from + inner.len()]);
        assert(white(start[i + inner.len()]));
    }
    if inner.len() > 0 {
        assert(!white(inner[0]));
        assert(!white(inner.last()));
    }
}

/// The text, or nothing where there is none.
pub open spec fn text_in(s: Option<String>) -> Seq<char> {
    if s is Some {
        s->0@
    } else {
        Seq::empty()
    }
}

} // verus!

//! What the operations on branches do, whatever they are asked for and answered with.

use vstd::prelude::*;

use crate::auth::AuthContext;
use crate::branches::{
    BranchToCreate, BranchToDelete, BranchToFind, BranchToRecord, CredentialsToFetch,
};
use crate::db::{BranchRecord, Statement};
use crate::fields::{
    answered, asks, for_branch_named, is_first, is_unknown, may, may_as_owner, refuses,
    succeeded, tells_failure, text_in, to_supabase,
};
use crate::http::{HttpBody, HttpMethod, HttpReply, HttpRequest};
use crate::messages::{BranchCredentials, BranchInfo, BranchOwnership, Versioned};
use crate::service::SupabasedService;
use crate::status::{Code, Status};
use crate::supabase::{
    ApiKeyResponse, BranchCredentialSet, BranchResponse, SupabaseClient,
};
use crate::{db, fields, http, service, supabase, text};

verus! {

pub proof fn lemma_to_supabase(request: HttpRequest, token: Seq<char>)
    requires
        http::pairs(request.headers@) == supabase::supabase_headers(token),
        request.follow_redirects,
        request.timeout_seconds == 30,
    ensures
        to_supabase(request, token),
{
    assert(http::pairs(request.headers@).len() == request.headers@.len());
    fields::lemma_says(request.headers@, 0);
    fields::lemma_says(request.headers@, 1);
}

/// A request that creates a branch is posted to the branches of the project, on behalf of the
/// account, and asks for a branch of the name that was given, with data.
pub proof fn law_creation_request(
    client: SupabaseClient,
    project_ref: &str,
    branch_name: &str,
    r: HttpRequest,
)
    requires
        call_ensures(SupabaseClient::create_branch, (&client, project_ref, branch_name), r),
    ensures
        r.method == HttpMethod::Post,
        r.url@ == "https://api.supabase.com/v1/projects/"@ + project_ref@ + "/branches"@,
        to_supabase(r, client.access_token()),
        for_branch_named(r, branch_name@),
{
    assert(r@.headers == http::pairs(r.headers@));
    lemma_to_supabase(r, client.access_token());
}

/// A request that lists branches asks for those of the project, on behalf of the account.
pub proof fn law_listing_request(client: SupabaseClient, project_ref: &str, r: HttpRequest)
    requires
        call_ensures(SupabaseClient::list_branches, (&client, project_ref), r),
    ensures
        r.method == HttpMethod::Get,
        r.url@ == "https://api.supabase.com/v1/projects/"@ + project_ref@ + "/branches"@,
        to_supabase(r, client.access_token()),
        r.body matches HttpBody::Empty,
{
    assert(r@.headers == http::pairs(r.headers@));
    lemma_to_supabase(r, client.access_token());
}

/// A request that deletes a branch names the one branch with the reference, on behalf of the
/// account.
pub proof fn law_deletion_request(client: SupabaseClient, branch_ref: &str, r: HttpRequest)
    requires
        call_ensures(SupabaseClient::delete_branch, (&client, branch_ref), r),
    ensures
        r.method == HttpMethod::Delete,
        r.url@ == "https://api.supabase.com/v1/branches/"@ + branch_ref@,
        to_supabase(r, client.access_token()),
        r.body matches HttpBody::Empty,
{
    assert(r@.headers == http::pairs(r.headers@));
    lemma_to_supabase(r, client.access_token());
}

/// A request for the keys of a branch asks for their values, on behalf of the account.
pub proof fn law_keys_request(client: SupabaseClient, branch_ref: &str, r: HttpRequest)
    requires
        call_ensures(SupabaseClient::get_api_keys, (&client, branch_ref), r),
    ensures
        r.method == HttpMethod::Get,
        r.url@ == "https://api.supabase.com/v1/projects/"@ + branch_ref@ + "/api-keys?reveal=true"@,
        to_supabase(r, client.access_token()),
        r.body matches HttpBody::Empty,
{
    assert(r@.headers == http::pairs(r.headers@));
    lemma_to_supabase(r, client.access_token());
}

/// A branch that is asked for is asked of the configured project, under the name that the maker
/// of the request has given, and is theirs.
pub proof fn law_branch_is_asked_for_as_named(
    service: SupabasedService,
    ctx: Option<AuthContext>,
    project_name: &str,
    branch_name: &str,
    place: int,
    r: Result<BranchToCreate, Status>,
)
    requires
        call_ensures(
            SupabasedService::create_branch,
            (&service, ctx, project_name, branch_name),
            r,
        ),
        is_first(service.config.projects@, project_name@, place),
        r is Ok,
    ensures
        ({
            let asked = r->Ok_0;
            let project = service.config.projects@[place];
            &&& ctx matches Some(maker)
            &&& may(maker, "branches.create"@)
            &&& asked.identity@ == maker.identity@
            &&& asked.project_name@ == project_name@
            &&& asked.branch_name@ == branch_name@
            &&& asked.project_ref@ == project.project_ref@
            &&& asked.request.method == HttpMethod::Post
            &&& asked.request.url@ == "https://api.supabase.com/v1/projects/"@
                + project.project_ref@ + "/branches"@
            &&& to_supabase(asked.request, service.supabase_client.access_token())
            &&& for_branch_named(asked.request, branch_name@)
        }),
{
    fields::law_first_project_of_a_name_is_meant(
        service.config.projects@,
        project_name@,
        place,
    );
    let asked = r->Ok_0;
    fields::lemma_may(ctx->0, "branches.create"@);
    assert(asked@.request.headers == http::pairs(asked.request.headers@));
    lemma_to_supabase(asked.request, service.supabase_client.access_token());
}

/// A branch can be asked for by whoever may create branches, in every configured project; others
/// are told why not.
pub proof fn law_branch_creation_is_let_through_or_refused(
    service: SupabasedService,
    ctx: Option<AuthContext>,
    project_name: &str,
    branch_name: &str,
    place: int,
    r: Result<BranchToCreate, Status>,
)
    requires
        call_ensures(
            SupabasedService::create_branch,
            (&service, ctx, project_name, branch_name),
            r,
        ),
    ensures
        ctx is None ==> refuses(r, Code::Unauthenticated, "authentication required"@),
        ctx matches Some(maker) ==> !may(maker, "branches.create"@) ==> refuses(
            r,
            Code::PermissionDenied,
            "missing required permission: branches.create"@,
        ),
        ctx matches Some(maker) ==> may(maker, "branches.create"@) && is_unknown(
            service.config.projects@,
            project_name@,
        ) ==> refuses(r, Code::NotFound, "unknown project: "@ + project_name@),
        ctx matches Some(maker) ==> may(maker, "branches.create"@) && is_first(
            service.config.projects@,
            project_name@,
            place,
        ) ==> r is Ok,
{
    fields::law_first_project_of_a_name_is_meant(
        service.config.projects@,
        project_name@,
        place,
    );
    if ctx is Some {
        fields::lemma_may(ctx->0, "branches.create"@);
    }
    reveal_strlit("missing required permission: ");
    reveal_strlit("branches.create");
    reveal_strlit("missing required permission: branches.create");
    assert("missing required permission: "@ + "branches.create"@
        =~= "missing required permission: branches.create"@);
}

/// Whether the service has described a branch of its own that was made of the project with the
/// reference `parent`.
pub open spec fn is_child(response: BranchResponse, parent: Seq<char>) -> bool {
    &&& response.project_ref matches Some(branch_ref)
    &&& branch_ref@.len() > 0
    &&& branch_ref@ != parent
    &&& response.parent_project_ref matches Some(made_of)
    &&& made_of@ == parent
    &&& response.is_default == Some(false)
}

/// A branch is filed exactly where the service has answered with success and has described a
/// branch of the project that it was asked of; it is filed under the name and the project that
/// were asked for, as the maker's, with the reference that the service has given, and the maker is
/// told of it as the service has described it.
pub proof fn law_created_branch_is_filed_as_asked_for(
    service: SupabasedService,
    asked: BranchToCreate,
    reply: HttpReply,
    parsed: Result<BranchResponse, String>,
    r: Result<BranchToRecord, Status>,
)
    requires
        call_ensures(SupabasedService::branch_created, (&service, asked, &reply, parsed), r),
    ensures
        tells_failure(r, reply, 401),
        succeeded(reply) ==> (parsed matches Err(error) ==> refuses(
            r,
            Code::Internal,
            "failed to parse Supabase response: "@ + error@,
        )),
        r is Ok <==> succeeded(reply) && parsed is Ok && is_child(
            parsed->Ok_0,
            asked.project_ref@,
        ),
        r matches Ok(created) ==> {
            let response = parsed->Ok_0;
            &&& asks(
                created.record,
                "INSERT INTO branches (branch_name, project_name, creator_identity, branch_ref) VALUES (?1, ?2, ?3, ?4)"@,
                seq![
                    asked.branch_name@,
                    asked.project_name@,
                    asked.identity@,
                    response.project_ref->0@,
                ],
            )
            &&& created.branch.branch_name@ == asked.branch_name@
            &&& created.branch.project_name@ == asked.project_name@
            &&& created.branch.status@ == text_in(response.status)
            &&& created.branch.created_at@ == text_in(response.created_at)
            &&& created.branch.ownership == BranchOwnership::Yours
        },
        answered(reply, 401) ==> refuses(
            r,
            Code::Unauthenticated,
            "Supabase access token is invalid or expired"@,
        ),
{
    if r is Ok {
        let created = r->Ok_0;
        let params = seq![
            asked.branch_name@,
            asked.project_name@,
            asked.identity@,
            parsed->Ok_0.project_ref->0@,
        ];
        assert(created@.record.params =~= params.map_values(
            |p: Seq<char>| db::SqlView::Text(p),
        ));
        fields::lemma_asks(created.record, db::INSERT_BRANCH@, params);
        assert(created@.branch == created.branch@);
    }
}

/// A branch that is no branch of the project is refused for what is wrong with its reference.
pub proof fn law_unfit_branch_is_refused(
    service: SupabasedService,
    asked: BranchToCreate,
    reply: HttpReply,
    response: BranchResponse,
    parent: &str,
    checked: Result<String, Status>,
    r: Result<BranchToRecord, Status>,
)
    requires
        succeeded(reply),
        parent@ == asked.project_ref@,
        call_ensures(service::validated_branch_ref, (&response, parent), checked),
        call_ensures(SupabasedService::branch_created, (&service, asked, &reply, Ok(response)), r),
    ensures
        checked matches Err(status) ==> refuses(r, status.code, status.message@),
{
}

/// Once the branch is filed, the maker is told of it under the version of the configuration;
/// where it could not be filed, they are told that.
pub proof fn law_maker_is_told_of_the_filed_branch(
    service: SupabasedService,
    created: BranchToRecord,
    recorded: Result<(), String>,
    r: Result<Versioned<BranchInfo>, Status>,
)
    requires
        call_ensures(SupabasedService::branch_recorded, (&service, created, recorded), r),
    ensures
        recorded is Ok ==> (r matches Ok(reply) && {
            &&& reply.message.branch_name@ == created.branch.branch_name@
            &&& reply.message.project_name@ == created.branch.project_name@
            &&& reply.message.status@ == created.branch.status@
            &&& reply.message.created_at@ == created.branch.created_at@
            &&& reply.message.ownership == created.branch.ownership
            &&& reply.config_version@ == service.config_hash@
        }),
        recorded matches Err(error) ==> refuses(
            r,
            Code::Internal,
            "failed to record branch: "@ + error@,
        ),
{
    if r is Ok {
        assert(r->Ok_0@.message == r->Ok_0.message@);
        assert(created@.branch == created.branch@);
    }
}

/// The name under which a branch is asked for is the one in the field `branch_name` of what the
/// service is sent, in the record that is filed, and in what the maker is told.
pub proof fn law_name_reaches_the_service_and_the_record(
    service: SupabasedService,
    ctx: Option<AuthContext>,
    project_name: &str,
    branch_name: &str,
    asked: BranchToCreate,
    reply: HttpReply,
    parsed: Result<BranchResponse, String>,
    created: BranchToRecord,
)
    requires
        call_ensures(
            SupabasedService::create_branch,
            (&service, ctx, project_name, branch_name),
            Ok(asked),
        ),
        call_ensures(
            SupabasedService::branch_created,
            (&service, asked, &reply, parsed),
            Ok(created),
        ),
    ensures
        for_branch_named(asked.request, branch_name@),
        created.record.params@[0] matches db::SqlValue::Text(filed) && filed@ == branch_name@,
        created.record.params@[1] matches db::SqlValue::Text(filed) && filed@ == project_name@,
        created.branch.branch_name@ == branch_name@,
{
    law_created_branch_is_filed_as_asked_for(service, asked, reply, parsed, Ok(created));
    let params = seq![
        asked.branch_name@,
        asked.project_name@,
        asked.identity@,
        parsed->Ok_0.project_ref->0@,
    ];
    assert(created.record.params@.len() == params.len());
    assert(params[0] == branch_name@ && params[1] == project_name@);
}

/// A request that concerns a branch is looked up under the name and the project that were given.
pub proof fn law_branch_is_looked_up_as_named(
    service: SupabasedService,
    ctx: Option<AuthContext>,
    project_name: &str,
    branch_name: &str,
    r: Result<BranchToFind, Status>,
)
    requires
        call_ensures(
            SupabasedService::delete_branch,
            (&service, ctx, project_name, branch_name),
            r,
        ) || call_ensures(
            SupabasedService::get_branch_credentials,
            (&service, ctx, project_name, branch_name),
            r,
        ),
    ensures
        ctx is None ==> refuses(r, Code::Unauthenticated, "authentication required"@),
        ctx matches Some(maker) ==> (r matches Ok(sought) && {
            &&& sought.ctx.identity@ == maker.identity@
            &&& text::texts(sought.ctx.permissions@) == text::texts(maker.permissions@)
            &&& sought.project_name@ == project_name@
            &&& sought.branch_name@ == branch_name@
            &&& asks(
                sought.lookup,
                "SELECT branch_name, project_name, creator_identity, branch_ref, created_at FROM branches WHERE branch_name = ?1 AND project_name = ?2"@,
                seq![branch_name@, project_name@],
            )
        }),
{
    if ctx is Some {
        let sought = r->Ok_0;
        let params = seq![branch_name@, project_name@];
        assert(sought@.lookup.params =~= params.map_values(|p: Seq<char>| db::SqlView::Text(p)));
        fields::lemma_asks(sought.lookup, db::SELECT_BRANCH@, params);
        assert(sought@.ctx == sought.ctx@);
    }
}

proof fn lemma_same_maker(ctx: AuthContext, own: Seq<char>, any: Seq<char>, owner: Seq<char>)
    ensures
        may_as_owner(ctx, own, any, owner) == crate::auth::permits_as_owner(ctx@, own, any, owner),
{
    fields::lemma_may(ctx, own);
    fields::lemma_may(ctx, any);
}

/// A branch is to be deleted exactly where it is filed and its maker may delete it; what the
/// service is asked to delete is the branch with the reference that is filed.
pub proof fn law_filed_branch_is_what_is_deleted(
    service: SupabasedService,
    sought: BranchToFind,
    found: Result<Option<BranchRecord>, String>,
    r: Result<BranchToDelete, Status>,
)
    requires
        call_ensures(SupabasedService::branch_to_delete_found, (&service, sought, found), r),
    ensures
        r is Ok <==> (found matches Ok(Some(record)) && may_as_owner(
            sought.ctx,
            "branches.delete_own"@,
            "branches.delete_any"@,
            record.creator_identity@,
        )),
        r matches Ok(asked) ==> (found matches Ok(Some(record)) && {
            &&& asked.project_name@ == sought.project_name@
            &&& asked.branch_name@ == sought.branch_name@
            &&& asked.branch_ref@ == record.branch_ref@
            &&& asked.request.method == HttpMethod::Delete
            &&& asked.request.url@ == "https://api.supabase.com/v1/branches/"@
                + record.branch_ref@
            &&& to_supabase(asked.request, service.supabase_client.access_token())
            &&& asked.request.body matches HttpBody::Empty
        }),
        found matches Ok(None) ==> refuses(
            r,
            Code::NotFound,
            "branch '"@ + sought.branch_name@ + "' not found in project '"@ + sought.project_name@
                + "'"@,
        ),
        found matches Ok(Some(_)) && r is Err ==> refuses(
            r,
            Code::PermissionDenied,
            "missing required permission: "@ + ("branches.delete_any"@ + " or "@ + "branches.delete_own"@
                + " (as owner)"@),
        ),
        found matches Err(error) ==> refuses(r, Code::Internal, "database error: "@ + error@),
{
    if let Ok(Some(record)) = found {
        lemma_same_maker(
            sought.ctx,
            "branches.delete_own"@,
            "branches.delete_any"@,
            record.creator_identity@,
        );
    }
    assert(sought@.ctx == sought.ctx@);
    if r is Ok {
        let asked = r->Ok_0;
        assert(asked@.request.headers == http::pairs(asked.request.headers@));
        lemma_to_supabase(asked.request, service.supabase_client.access_token());
    }
}

/// A branch is forgotten, under its name and its project, exactly where the service has deleted
/// it; where the service did not know it, the maker is told so and it stays filed.
pub proof fn law_deleted_branch_is_forgotten_as_named(
    service: SupabasedService,
    asked: BranchToDelete,
    reply: HttpReply,
    r: Result<Statement, Status>,
)
    requires
        call_ensures(SupabasedService::branch_deleted, (&service, asked, &reply), r),
    ensures
        tells_failure(r, reply, 404),
        r is Ok <==> succeeded(reply),
        r matches Ok(forget) ==> asks(
            forget,
            "DELETE FROM branches WHERE branch_name = ?1 AND project_name = ?2"@,
            seq![asked.branch_name@, asked.project_name@],
        ),
        answered(reply, 404) ==> refuses(
            r,
            Code::NotFound,
            "Supabase branch '"@ + asked.branch_ref@ + "' was not found"@,
        ),
{
    if r is Ok {
        let params = seq![asked.branch_name@, asked.project_name@];
        assert(r->Ok_0@.params =~= params.map_values(|p: Seq<char>| db::SqlView::Text(p)));
        fields::lemma_asks(r->Ok_0, db::DELETE_BRANCH@, params);
    }
}

/// Somebody whose branch was deleted is told so, under the version of the configuration.
pub proof fn law_deletion_is_told(
    service: SupabasedService,
    forgotten: Result<(), String>,
    r: Result<Versioned<bool>, Status>,
)
    requires
        call_ensures(SupabasedService::branch_forgotten, (&service, forgotten), r),
    ensures
        forgotten is Ok ==> (r matches Ok(reply) && reply.message && reply.config_version@
            == service.config_hash@),
        forgotten matches Err(error) ==> refuses(r, Code::Internal, "database error: "@ + error@),
{
}

/// The keys of a branch are asked for exactly where it is filed and the maker of the request may
/// have them; what is asked for are the keys of the branch with the reference that is filed.
pub proof fn law_keys_are_asked_for_of_the_filed_branch(
    service: SupabasedService,
    sought: BranchToFind,
    found: Result<Option<BranchRecord>, String>,
    r: Result<CredentialsToFetch, Status>,
)
    requires
        call_ensures(
            SupabasedService::branch_with_credentials_found,
            (&service, sought, found),
            r,
        ),
    ensures
        r is Ok <==> (found matches Ok(Some(record)) && may_as_owner(
            sought.ctx,
            "branches.get_credentials_own"@,
            "branches.get_credentials_any"@,
            record.creator_identity@,
        )),
        r matches Ok(asked) ==> (found matches Ok(Some(record)) && {
            &&& asked.project_name@ == sought.project_name@
            &&& asked.branch_name@ == sought.branch_name@
            &&& asked.branch_ref@ == record.branch_ref@
            &&& asked.request.method == HttpMethod::Get
            &&& asked.request.url@ == "https://api.supabase.com/v1/projects/"@
                + record.branch_ref@ + "/api-keys?reveal=true"@
            &&& to_supabase(asked.request, service.supabase_client.access_token())
            &&& asked.request.body matches HttpBody::Empty
        }),
        found matches Ok(None) ==> refuses(
            r,
            Code::NotFound,
            "branch '"@ + sought.branch_name@ + "' not found in project '"@ + sought.project_name@
                + "'"@,
        ),
        found matches Ok(Some(_)) && r is Err ==> refuses(
            r,
            Code::PermissionDenied,
            "missing required permission: "@ + ("branches.get_credentials_any"@ + " or "@ + "branches.get_credentials_own"@
                + " (as owner)"@),
        ),
        found matches Err(error) ==> refuses(r, Code::Internal, "database error: "@ + error@),
{
    if let Ok(Some(record)) = found {
        lemma_same_maker(
            sought.ctx,
            "branches.get_credentials_own"@,
            "branches.get_credentials_any"@,
            record.creator_identity@,
        );
    }
    assert(sought@.ctx == sought.ctx@);
    if r is Ok {
        let asked = r->Ok_0;
        assert(asked@.request.headers == http::pairs(asked.request.headers@));
        lemma_to_supabase(asked.request, service.supabase_client.access_token());
    }
}

/// Whether the key at this place is of the type.
pub open spec fn of_type(keys: Seq<ApiKeyResponse>, place: int, key_type: Seq<char>) -> bool {
    0 <= place < keys.len() && (keys[place].key_type matches Some(found) && found@ == key_type)
}

/// Whether the key at this place is of the type and bears the name `default`.
pub open spec fn default_of_type(
    keys: Seq<ApiKeyResponse>,
    place: int,
    key_type: Seq<char>,
) -> bool {
    of_type(keys, place, key_type) && (keys[place].name matches Some(name) && name@ == "default"@)
}

/// Whether the key at this place is the one that is meant: the only one of its type, or else the
/// only one of its type that bears the name `default`.
pub open spec fn is_meant(keys: Seq<ApiKeyResponse>, place: int, key_type: Seq<char>) -> bool {
    ||| of_type(keys, place, key_type) && forall|i: int| #[trigger]
        of_type(keys, i, key_type) ==> i == place
    ||| default_of_type(keys, place, key_type) && forall|i: int| #[trigger]
        default_of_type(keys, i, key_type) ==> i == place
}

/// Whether the value begins with the prefix and goes on behind it with a key that is shown in
/// full.
pub open spec fn is_shown(value: Seq<char>, prefix: Seq<char>) -> bool {
    &&& value.len() > prefix.len()
    &&& value.take(prefix.len() as int) == prefix
    &&& forall|i: int|
        prefix.len() <= i < value.len() ==> #[trigger] value[i] != '*' && value[i] != '\u{2026}'
            && value[i] != '\u{2022}'
    &&& forall|i: int|
        prefix.len() <= i < value.len() - 2 ==> !(#[trigger] value[i] == '.' && value[i + 1] == '.'
            && value[i + 2] == '.')
}

proof fn lemma_shown(value: Seq<char>, prefix: Seq<char>)
    requires
        text::occurs_at(value, prefix, 0),
    ensures
        supabase::masked(value.skip(prefix.len() as int)) == !is_shown(value, prefix),
{
    reveal_strlit("...");
    let suffix = value.skip(prefix.len() as int);
    let n = prefix.len() as int;
    assert(value.take(n) =~= value.subrange(0, n));
    assert(forall|i: int| n <= i < value.len() ==> #[trigger] value[i] == suffix[i - n]);
    if supabase::masked(suffix) && is_shown(value, prefix) {
        if suffix.contains('*') {
            let i = choose|i: int| 0 <= i < suffix.len() && suffix[i] == '*';
            assert(value[i + n] == '*');
        } else if suffix.contains('\u{2026}') {
            let i = choose|i: int| 0 <= i < suffix.len() && suffix[i] == '\u{2026}';
            assert(value[i + n] == '\u{2026}');
        } else if suffix.contains('\u{2022}') {
            let i = choose|i: int| 0 <= i < suffix.len() && suffix[i] == '\u{2022}';
            assert(value[i + n] == '\u{2022}');
        } else if text::occurs(suffix, "..."@) {
            let i = choose|i: int| #[trigger] text::occurs_at(suffix, "..."@, i);
            let found = suffix.subrange(i, i + 3);
            assert(found[0] == '.' && found[1] == '.' && found[2] == '.');
            assert(value[i + n] == '.' && value[i + n + 1] == '.' && value[i + n + 2] == '.');
        }
    }
    if !supabase::masked(suffix) {
        assert forall|i: int| n <= i < value.len() implies #[trigger] value[i] != '*' && value[i]
            != '\u{2026}' && value[i] != '\u{2022}' by {
            assert(suffix[i - n] == value[i]);
            assert(suffix.contains(suffix[i - n]));
        }
        assert forall|i: int| n <= i < value.len() - 2 implies !(#[trigger] value[i] == '.' && value[i
            + 1] == '.' && value[i + 2] == '.') by {
            if value[i] == '.' && value[i + 1] == '.' && value[i + 2] == '.' {
                assert(suffix[i - n] == '.' && suffix[i - n + 1] == '.' && suffix[i - n + 2] == '.');
                assert(suffix.subrange(i - n, i - n + 3) =~= "..."@);
                assert(text::occurs_at(suffix, "..."@, i - n));
            }
        }
        assert(is_shown(value, prefix));
    }
}

proof fn lemma_chosen<A>(items: Seq<A>, keep: spec_fn(A) -> bool, place: int)
    requires
        0 <= place < items.len(),
        keep(items[place]),
        forall|i: int| 0 <= i < items.len() && keep(#[trigger] items[i]) ==> i == place,
    ensures
        items.filter(keep) == seq![items[place]],
    decreases items.len(),
{
    reveal(Seq::filter);
    let before = items.drop_last();
    assert(forall|i: int| 0 <= i < before.len() ==> #[trigger] before[i] == items[i]);
    if place == items.len() - 1 {
        lemma_none_chosen(before, keep);
        assert(items.filter(keep) =~= seq![items[place]]);
    } else {
        lemma_chosen(before, keep, place);
        assert(!keep(items[items.len() - 1]));
    }
}

proof fn lemma_none_chosen<A>(items: Seq<A>, keep: spec_fn(A) -> bool)
    requires
        forall|i: int| 0 <= i < items.len() ==> !keep(#[trigger] items[i]),
    ensures
        items.filter(keep) == Seq::<A>::empty(),
    decreases items.len(),
{
    reveal(Seq::filter);
    if items.len() > 0 {
        let before = items.drop_last();
        assert(forall|i: int| 0 <= i < before.len() ==> #[trigger] before[i] == items[i]);
        lemma_none_chosen(before, keep);
        assert(!keep(items[items.len() - 1]));
    }
}

proof fn lemma_chosen_counts<A>(items: Seq<A>, keep: spec_fn(A) -> bool, i: int, j: int)
    requires
        0 <= i < j < items.len(),
        keep(items[i]),
        keep(items[j]),
    ensures
        items.filter(keep).len() >= 2,
    decreases items.len(),
{
    reveal(Seq::filter);
    let before = items.drop_last();
    if j == items.len() - 1 {
        before.lemma_filter_contains(keep, i);
        assert(before[i] == items[i]);
        assert(before.filter(keep).len() > 0);
    } else {
        assert(before[i] == items[i] && before[j] == items[j]);
        lemma_chosen_counts(before, keep, i, j);
    }
}

proof fn lemma_filter_twice<A>(
    items: Seq<A>,
    first: spec_fn(A) -> bool,
    second: spec_fn(A) -> bool,
)
    ensures
        items.filter(first).filter(second) == items.filter(|a: A| first(a) && second(a)),
    decreases items.len(),
{
    reveal(Seq::filter);
    let both = |a: A| first(a) && second(a);
    if items.len() > 0 {
        let before = items.drop_last();
        lemma_filter_twice(before, first, second);
        if first(items.last()) {
            assert(items.filter(first).drop_last() =~= before.filter(first));
        }
    }
}

/// The key that is selected is the one that is meant, where it has the expected prefix and is
/// shown in full; it is refused where it has not or is not.
pub proof fn law_meant_key_is_selected(
    keys: &[ApiKeyResponse],
    key_type: &str,
    prefix: &str,
    place: int,
    r: Result<&str, Status>,
)
    requires
        call_ensures(supabase::select_modern_key, (keys, key_type, prefix), r),
        is_meant(keys@, place, key_type@),
    ensures
        r is Ok <==> is_shown(keys@[place].api_key@, prefix@),
        r matches Ok(key) ==> key@ == keys@[place].api_key@,
        r matches Err(status) ==> status.code == Code::Internal,
{
    lemma_meant_key(keys@, key_type@, place);
    let value = keys@[place].api_key@;
    if text::occurs_at(value, prefix@, 0) {
        lemma_shown(value, prefix@);
    } else if is_shown(value, prefix@) {
        assert(value.subrange(0, prefix@.len() as int) =~= value.take(prefix@.len() as int));
    }
}

/// Without a key of the type nothing is selected.
pub proof fn law_no_key_no_selection(
    keys: &[ApiKeyResponse],
    key_type: &str,
    prefix: &str,
    r: Result<&str, Status>,
)
    requires
        call_ensures(supabase::select_modern_key, (keys, key_type, prefix), r),
        forall|i: int| !#[trigger] of_type(keys@, i, key_type@),
    ensures
        refuses(
            r,
            Code::Internal,
            "no modern "@ + key_type@
                + " API key found; create one in the Supabase API Keys settings"@,
        ),
{
    let views = supabase::key_views(keys@);
    let chosen = |k: supabase::ApiKeyView| k.key_type == Some(key_type@);
    assert forall|i: int| 0 <= i < views.len() implies !chosen(#[trigger] views[i]) by {
        assert(views[i] == keys@[i]@);
        assert(!of_type(keys@, i, key_type@));
    }
    lemma_none_chosen(views, chosen);
}

/// Of a key that is meant and not good it is told what is wrong with it.
pub proof fn law_unusable_key_is_told(
    keys: &[ApiKeyResponse],
    key_type: &str,
    prefix: &str,
    place: int,
    r: Result<&str, Status>,
)
    requires
        call_ensures(supabase::select_modern_key, (keys, key_type, prefix), r),
        is_meant(keys@, place, key_type@),
        !is_shown(keys@[place].api_key@, prefix@),
    ensures
        ({
            let value = keys@[place].api_key@;
            let n = prefix@.len() as int;
            if value.len() >= n && value.take(n) == prefix@ {
                refuses(
                    r,
                    Code::Internal,
                    "selected "@ + key_type@
                        + " API key is masked or incomplete; ensure the Management API response reveals key values"@,
                )
            } else {
                refuses(
                    r,
                    Code::Internal,
                    "selected "@ + key_type@ + " API key does not have the expected "@ + prefix@
                        + " prefix"@,
                )
            }
        }),
{
    let views = supabase::key_views(keys@);
    lemma_meant_key(keys@, key_type@, place);
    let value = keys@[place].api_key@;
    let n = prefix@.len() as int;
    assert(views[place] == keys@[place]@);
    if value.len() >= n {
        assert(value.subrange(0, n) =~= value.take(n));
    }
    if text::occurs_at(value, prefix@, 0) {
        lemma_shown(value, prefix@);
    }
}

/// Where several keys are of the type and it is not a single one of them that bears the name
/// `default`, none is selected.
pub proof fn law_ambiguous_keys_are_refused(
    keys: &[ApiKeyResponse],
    key_type: &str,
    prefix: &str,
    one: int,
    other: int,
    r: Result<&str, Status>,
)
    requires
        call_ensures(supabase::select_modern_key, (keys, key_type, prefix), r),
        one < other,
        of_type(keys@, one, key_type@),
        of_type(keys@, other, key_type@),
        (default_of_type(keys@, one, key_type@) && default_of_type(keys@, other, key_type@)) || (
        forall|i: int| !#[trigger] default_of_type(keys@, i, key_type@)),
    ensures
        refuses(
            r,
            Code::Internal,
            "multiple "@ + key_type@ + " API keys found without a unique key named 'default'"@,
        ),
{
    let views = supabase::key_views(keys@);
    let chosen = |k: supabase::ApiKeyView| k.key_type == Some(key_type@);
    let named = |k: supabase::ApiKeyView| k.name == Some("default"@);
    let both = |k: supabase::ApiKeyView| chosen(k) && named(k);
    assert forall|i: int| 0 <= i < views.len() implies chosen(#[trigger] views[i]) == of_type(
        keys@,
        i,
        key_type@,
    ) && both(views[i]) == default_of_type(keys@, i, key_type@) by {
        assert(views[i] == keys@[i]@);
    }
    assert(chosen(views[one]) && chosen(views[other]));
    lemma_chosen_counts(views, chosen, one, other);
    lemma_filter_twice(views, chosen, named);
    if default_of_type(keys@, one, key_type@) && default_of_type(keys@, other, key_type@) {
        assert(both(views[one]) && both(views[other]));
        lemma_chosen_counts(views, both, one, other);
    } else {
        assert forall|i: int| 0 <= i < views.len() implies !both(#[trigger] views[i]) by {
            assert(!default_of_type(keys@, i, key_type@));
        }
        lemma_none_chosen(views, both);
    }
}

/// The credentials in a list of keys are the publishable key and the secret key that are meant,
/// with the address that the reference gives.
pub proof fn law_credentials_are_the_meant_keys(
    keys: &[ApiKeyResponse],
    branch_ref: &str,
    publishable: int,
    secret: int,
    r: Result<BranchCredentialSet, Status>,
)
    requires
        call_ensures(supabase::extract_credentials, (keys, branch_ref), r),
        is_meant(keys@, publishable, "publishable"@),
        is_meant(keys@, secret, "secret"@),
    ensures
        r is Ok <==> is_shown(keys@[publishable].api_key@, "sb_publishable_"@) && is_shown(
            keys@[secret].api_key@,
            "sb_secret_"@,
        ),
        r matches Ok(set) ==> set.api_url@ == "https://"@ + branch_ref@ + ".supabase.co"@
            && set.publishable_key@ == keys@[publishable].api_key@ && set.secret_key@
            == keys@[secret].api_key@,
{
    lemma_meant(keys@, "publishable"@, "sb_publishable_"@, publishable);
    lemma_meant(keys@, "secret"@, "sb_secret_"@, secret);
}

/// The credentials in a list of keys are the two keys that are selected of it; where one is not
/// selected, they are refused for that, for the publishable key first.
pub proof fn law_credentials_are_the_selected_keys(
    keys: &[ApiKeyResponse],
    branch_ref: &str,
    kinds: (&str, &str),
    prefixes: (&str, &str),
    publishable: Result<&str, Status>,
    secret: Result<&str, Status>,
    r: Result<BranchCredentialSet, Status>,
)
    requires
        kinds.0@ == "publishable"@ && prefixes.0@ == "sb_publishable_"@,
        kinds.1@ == "secret"@ && prefixes.1@ == "sb_secret_"@,
        call_ensures(supabase::select_modern_key, (keys, kinds.0, prefixes.0), publishable),
        call_ensures(supabase::select_modern_key, (keys, kinds.1, prefixes.1), secret),
        call_ensures(supabase::extract_credentials, (keys, branch_ref), r),
    ensures
        publishable matches Err(status) ==> refuses(r, status.code, status.message@),
        publishable is Ok ==> (secret matches Err(status) ==> refuses(
            r,
            status.code,
            status.message@,
        )),
        publishable is Ok && secret is Ok ==> (r matches Ok(set) && set.api_url@ == "https://"@
            + branch_ref@ + ".supabase.co"@ && set.publishable_key@ == publishable->Ok_0@
            && set.secret_key@ == secret->Ok_0@),
{
}

/// The credentials that are fetched are those in the list of keys, and are refused as these are.
pub proof fn law_fetched_credentials_are_those_in_the_list(
    service: SupabasedService,
    asked: CredentialsToFetch,
    reply: HttpReply,
    listed: Vec<ApiKeyResponse>,
    keys: &[ApiKeyResponse],
    branch_ref: &str,
    set: Result<BranchCredentialSet, Status>,
    r: Result<Versioned<BranchCredentials>, Status>,
)
    requires
        succeeded(reply),
        keys@ == listed@,
        branch_ref@ == asked.branch_ref@,
        call_ensures(supabase::extract_credentials, (keys, branch_ref), set),
        call_ensures(
            SupabasedService::credentials_fetched,
            (&service, asked, &reply, Ok(listed)),
            r,
        ),
    ensures
        set matches Err(status) ==> refuses(r, status.code, status.message@),
        set matches Ok(creds) ==> (r matches Ok(given) && {
            &&& given.message.branch_name@ == asked.branch_name@
            &&& given.message.project_name@ == asked.project_name@
            &&& given.message.api_url@ == creds.api_url@
            &&& given.message.publishable_key@ == creds.publishable_key@
            &&& given.message.anon_key@ == creds.publishable_key@
            &&& given.message.secret_key@ == creds.secret_key@
            &&& given.message.service_role_key@ == creds.secret_key@
            &&& given.config_version@ == service.config_hash@
        }),
{
    if let Ok(given) = r {
        assert(given@.message == given.message@);
    }
}

/// The credentials of a branch are those of the branch that was asked for: its name, its project,
/// the address that its reference gives, the publishable key that is meant under both its names,
/// and the secret key that is meant under both its names.
pub proof fn law_credentials_are_those_of_the_branch(
    service: SupabasedService,
    asked: CredentialsToFetch,
    reply: HttpReply,
    parsed: Result<Vec<ApiKeyResponse>, String>,
    publishable: int,
    secret: int,
    r: Result<Versioned<BranchCredentials>, Status>,
)
    requires
        call_ensures(SupabasedService::credentials_fetched, (&service, asked, &reply, parsed), r),
        parsed matches Ok(keys) ==> is_meant(keys@, publishable, "publishable"@) && is_meant(
            keys@,
            secret,
            "secret"@,
        ),
    ensures
        tells_failure(r, reply, 0),
        succeeded(reply) ==> (parsed matches Err(error) ==> refuses(
            r,
            Code::Internal,
            "failed to parse Supabase response: "@ + error@,
        )),
        r is Ok <==> succeeded(reply) && (parsed matches Ok(keys) && is_shown(
            keys@[publishable].api_key@,
            "sb_publishable_"@,
        ) && is_shown(keys@[secret].api_key@, "sb_secret_"@)),
        r matches Ok(given) ==> (parsed matches Ok(keys) && {
            &&& given.message.branch_name@ == asked.branch_name@
            &&& given.message.project_name@ == asked.project_name@
            &&& given.message.api_url@ == "https://"@ + asked.branch_ref@ + ".supabase.co"@
            &&& given.message.publishable_key@ == keys@[publishable].api_key@
            &&& given.message.anon_key@ == keys@[publishable].api_key@
            &&& given.message.secret_key@ == keys@[secret].api_key@
            &&& given.message.service_role_key@ == keys@[secret].api_key@
            &&& given.config_version@ == service.config_hash@
        }),
{
    if let Ok(keys) = parsed {
        lemma_meant(keys@, "publishable"@, "sb_publishable_"@, publishable);
        lemma_meant(keys@, "secret"@, "sb_secret_"@, secret);
    }
    if r is Ok {
        assert(r->Ok_0@.message == r->Ok_0.message@);
    }
}

proof fn lemma_meant_key(keys: Seq<ApiKeyResponse>, key_type: Seq<char>, place: int)
    requires
        is_meant(keys, place, key_type),
    ensures
        supabase::meant_key(supabase::key_views(keys), key_type) == Ok::<
            supabase::ApiKeyView,
            Seq<char>,
        >(keys[place]@),
{
    let views = supabase::key_views(keys);
    let chosen = |k: supabase::ApiKeyView| k.key_type == Some(key_type);
    let named = |k: supabase::ApiKeyView| k.name == Some("default"@);
    let both = |k: supabase::ApiKeyView| chosen(k) && named(k);
    assert forall|i: int| 0 <= i < views.len() implies chosen(#[trigger] views[i]) == of_type(
        keys,
        i,
        key_type,
    ) && both(views[i]) == default_of_type(keys, i, key_type) by {
        assert(views[i] == keys[i]@);
    }
    assert(views[place] == keys[place]@);
    if forall|i: int| #[trigger] of_type(keys, i, key_type) ==> i == place {
        lemma_chosen(views, chosen, place);
    } else {
        let other = choose|i: int| #[trigger] of_type(keys, i, key_type) && i != place;
        assert(chosen(views[other]) && chosen(views[place]));
        if other < place {
            lemma_chosen_counts(views, chosen, other, place);
        } else {
            lemma_chosen_counts(views, chosen, place, other);
        }
        lemma_filter_twice(views, chosen, named);
        lemma_chosen(views, both, place);
        assert(supabase::default_keys(supabase::keys_of_type(views, key_type)) == seq![
            views[place],
        ]);
    }
}

proof fn lemma_meant(
    keys: Seq<ApiKeyResponse>,
    key_type: Seq<char>,
    prefix: Seq<char>,
    place: int,
)
    requires
        is_meant(keys, place, key_type),
    ensures
        match supabase::modern_key(supabase::key_views(keys), key_type, prefix) {
            Ok(value) => is_shown(keys[place].api_key@, prefix) && value == keys[place].api_key@,
            Err(_) => !is_shown(keys[place].api_key@, prefix),
        },
{
    lemma_meant_key(keys, key_type, place);
    let value = keys[place].api_key@;
    if text::occurs_at(value, prefix, 0) {
        lemma_shown(value, prefix);
    } else if is_shown(value, prefix) {
        assert(value.subrange(0, prefix.len() as int) =~= value.take(prefix.len() as int));
    }
}

} // verus!

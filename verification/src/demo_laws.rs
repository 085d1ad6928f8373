//! What the operations on demo states do, whatever they are asked for and answered with.

use vstd::prelude::*;

use crate::auth::AuthContext;
use crate::branch_laws::is_child;
use crate::config::{ProjectConfig, ProjectDatabaseConnection};
use crate::db::{DemoStateRecord, SqlValue, Statement, TwoSteps};
use crate::demo::{
    DemoBranchToCreate, DemoBranchToDelete, DemoStateToFind, DemoStateToForget, DemoStateToRecord,
    DemoStateToRestore, DemoStateToSave, RestoreToConnect, RestoreToRun,
};
use crate::fields::{
    answered, asks, for_branch_named, is_blank, is_first, is_trim_of, is_unknown, may,
    may_as_owner, refuses, succeeded, tells_failure, text_in, to_supabase,
};
use crate::http::{HttpBody, HttpMethod, HttpReply};
use crate::messages::{
    DeleteDemoStateResponse, DemoStateInfo, ListDemoStatesResponse, Versioned,
};
use crate::name_laws::is_name_for;
use crate::service::SupabasedService;
use crate::status::{Code, Status, StatusView};
use crate::supabase::BranchResponse;
use crate::{branch_laws, db, demo, fields, http, messages, name_laws, service, status, text};

verus! {

/// Whether the statement looks a demo state up under its project and its name.
pub open spec fn looks_up_state(
    statement: Statement,
    project_name: Seq<char>,
    name: Seq<char>,
) -> bool {
    asks(
        statement,
        "SELECT project_name, name, branch_name, branch_ref, creator_identity, created_at, last_restored_at FROM demo_states WHERE project_name = ?1 AND name = ?2"@,
        seq![project_name, name],
    )
}

proof fn lemma_looks_up(statement: Statement, project_name: Seq<char>, name: Seq<char>)
    requires
        statement@ == demo::state_lookup(project_name, name),
    ensures
        looks_up_state(statement, project_name, name),
{
    let params = seq![project_name, name];
    assert(statement@.params =~= params.map_values(|p: Seq<char>| db::SqlView::Text(p)));
    fields::lemma_asks(statement, db::SELECT_DEMO_STATE@, params);
}

/// A demo state is to be saved under the project and the name that were given, as the maker's,
/// by whoever may save demo states, in every configured project, unless the name is blank.
pub proof fn law_state_is_to_be_saved_as_named(
    service: SupabasedService,
    ctx: Option<AuthContext>,
    project_name: &str,
    name: &str,
    place: int,
    r: Result<DemoStateToSave, Status>,
)
    requires
        call_ensures(SupabasedService::save_demo_state, (&service, ctx, project_name, name), r),
    ensures
        ctx is None ==> refuses(r, Code::Unauthenticated, "authentication required"@),
        ctx matches Some(maker) ==> !may(maker, "demo.save"@) ==> refuses(
            r,
            Code::PermissionDenied,
            "missing required permission: demo.save"@,
        ),
        ctx matches Some(maker) ==> may(maker, "demo.save"@) && is_blank(name@) ==> refuses(
            r,
            Code::InvalidArgument,
            "demo state name required"@,
        ),
        ctx matches Some(maker) ==> may(maker, "demo.save"@) && !is_blank(name@) && is_unknown(
            service.config.projects@,
            project_name@,
        ) ==> refuses(r, Code::NotFound, "unknown project: "@ + project_name@),
        ctx matches Some(maker) ==> may(maker, "demo.save"@) && !is_blank(name@) && is_first(
            service.config.projects@,
            project_name@,
            place,
        ) ==> (r matches Ok(asked) && {
            &&& asked.identity@ == maker.identity@
            &&& asked.project_name@ == project_name@
            &&& asked.name@ == name@
            &&& asked.project_ref@ == service.config.projects@[place].project_ref@
            &&& looks_up_state(asked.lookup, project_name@, name@)
        }),
{
    fields::law_first_project_of_a_name_is_meant(
        service.config.projects@,
        project_name@,
        place,
    );
    fields::lemma_blank(name@);
    if ctx is Some {
        fields::lemma_may(ctx->0, "demo.save"@);
    }
    reveal_strlit("missing required permission: ");
    reveal_strlit("demo.save");
    reveal_strlit("missing required permission: demo.save");
    assert("missing required permission: "@ + "demo.save"@
        =~= "missing required permission: demo.save"@);
    if let Ok(asked) = r {
        assert(asked@.lookup == asked.lookup@);
        lemma_looks_up(asked.lookup, project_name@, name@);
    }
}

/// A branch is asked for exactly where the database knows no demo state of that name, of the
/// project of the demo state, and under the name that the record is to hold.
pub proof fn law_branch_is_asked_for_a_new_state(
    service: SupabasedService,
    asked: DemoStateToSave,
    found: Result<Option<DemoStateRecord>, String>,
    r: Result<DemoBranchToCreate, Status>,
)
    requires
        call_ensures(SupabasedService::demo_state_looked_up, (&service, asked, found), r),
    ensures
        found matches Err(error) ==> refuses(r, Code::Internal, "database error: "@ + error@),
        found matches Ok(Some(_)) ==> refuses(
            r,
            Code::AlreadyExists,
            "demo state '"@ + asked.name@ + "' already exists in project '"@ + asked.project_name@
                + "'"@,
        ),
        found matches Ok(None) ==> (r matches Ok(branch) && {
            &&& branch.identity@ == asked.identity@
            &&& branch.project_name@ == asked.project_name@
            &&& branch.name@ == asked.name@
            &&& branch.project_ref@ == asked.project_ref@
            &&& branch.request.method == HttpMethod::Post
            &&& branch.request.url@ == "https://api.supabase.com/v1/projects/"@
                + asked.project_ref@ + "/branches"@
            &&& to_supabase(branch.request, service.supabase_client.access_token())
            &&& for_branch_named(branch.request, branch.branch_name@)
            &&& is_name_for(branch.branch_name@, asked.name@)
        }),
{
    if let Ok(branch) = r {
        name_laws::lemma_name_for(asked.name@);
        assert(branch@.request == branch.request@);
        assert(branch@.request.headers == http::pairs(branch.request.headers@));
        branch_laws::lemma_to_supabase(
            branch.request,
            service.supabase_client.access_token(),
        );
    }
}

/// A demo state is filed exactly where the service has answered with success and has described
/// a branch of the project that it was asked of; it is filed under the project and the name that
/// were asked for, with the name that the branch was asked for under, the reference that the
/// service has given and the maker, in this order, and is then looked up again.
pub proof fn law_state_is_filed_with_its_branch(
    service: SupabasedService,
    asked: DemoBranchToCreate,
    reply: HttpReply,
    parsed: Result<BranchResponse, String>,
    r: Result<DemoStateToRecord, Status>,
)
    requires
        call_ensures(SupabasedService::demo_branch_created, (&service, asked, &reply, parsed), r),
    ensures
        tells_failure(r, reply, 401),
        answered(reply, 401) ==> refuses(
            r,
            Code::Unauthenticated,
            "Supabase access token is invalid or expired"@,
        ),
        succeeded(reply) ==> (parsed matches Err(error) ==> refuses(
            r,
            Code::Internal,
            "failed to parse Supabase response: "@ + error@,
        )),
        r is Ok <==> succeeded(reply) && parsed is Ok && is_child(
            parsed->Ok_0,
            asked.project_ref@,
        ),
        r matches Ok(created) ==> {
            &&& asks(
                created.record,
                "INSERT INTO demo_states (project_name, name, branch_name, branch_ref, creator_identity) VALUES (?1, ?2, ?3, ?4, ?5)"@,
                seq![
                    asked.project_name@,
                    asked.name@,
                    asked.branch_name@,
                    parsed->Ok_0.project_ref->0@,
                    asked.identity@,
                ],
            )
            &&& looks_up_state(created.lookup, asked.project_name@, asked.name@)
        },
{
    if let Ok(created) = r {
        let params = seq![
            asked.project_name@,
            asked.name@,
            asked.branch_name@,
            parsed->Ok_0.project_ref->0@,
            asked.identity@,
        ];
        assert(created@.record == created.record@ && created@.lookup == created.lookup@);
        assert(created@.record.params =~= params.map_values(
            |p: Seq<char>| db::SqlView::Text(p),
        ));
        fields::lemma_asks(created.record, db::INSERT_DEMO_STATE@, params);
        lemma_looks_up(created.lookup, asked.project_name@, asked.name@);
    }
}

/// A branch that is no branch of the project is refused for what is wrong with its reference.
pub proof fn law_unfit_branch_of_a_state_is_refused(
    service: SupabasedService,
    asked: DemoBranchToCreate,
    reply: HttpReply,
    response: BranchResponse,
    parent: &str,
    checked: Result<String, Status>,
    r: Result<DemoStateToRecord, Status>,
)
    requires
        succeeded(reply),
        parent@ == asked.project_ref@,
        call_ensures(service::validated_branch_ref, (&response, parent), checked),
        call_ensures(
            SupabasedService::demo_branch_created,
            (&service, asked, &reply, Ok(response)),
            r,
        ),
    ensures
        checked matches Err(status) ==> refuses(r, status.code, status.message@),
{
}

/// Once the demo state is filed, it is looked up again.
pub proof fn law_filed_state_is_looked_up_again(
    service: SupabasedService,
    asked: DemoStateToRecord,
    recorded: Result<(), String>,
    r: Result<Statement, Status>,
)
    requires
        call_ensures(SupabasedService::demo_state_recorded, (&service, asked, recorded), r),
    ensures
        recorded matches Err(error) ==> refuses(
            r,
            Code::Internal,
            "failed to record demo state: "@ + error@,
        ),
        recorded is Ok ==> (r matches Ok(lookup) && lookup@ == asked.lookup@),
{
    assert(asked@.lookup == asked.lookup@);
}

/// Whether the demo state is told of as it is filed.
pub open spec fn is_told_as_filed(info: DemoStateInfo, record: DemoStateRecord) -> bool {
    &&& info.project_name@ == record.project_name@
    &&& info.name@ == record.name@
    &&& info.branch_name@ == record.branch_name@
    &&& info.branch_ref@ == record.branch_ref@
    &&& info.creator_identity@ == record.creator_identity@
    &&& info.created_at@ == record.created_at@
    &&& info.last_restored_at@ == text_in(record.last_restored_at)
}

/// A demo state is described by the fields of its record.
pub proof fn law_state_is_described_by_its_record(record: DemoStateRecord, r: DemoStateInfo)
    requires
        call_ensures(service::demo_state_info, (record,), r),
    ensures
        is_told_as_filed(r, record),
{
}

/// Whoever has saved a demo state is told of it as it is filed.
pub proof fn law_saved_state_is_told_as_filed(
    service: SupabasedService,
    found: Result<Option<DemoStateRecord>, String>,
    r: Result<Versioned<DemoStateInfo>, Status>,
)
    requires
        call_ensures(SupabasedService::demo_state_saved, (&service, found), r),
    ensures
        found matches Err(error) ==> refuses(r, Code::Internal, "database error: "@ + error@),
        found matches Ok(None) ==> refuses(
            r,
            Code::Internal,
            "saved demo state record was not found"@,
        ),
        found matches Ok(Some(record)) ==> (r matches Ok(told) && told.config_version@
            == service.config_hash@ && is_told_as_filed(told.message, record)),
{
    if let Ok(told) = r {
        assert(told@.message == told.message@);
    }
}

/// Whoever has put a demo state back is told of it as it is filed.
pub proof fn law_restored_state_is_told_as_filed(
    service: SupabasedService,
    updated: Result<Option<DemoStateRecord>, String>,
    r: Result<Versioned<DemoStateInfo>, Status>,
)
    requires
        call_ensures(SupabasedService::demo_state_restored, (&service, updated), r),
    ensures
        updated matches Err(error) ==> refuses(r, Code::Internal, "database error: "@ + error@),
        updated matches Ok(None) ==> refuses(
            r,
            Code::Internal,
            "restored demo state record was not found"@,
        ),
        updated matches Ok(Some(record)) ==> (r matches Ok(told) && told.config_version@
            == service.config_hash@ && is_told_as_filed(told.message, record)),
{
    if let Ok(told) = r {
        assert(told@.message == told.message@);
    }
}

proof fn lemma_demo_project(service: SupabasedService, project_name: Seq<char>, place: int)
    ensures
        is_unknown(service.config.projects@, project_name) ==> service::demo_project_named(
            service.config,
            project_name,
        ) == Err::<ProjectConfig, StatusView>(
            status::refusal(Code::NotFound, "unknown project: "@ + project_name),
        ),
        is_first(service.config.projects@, project_name, place) ==> ({
            let project = service.config.projects@[place];
            service::demo_project_named(service.config, project_name) == if project.demo {
                Ok::<ProjectConfig, StatusView>(project)
            } else {
                Err(
                    status::refusal(
                        Code::FailedPrecondition,
                        "project '"@ + project_name + "' is not configured for demo operations"@,
                    ),
                )
            }
        }),
{
    fields::law_first_project_of_a_name_is_meant(
        service.config.projects@,
        project_name,
        place,
    );
}

/// The demo states of a project for demos are looked up under its name, for whoever may list
/// demo states.
pub proof fn law_states_are_looked_up_by_project(
    service: SupabasedService,
    ctx: Option<AuthContext>,
    project_name: &str,
    place: int,
    r: Result<Statement, Status>,
)
    requires
        call_ensures(SupabasedService::list_demo_states, (&service, ctx, project_name), r),
    ensures
        ctx is None ==> refuses(r, Code::Unauthenticated, "authentication required"@),
        ctx matches Some(maker) ==> !may(maker, "demo.list"@) ==> refuses(
            r,
            Code::PermissionDenied,
            "missing required permission: demo.list"@,
        ),
        ctx matches Some(maker) ==> may(maker, "demo.list"@) && is_unknown(
            service.config.projects@,
            project_name@,
        ) ==> refuses(r, Code::NotFound, "unknown project: "@ + project_name@),
        ctx matches Some(maker) ==> may(maker, "demo.list"@) && is_first(
            service.config.projects@,
            project_name@,
            place,
        ) ==> if service.config.projects@[place].demo {
            r matches Ok(lookup) && asks(
                lookup,
                "SELECT project_name, name, branch_name, branch_ref, creator_identity, created_at, last_restored_at FROM demo_states WHERE project_name = ?1 ORDER BY created_at, name"@,
                seq![project_name@],
            )
        } else {
            refuses(
                r,
                Code::FailedPrecondition,
                "project '"@ + project_name@ + "' is not configured for demo operations"@,
            )
        },
{
    lemma_demo_project(service, project_name@, place);
    if ctx is Some {
        fields::lemma_may(ctx->0, "demo.list"@);
    }
    reveal_strlit("missing required permission: ");
    reveal_strlit("demo.list");
    reveal_strlit("missing required permission: demo.list");
    assert("missing required permission: "@ + "demo.list"@
        =~= "missing required permission: demo.list"@);
    if let Ok(lookup) = r {
        let params = seq![project_name@];
        assert(lookup@.params =~= params.map_values(|p: Seq<char>| db::SqlView::Text(p)));
        fields::lemma_asks(lookup, db::SELECT_PROJECT_DEMO_STATES@, params);
    }
}

proof fn lemma_all_told(states: Seq<DemoStateInfo>, records: Seq<DemoStateRecord>)
    requires
        messages::demo_state_views(states) == demo::all_described(records),
    ensures
        states.len() == records.len(),
        forall|i: int|
            0 <= i < records.len() ==> is_told_as_filed(#[trigger] states[i], records[i]),
{
    let told = messages::demo_state_views(states);
    let all = demo::all_described(records);
    assert(told.len() == states.len() && all.len() == records.len());
    assert forall|i: int| 0 <= i < records.len() implies is_told_as_filed(
        #[trigger] states[i],
        records[i],
    ) by {
        assert(told[i] == states[i]@);
        assert(all[i] == service::described(records[i]));
    }
}

/// The demo states are told of one by one, in the order of their records, each as it is filed.
pub proof fn law_states_are_listed_as_filed(
    service: SupabasedService,
    found: Result<Vec<DemoStateRecord>, String>,
    r: Result<Versioned<ListDemoStatesResponse>, Status>,
)
    requires
        call_ensures(SupabasedService::demo_states_listed, (&service, found), r),
    ensures
        found matches Err(error) ==> refuses(r, Code::Internal, "database error: "@ + error@),
        found matches Ok(records) ==> (r matches Ok(told) && {
            &&& told.config_version@ == service.config_hash@
            &&& told.message.states@.len() == records@.len()
            &&& forall|i: int|
                0 <= i < records@.len() ==> is_told_as_filed(
                    #[trigger] told.message.states@[i],
                    records@[i],
                )
        }),
{
    if let Ok(told) = r {
        assert(told@.message == told.message@);
        lemma_all_told(told.message.states@, found->Ok_0@);
    }
}

/// Records are described one by one, each by its own fields.
pub proof fn law_all_states_are_described_by_their_records(
    records: Vec<DemoStateRecord>,
    r: ListDemoStatesResponse,
)
    requires
        call_ensures(demo::describe_all, (records,), r),
    ensures
        r.states@.len() == records@.len(),
        forall|i: int|
            0 <= i < records@.len() ==> is_told_as_filed(#[trigger] r.states@[i], records@[i]),
{
    lemma_all_told(r.states@, records@);
}

/// A demo state that is to be deleted is looked up under its project and its name, in every
/// configured project for demos.
pub proof fn law_state_to_delete_is_looked_up_as_named(
    service: SupabasedService,
    ctx: Option<AuthContext>,
    project_name: &str,
    name: &str,
    place: int,
    r: Result<DemoStateToFind, Status>,
)
    requires
        call_ensures(SupabasedService::delete_demo_state, (&service, ctx, project_name, name), r),
    ensures
        ctx is None ==> refuses(r, Code::Unauthenticated, "authentication required"@),
        ctx is Some && is_unknown(service.config.projects@, project_name@) ==> refuses(
            r,
            Code::NotFound,
            "unknown project: "@ + project_name@,
        ),
        ctx matches Some(maker) ==> is_first(service.config.projects@, project_name@, place) ==> (
        if service.config.projects@[place].demo {
            r matches Ok(sought) && {
                &&& sought.ctx.identity@ == maker.identity@
                &&& text::texts(sought.ctx.permissions@) == text::texts(maker.permissions@)
                &&& sought.project_name@ == project_name@
                &&& sought.name@ == name@
                &&& looks_up_state(sought.lookup, project_name@, name@)
            }
        } else {
            refuses(
                r,
                Code::FailedPrecondition,
                "project '"@ + project_name@ + "' is not configured for demo operations"@,
            )
        }),
{
    lemma_demo_project(service, project_name@, place);
    if let Ok(sought) = r {
        assert(sought@.ctx == sought.ctx@ && sought@.lookup == sought.lookup@);
        lemma_looks_up(sought.lookup, project_name@, name@);
    }
}

/// A demo state is to be deleted exactly where it is filed and the maker of the request may
/// delete it; what the service is asked to delete is the branch with the reference that its
/// record holds.
pub proof fn law_filed_branch_of_the_state_is_what_is_deleted(
    service: SupabasedService,
    sought: DemoStateToFind,
    found: Result<Option<DemoStateRecord>, String>,
    r: Result<DemoBranchToDelete, Status>,
)
    requires
        call_ensures(SupabasedService::demo_state_to_delete_found, (&service, sought, found), r),
    ensures
        found matches Err(error) ==> refuses(r, Code::Internal, "database error: "@ + error@),
        found matches Ok(None) ==> refuses(
            r,
            Code::NotFound,
            "demo state '"@ + sought.name@ + "' not found in project '"@ + sought.project_name@
                + "'"@,
        ),
        found matches Ok(Some(record)) ==> if may_as_owner(
            sought.ctx,
            "demo.delete_own"@,
            "demo.delete_any"@,
            record.creator_identity@,
        ) {
            r matches Ok(asked) && {
                &&& asked.project_name@ == sought.project_name@
                &&& asked.name@ == sought.name@
                &&& asked.record == record
                &&& asked.request.method == HttpMethod::Delete
                &&& asked.request.url@ == "https://api.supabase.com/v1/branches/"@
                    + record.branch_ref@
                &&& to_supabase(asked.request, service.supabase_client.access_token())
                &&& asked.request.body matches HttpBody::Empty
            }
        } else {
            refuses(
                r,
                Code::PermissionDenied,
                "missing required permission: "@ + ("demo.delete_any"@ + " or "@
                    + "demo.delete_own"@ + " (as owner)"@),
            )
        },
{
    if let Ok(Some(record)) = found {
        fields::lemma_may(sought.ctx, "demo.delete_own"@);
        fields::lemma_may(sought.ctx, "demo.delete_any"@);
    }
    assert(sought@.ctx == sought.ctx@);
    if let Ok(asked) = r {
        assert(asked@.request == asked.request@);
        assert(asked@.request.headers == http::pairs(asked.request.headers@));
        branch_laws::lemma_to_supabase(
            asked.request,
            service.supabase_client.access_token(),
        );
    }
}

/// What is deleted with a demo state is the branch whose reference its saving has filed: the
/// one that the service has given to the branch that was made for it.
pub proof fn law_branch_made_for_the_state_is_what_is_deleted(
    service: SupabasedService,
    made: DemoBranchToCreate,
    reply: HttpReply,
    parsed: Result<BranchResponse, String>,
    created: DemoStateToRecord,
    record: DemoStateRecord,
    sought: DemoStateToFind,
    r: DemoBranchToDelete,
)
    requires
        call_ensures(
            SupabasedService::demo_branch_created,
            (&service, made, &reply, parsed),
            Ok(created),
        ),
        created.record.params@[3] matches SqlValue::Text(filed) && record.branch_ref@ == filed@,
        call_ensures(
            SupabasedService::demo_state_to_delete_found,
            (&service, sought, Ok(Some(record))),
            Ok(r),
        ),
    ensures
        parsed matches Ok(response) && (response.project_ref matches Some(branch_ref)
            && r.request.url@ == "https://api.supabase.com/v1/branches/"@ + branch_ref@),
{
    law_state_is_filed_with_its_branch(service, made, reply, parsed, Ok(created));
    law_filed_branch_of_the_state_is_what_is_deleted(service, sought, Ok(Some(record)), Ok(r));
    let params = seq![
        made.project_name@,
        made.name@,
        made.branch_name@,
        parsed->Ok_0.project_ref->0@,
        made.identity@,
    ];
    assert(created.record.params@.len() == params.len());
    assert(params[3] == parsed->Ok_0.project_ref->0@);
    assert(created.record.params@[3] matches SqlValue::Text(text) && text@ == params[3]);
}

/// A demo state is forgotten, under its project and its name, exactly where the service has
/// deleted its branch or did not know it; the maker is to be told which, and of the demo state
/// as it was filed.
pub proof fn law_state_is_forgotten_with_its_branch(
    service: SupabasedService,
    asked: DemoBranchToDelete,
    reply: HttpReply,
    r: Result<DemoStateToForget, Status>,
)
    requires
        call_ensures(SupabasedService::demo_branch_deleted, (&service, asked, &reply), r),
    ensures
        tells_failure(r, reply, 404),
        r is Ok <==> succeeded(reply) || answered(reply, 404),
        r matches Ok(done) ==> {
            &&& asks(
                done.forget,
                "DELETE FROM demo_states WHERE project_name = ?1 AND name = ?2"@,
                seq![asked.project_name@, asked.name@],
            )
            &&& done.response.deleted
            &&& done.response.project_name@ == asked.record.project_name@
            &&& done.response.name@ == asked.record.name@
            &&& done.response.branch_name@ == asked.record.branch_name@
            &&& done.response.branch_ref@ == asked.record.branch_ref@
            &&& done.response.remote_branch_deleted == succeeded(reply)
            &&& done.response.remote_branch_missing == answered(reply, 404)
        },
{
    if let Ok(done) = r {
        let params = seq![asked.project_name@, asked.name@];
        assert(done@.forget == done.forget@ && done@.response == done.response@);
        assert(done@.forget.params =~= params.map_values(|p: Seq<char>| db::SqlView::Text(p)));
        fields::lemma_asks(done.forget, db::DELETE_DEMO_STATE@, params);
    }
}

/// Once the demo state is forgotten, the maker is told what was to be told.
pub proof fn law_state_deletion_is_told(
    service: SupabasedService,
    asked: DemoStateToForget,
    forgotten: Result<(), String>,
    r: Result<Versioned<DeleteDemoStateResponse>, Status>,
)
    requires
        call_ensures(SupabasedService::demo_state_forgotten, (&service, asked, forgotten), r),
    ensures
        forgotten matches Err(error) ==> refuses(r, Code::Internal, "database error: "@ + error@),
        forgotten is Ok ==> (r matches Ok(told) && {
            &&& told.config_version@ == service.config_hash@
            &&& told.message.deleted == asked.response.deleted
            &&& told.message.project_name@ == asked.response.project_name@
            &&& told.message.name@ == asked.response.name@
            &&& told.message.branch_name@ == asked.response.branch_name@
            &&& told.message.branch_ref@ == asked.response.branch_ref@
            &&& told.message.remote_branch_deleted == asked.response.remote_branch_deleted
            &&& told.message.remote_branch_missing == asked.response.remote_branch_missing
        }),
{
    assert(asked@.response == asked.response@);
    if let Ok(told) = r {
        assert(told@.message == told.message@);
    }
}

/// A demo state is to be put back into the configured project, for whoever may do so and has
/// confirmed it, in every project for demos; it is looked up under its project and its name.
pub proof fn law_state_is_to_be_restored_as_named(
    service: SupabasedService,
    ctx: Option<AuthContext>,
    project_name: &str,
    name: &str,
    confirmed: bool,
    place: int,
    r: Result<DemoStateToRestore, Status>,
)
    requires
        call_ensures(
            SupabasedService::restore_demo_state,
            (&service, ctx, project_name, name, confirmed),
            r,
        ),
    ensures
        ctx is None ==> refuses(r, Code::Unauthenticated, "authentication required"@),
        ctx is Some && !confirmed ==> refuses(
            r,
            Code::FailedPrecondition,
            "restore requires confirm_overwrite_main=true"@,
        ),
        ctx matches Some(maker) ==> confirmed && !may(maker, "demo.restore_main"@) ==> refuses(
            r,
            Code::PermissionDenied,
            "missing required permission: demo.restore_main"@,
        ),
        ctx matches Some(maker) ==> confirmed && may(maker, "demo.restore_main"@) && is_unknown(
            service.config.projects@,
            project_name@,
        ) ==> refuses(r, Code::NotFound, "unknown project: "@ + project_name@),
        ctx matches Some(maker) ==> confirmed && may(maker, "demo.restore_main"@) && is_first(
            service.config.projects@,
            project_name@,
            place,
        ) ==> if service.config.projects@[place].demo {
            r matches Ok(sought) && {
                &&& sought.project == service.config.projects@[place]
                &&& sought.project_name@ == project_name@
                &&& sought.name@ == name@
                &&& looks_up_state(sought.lookup, project_name@, name@)
            }
        } else {
            refuses(
                r,
                Code::FailedPrecondition,
                "project '"@ + project_name@ + "' is not configured for demo operations"@,
            )
        },
{
    lemma_demo_project(service, project_name@, place);
    if ctx is Some {
        fields::lemma_may(ctx->0, "demo.restore_main"@);
    }
    reveal_strlit("missing required permission: ");
    reveal_strlit("demo.restore_main");
    reveal_strlit("missing required permission: demo.restore_main");
    assert("missing required permission: "@ + "demo.restore_main"@
        =~= "missing required permission: demo.restore_main"@);
    if let Ok(sought) = r {
        assert(sought@.lookup == sought.lookup@);
        lemma_looks_up(sought.lookup, project_name@, name@);
    }
}

/// The databases of a demo state that is to be put back are the branch with the reference that
/// its record holds and the project, with the password that the project names.
pub proof fn law_restore_goes_by_the_filed_branch(
    service: SupabasedService,
    sought: DemoStateToRestore,
    found: Result<Option<DemoStateRecord>, String>,
    r: Result<RestoreToConnect, Status>,
)
    requires
        call_ensures(SupabasedService::demo_state_to_restore_found, (&service, sought, found), r),
    ensures
        found matches Err(error) ==> refuses(r, Code::Internal, "database error: "@ + error@),
        found matches Ok(None) ==> refuses(
            r,
            Code::NotFound,
            "demo state '"@ + sought.name@ + "' not found in project '"@ + sought.project_name@
                + "'"@,
        ),
        found matches Ok(Some(record)) ==> match r {
            Ok(asked) => {
                &&& asked.project == sought.project
                &&& asked.project_name@ == sought.project_name@
                &&& asked.name@ == sought.name@
                &&& asked.branch_ref@ == record.branch_ref@
                &&& sought.project.database_password_env matches Some(env)
                &&& is_trim_of(asked.password_env@, env@)
                &&& asked.password_env@.len() > 0
            },
            Err(status) => {
                &&& status.code == Code::FailedPrecondition
                &&& status.message@ == "project '"@ + sought.project.name@
                    + "' is missing database_password_env for demo restore operations"@
                &&& sought.project.database_password_env matches Some(env) ==> is_blank(env@)
            },
        },
{
    if let Some(env) = sought.project.database_password_env {
        fields::lemma_trim(env@);
        fields::lemma_blank(env@);
    }
}

/// Whether the connection leads to the database of this project or branch, with this password.
pub open spec fn leads_to(
    connection: ProjectDatabaseConnection,
    project_ref: Seq<char>,
    password: Seq<char>,
) -> bool {
    &&& connection.host@ == "db."@ + project_ref + ".supabase.co"@
    &&& connection.port == 5432
    &&& connection.database@ == "postgres"@
    &&& connection.user@ == "postgres"@
    &&& connection.password@ == password
}

/// A restore runs from the demo state's branch into the project itself, each with the password;
/// without a password it does not run. Afterwards the demo state is noted as restored and looked
/// up again, under its project and its name.
pub proof fn law_restore_runs_from_the_branch_into_the_project(
    service: SupabasedService,
    asked: RestoreToConnect,
    password: Option<String>,
    r: Result<RestoreToRun, Status>,
)
    requires
        call_ensures(SupabasedService::restore_connected, (&service, asked, password), r),
        asked.project.database_password_env matches Some(env) && !is_blank(env@),
    ensures
        password is None ==> (r matches Err(status) && status.code == Code::FailedPrecondition
            && exists|env: Seq<char>|
            is_trim_of(env, asked.project.database_password_env->0@) && status.message@ == #[trigger] (
            env + " environment variable is required for demo restore operations"@)),
        password matches Some(value) ==> (r matches Ok(run) && {
            &&& leads_to(run.source, asked.branch_ref@, value@)
            &&& leads_to(run.target, asked.project.project_ref@, value@)
            &&& asks(
                run.mark.change,
                "UPDATE demo_states SET last_restored_at = datetime('now') WHERE project_name = ?1 AND name = ?2"@,
                seq![asked.project_name@, asked.name@],
            )
            &&& looks_up_state(run.mark.follow, asked.project_name@, asked.name@)
            &&& !run.mark.in_transaction
        }),
{
    let env = asked.project.database_password_env->0@;
    fields::lemma_blank(env);
    fields::lemma_trim(env);
    if let Err(status) = r {
        assert(status.message@ == text::trimmed(env)
            + " environment variable is required for demo restore operations"@);
    }
    if let Ok(run) = r {
        let params = seq![asked.project_name@, asked.name@];
        assert(run@.source == run.source@ && run@.target == run.target@ && run@.mark == run.mark@);
        assert(run@.mark.change == run.mark.change@ && run@.mark.follow == run.mark.follow@);
        assert(run@.mark.change.params =~= params.map_values(
            |p: Seq<char>| db::SqlView::Text(p),
        ));
        fields::lemma_asks(run.mark.change, db::MARK_DEMO_STATE_RESTORED@, params);
        lemma_looks_up(run.mark.follow, asked.project_name@, asked.name@);
    }
}

/// Without a variable for the password a restore does not run.
pub proof fn law_restore_needs_a_password_variable(
    service: SupabasedService,
    asked: RestoreToConnect,
    password: Option<String>,
    r: Result<RestoreToRun, Status>,
)
    requires
        call_ensures(SupabasedService::restore_connected, (&service, asked, password), r),
        asked.project.database_password_env matches Some(env) ==> is_blank(env@),
    ensures
        refuses(
            r,
            Code::FailedPrecondition,
            "project '"@ + asked.project.name@
                + "' is missing database_password_env for demo restore operations"@,
        ),
{
    if let Some(env) = asked.project.database_password_env {
        fields::lemma_blank(env@);
    }
}

/// A restore is noted exactly where it has ended well.
pub proof fn law_restore_is_noted_where_it_ended_well(
    service: SupabasedService,
    run: RestoreToRun,
    ended: Result<Result<(), Status>, String>,
    r: Result<TwoSteps, Status>,
)
    requires
        call_ensures(SupabasedService::schema_restored, (&service, run, ended), r),
    ensures
        ended matches Err(error) ==> refuses(
            r,
            Code::Internal,
            "restore task failed: "@ + error@,
        ),
        ended matches Ok(Err(failure)) ==> refuses(r, failure.code, failure.message@),
        ended matches Ok(Ok(_)) ==> (r matches Ok(mark) && {
            &&& mark.change@ == run.mark.change@
            &&& mark.follow@ == run.mark.follow@
            &&& mark.in_transaction == run.mark.in_transaction
        }),
{
    assert(run@.mark == run.mark@);
}

/// A connection that a project gives leads to the database with the reference that was asked for.
pub proof fn law_connection_leads_to_the_reference(
    project: ProjectConfig,
    project_ref: &str,
    password: String,
    r: Result<ProjectDatabaseConnection, String>,
)
    requires
        call_ensures(
            ProjectConfig::database_connection_for_ref,
            (&project, project_ref, Some(password)),
            r,
        ),
    ensures
        r matches Ok(connection) ==> leads_to(connection, project_ref@, password@),
        r is Ok <==> (project.database_password_env matches Some(env) && !is_blank(env@)),
{
    if let Some(env) = project.database_password_env {
        fields::lemma_blank(env@);
    }
}

} // verus!

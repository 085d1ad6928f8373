//! What the list of branches shows, whatever the management service answers.

use vstd::prelude::*;

use crate::auth::AuthContext;
use crate::branches::{BranchesToList, BranchesToLookUp};
use crate::db::BranchRecord;
use crate::fields::{
    asks, is_first, is_unknown, may, refuses, says, succeeded, tells_failure, text_in,
    to_supabase,
};
use crate::http::{HttpBody, HttpMethod, HttpReply, HttpRequest};
use crate::messages::{BranchInfo, BranchOwnership, ListBranchesResponse, Versioned};
use crate::service::SupabasedService;
use crate::status::{Code, Status};
use crate::supabase::BranchResponse;
use crate::{branch_laws, branches, db, fields, http, messages, service};

verus! {

/// Whether the record at this place is of the branch with this name in this project.
pub open spec fn is_of(
    records: Seq<BranchRecord>,
    place: int,
    project_name: Seq<char>,
    branch_name: Seq<char>,
) -> bool {
    &&& 0 <= place < records.len()
    &&& records[place].project_name@ == project_name
    &&& records[place].branch_name@ == branch_name
}

/// Whether the branch is said to be the one of whoever has filed it last.
pub open spec fn is_owned_as_filed(
    info: BranchInfo,
    identity: Seq<char>,
    records: Seq<BranchRecord>,
) -> bool {
    &&& info.ownership == BranchOwnership::Untracked <==> forall|j: int|
        !#[trigger] is_of(records, j, info.project_name@, info.branch_name@)
    &&& forall|j: int|
        #[trigger] is_of(records, j, info.project_name@, info.branch_name@) && (forall|k: int|
            #[trigger] is_of(records, k, info.project_name@, info.branch_name@) ==> k <= j)
            ==> info.ownership == (if records[j].creator_identity@ == identity {
            BranchOwnership::Yours
        } else {
            BranchOwnership::Other
        })
}

/// Whether the branch is shown with what the management service has answered.
pub open spec fn is_shown_as_answered(
    info: BranchInfo,
    project_name: Seq<char>,
    answer: BranchResponse,
) -> bool {
    &&& info.project_name@ == project_name
    &&& info.branch_name@ == text_in(answer.name)
    &&& info.status@ == text_in(answer.status)
    &&& info.created_at@ == text_in(answer.created_at)
}

/// Whether both say the same of a branch.
pub open spec fn is_same(a: BranchInfo, b: BranchInfo) -> bool {
    &&& a.project_name@ == b.project_name@
    &&& a.branch_name@ == b.branch_name@
    &&& a.status@ == b.status@
    &&& a.created_at@ == b.created_at@
    &&& a.ownership == b.ownership
}

/// The places of the items that are kept, in their order.
pub proof fn lemma_kept_places<A>(items: Seq<A>, keep: spec_fn(A) -> bool) -> (at: Seq<int>)
    ensures
        at.len() == items.filter(keep).len(),
        forall|k: int|
            0 <= k < at.len() ==> 0 <= #[trigger] at[k] < items.len() && keep(items[at[k]])
                && items.filter(keep)[k] == items[at[k]],
        forall|k: int, l: int| 0 <= k < l < at.len() ==> #[trigger] at[k] < #[trigger] at[l],
        forall|i: int|
            0 <= i < items.len() && keep(#[trigger] items[i]) ==> at.contains(i),
    decreases items.len(),
{
    reveal(Seq::filter);
    if items.len() == 0 {
        Seq::empty()
    } else {
        let before = items.drop_last();
        let last = items.len() - 1;
        assert(forall|i: int| 0 <= i < last ==> #[trigger] before[i] == items[i]);
        let at = lemma_kept_places(before, keep);
        if keep(items[last]) {
            let more = at.push(last);
            assert forall|i: int| 0 <= i < items.len() && keep(#[trigger] items[i]) implies
                more.contains(i) by {
                if i < last {
                    assert(before[i] == items[i]);
                    let k = choose|k: int| 0 <= k < at.len() && at[k] == i;
                    assert(more[k] == i);
                } else {
                    assert(more[at.len() as int] == i);
                }
            }
            more
        } else {
            assert forall|i: int| 0 <= i < items.len() && keep(#[trigger] items[i]) implies
                at.contains(i) by {
                assert(before[i] == items[i]);
            }
            at
        }
    }
}

proof fn lemma_owned_as_filed(
    info: BranchInfo,
    ctx: AuthContext,
    records: Seq<BranchRecord>,
)
    requires
        info.ownership == service::ownership(
            ctx@,
            branches::record_of(records, info.project_name@, info.branch_name@),
        ),
    ensures
        is_owned_as_filed(info, ctx.identity@, records),
    decreases records.len(),
{
    let p = info.project_name@;
    let b = info.branch_name@;
    if records.len() > 0 {
        let last = records.len() - 1;
        if is_of(records, last, p, b) {
            assert(info.ownership != BranchOwnership::Untracked);
        } else {
            let before = records.drop_last();
            lemma_owned_as_filed(info, ctx, before);
            assert forall|j: int| #[trigger] is_of(records, j, p, b) == is_of(before, j, p, b) by {
                if 0 <= j < last {
                    assert(before[j] == records[j]);
                }
            }
            assert forall|j: int|
                #[trigger] is_of(records, j, p, b) && (forall|k: int|
                    #[trigger] is_of(records, k, p, b) ==> k <= j) implies info.ownership == (
            if records[j].creator_identity@ == ctx.identity@ {
                BranchOwnership::Yours
            } else {
                BranchOwnership::Other
            }) by {
                assert(is_of(before, j, p, b));
                assert(before[j] == records[j]);
                assert forall|k: int| #[trigger] is_of(before, k, p, b) implies k <= j by {
                    assert(is_of(records, k, p, b));
                }
            }
            if forall|j: int| !#[trigger] is_of(records, j, p, b) {
                assert forall|j: int| !#[trigger] is_of(before, j, p, b) by {
                    assert(!is_of(records, j, p, b));
                }
            } else {
                let j = choose|j: int| #[trigger] is_of(records, j, p, b);
                assert(is_of(before, j, p, b));
            }
        }
    }
}

/// The branches of a project are listed in the order in which the service has answered with
/// them, each but the project itself once, with the name, the status and the time that stand in
/// its answer, and as whoever's has filed it. `at` are their places in the answer.
pub proof fn law_branches_are_listed_as_answered(
    ctx: AuthContext,
    project_name: &str,
    records: Vec<BranchRecord>,
    answers: Vec<BranchResponse>,
    r: Vec<BranchInfo>,
) -> (at: Seq<int>)
    requires
        call_ensures(
            branches::list_project_branches,
            (&ctx, project_name, &records, &answers),
            r,
        ),
    ensures
        at.len() == r@.len(),
        forall|k: int, l: int| 0 <= k < l < at.len() ==> #[trigger] at[k] < #[trigger] at[l],
        forall|k: int|
            0 <= k < at.len() ==> 0 <= #[trigger] at[k] < answers@.len()
                && answers@[at[k]].is_default != Some(true) && is_shown_as_answered(
                r@[k],
                project_name@,
                answers@[at[k]],
            ) && is_owned_as_filed(r@[k], ctx.identity@, records@),
        forall|i: int|
            0 <= i < answers@.len() && (#[trigger] answers@[i]).is_default != Some(true)
                ==> at.contains(i),
{
    let keep = branches::not_default();
    let at = lemma_kept_places(answers@, keep);
    lemma_listed(ctx, project_name@, records@, answers@, r@, at);
    at
}

proof fn lemma_listed(
    ctx: AuthContext,
    project_name: Seq<char>,
    records: Seq<BranchRecord>,
    answers: Seq<BranchResponse>,
    r: Seq<BranchInfo>,
    at: Seq<int>,
)
    requires
        messages::branch_views(r) == branches::project_listing(
            ctx@,
            project_name,
            records,
            answers,
        ),
        at.len() == answers.filter(branches::not_default()).len(),
        forall|k: int|
            0 <= k < at.len() ==> 0 <= #[trigger] at[k] < answers.len() && answers.filter(
                branches::not_default(),
            )[k] == answers[at[k]] && branches::not_default()(answers[at[k]]),
    ensures
        at.len() == r.len(),
        forall|k: int|
            0 <= k < at.len() ==> 0 <= #[trigger] at[k] < answers.len()
                && answers[at[k]].is_default != Some(true) && is_shown_as_answered(
                r[k],
                project_name,
                answers[at[k]],
            ) && is_owned_as_filed(r[k], ctx.identity@, records),
{
    let views = messages::branch_views(r);
    let kept = answers.filter(branches::not_default());
    let show = branches::listing(ctx@, project_name, records);
    assert(views == kept.map_values(show));
    assert(views.len() == r.len());
    assert forall|k: int| 0 <= k < at.len() implies 0 <= #[trigger] at[k] < answers.len()
        && answers[at[k]].is_default != Some(true) && is_shown_as_answered(
        r[k],
        project_name,
        answers[at[k]],
    ) && is_owned_as_filed(r[k], ctx.identity@, records) by {
        assert(views[k] == r[k]@);
        assert(kept.map_values(show)[k] == show(kept[k]));
        assert(kept[k] == answers[at[k]]);
        lemma_owned_as_filed(r[k], ctx, records);
    }
}

/// A list of branches is begun by whoever may list branches, for every project or for the one
/// that is named; what is filed of their branches is looked up first.
pub proof fn law_list_is_begun_for_the_projects_asked_for(
    service: SupabasedService,
    ctx: Option<AuthContext>,
    project_name: &str,
    place: int,
    r: Result<BranchesToLookUp, Status>,
)
    requires
        call_ensures(SupabasedService::list_branches, (&service, ctx, project_name), r),
    ensures
        ctx is None ==> refuses(r, Code::Unauthenticated, "authentication required"@),
        ctx matches Some(maker) ==> !may(maker, "branches.list"@) ==> refuses(
            r,
            Code::PermissionDenied,
            "missing required permission: branches.list"@,
        ),
        ctx matches Some(maker) ==> may(maker, "branches.list"@) && project_name@.len() > 0
            && is_unknown(service.config.projects@, project_name@) ==> refuses(
            r,
            Code::NotFound,
            "unknown project: "@ + project_name@,
        ),
        ctx matches Some(maker) ==> may(maker, "branches.list"@) && project_name@.len() == 0 ==> (
        r matches Ok(asked) && {
            let projects = service.config.projects@;
            &&& asked.ctx.identity@ == maker.identity@
            &&& asked.targets@.len() == projects.len()
            &&& forall|i: int|
                0 <= i < projects.len() ==> (#[trigger] asked.targets@[i]).0@ == projects[i].name@
                    && asked.targets@[i].1@ == projects[i].project_ref@
            &&& asks(
                asked.lookup,
                "SELECT branch_name, project_name, creator_identity, branch_ref, created_at FROM branches ORDER BY project_name, created_at"@,
                Seq::empty(),
            )
        }),
        ctx matches Some(maker) ==> may(maker, "branches.list"@) && project_name@.len() > 0
            && is_first(service.config.projects@, project_name@, place) ==> (r matches Ok(asked)
            && {
            let project = service.config.projects@[place];
            &&& asked.ctx.identity@ == maker.identity@
            &&& asked.targets@.len() == 1
            &&& says(asked.targets@, 0, project_name@, project.project_ref@)
            &&& asks(
                asked.lookup,
                "SELECT branch_name, project_name, creator_identity, branch_ref, created_at FROM branches WHERE project_name = ?1 ORDER BY created_at"@,
                seq![project_name@],
            )
        }),
{
    fields::law_first_project_of_a_name_is_meant(
        service.config.projects@,
        project_name@,
        place,
    );
    if ctx is Some {
        fields::lemma_may(ctx->0, "branches.list"@);
    }
    reveal_strlit("missing required permission: ");
    reveal_strlit("branches.list");
    reveal_strlit("missing required permission: branches.list");
    assert("missing required permission: "@ + "branches.list"@
        =~= "missing required permission: branches.list"@);
    if let Ok(asked) = r {
        assert(asked@.ctx == asked.ctx@);
        let targets = http::pairs(asked.targets@);
        assert(targets == asked@.targets);
        assert(targets.len() == asked.targets@.len());
        let none = Seq::<Seq<char>>::empty();
        let one = seq![project_name@];
        assert(none.map_values(|p: Seq<char>| db::SqlView::Text(p)) =~= Seq::empty());
        assert(one.map_values(|p: Seq<char>| db::SqlView::Text(p)) =~= seq![
            db::SqlView::Text(project_name@),
        ]);
        if project_name@.len() == 0 {
            fields::lemma_asks(asked.lookup, db::SELECT_ALL_BRANCHES@, none);
            let projects = service.config.projects@;
            assert forall|i: int| 0 <= i < projects.len() implies (#[trigger] asked.targets@[i]).0@
                == projects[i].name@ && asked.targets@[i].1@ == projects[i].project_ref@ by {
                fields::lemma_says(asked.targets@, i);
                assert(targets[i] == branches::project_pairs(projects)[i]);
            }
        } else {
            fields::lemma_asks(asked.lookup, db::SELECT_PROJECT_BRANCHES@, one);
            fields::lemma_says(asked.targets@, 0);
        }
    }
}

/// The list begins empty, for the projects that were asked for, with the records that were
/// found.
pub proof fn law_list_begins_empty(
    service: SupabasedService,
    asked: BranchesToLookUp,
    found: Result<Vec<BranchRecord>, String>,
    r: Result<BranchesToList, Status>,
)
    requires
        call_ensures(SupabasedService::branches_looked_up, (&service, asked, found), r),
    ensures
        found matches Err(error) ==> refuses(r, Code::Internal, "database error: "@ + error@),
        found matches Ok(records) ==> (r matches Ok(list) && {
            &&& list.ctx.identity@ == asked.ctx.identity@
            &&& list.targets@.len() == asked.targets@.len()
            &&& forall|i: int|
                0 <= i < asked.targets@.len() ==> (#[trigger] list.targets@[i]).0@
                    == asked.targets@[i].0@ && list.targets@[i].1@ == asked.targets@[i].1@
            &&& list.records@ == records@
            &&& list.answered == 0
            &&& list.branches@.len() == 0
        }),
{
    if let Ok(list) = r {
        assert(list@.ctx == list.ctx@ && asked@.ctx == asked.ctx@);
        assert(http::pairs(list.targets@) == http::pairs(asked.targets@));
        assert(http::pairs(list.targets@).len() == list.targets@.len());
        assert(http::pairs(asked.targets@).len() == asked.targets@.len());
        assert(list@.branches.len() == list.branches@.len());
        assert forall|i: int| 0 <= i < asked.targets@.len() implies (
        #[trigger] list.targets@[i]).0@ == asked.targets@[i].0@ && list.targets@[i].1@
            == asked.targets@[i].1@ by {
            fields::lemma_says(list.targets@, i);
            fields::lemma_says(asked.targets@, i);
        }
    }
}

/// The service is asked for the branches of the first project that it was not asked for yet,
/// until none is left.
pub proof fn law_next_project_is_asked_for(
    service: SupabasedService,
    list: BranchesToList,
    r: Option<HttpRequest>,
)
    requires
        call_ensures(SupabasedService::next_list_request, (&service, &list), r),
    ensures
        r is Some <==> list.answered < list.targets@.len(),
        r matches Some(request) ==> {
            &&& request.method == HttpMethod::Get
            &&& request.url@ == "https://api.supabase.com/v1/projects/"@
                + list.targets@[list.answered as int].1@ + "/branches"@
            &&& to_supabase(request, service.supabase_client.access_token())
            &&& request.body matches HttpBody::Empty
        },
{
    assert(list@.targets.len() == list.targets@.len());
    if let Some(request) = r {
        fields::lemma_says(list.targets@, list.answered as int);
        assert(request@.headers == http::pairs(request.headers@));
        branch_laws::lemma_to_supabase(request, service.supabase_client.access_token());
    }
}

/// With each answer the list grows by the branches of the project that was asked for, shown as
/// they were answered with, behind those of the projects before it. `at` are the places of the
/// new branches in the answer.
pub proof fn law_list_grows_by_the_answered_branches(
    service: SupabasedService,
    list: BranchesToList,
    reply: HttpReply,
    parsed: Result<Vec<BranchResponse>, String>,
    r: Result<BranchesToList, Status>,
) -> (at: Seq<int>)
    requires
        list.answered < list.targets@.len(),
        call_ensures(SupabasedService::project_listed, (&service, list, &reply, parsed), r),
    ensures
        tells_failure(r, reply, 0),
        succeeded(reply) ==> (parsed matches Err(error) ==> refuses(
            r,
            Code::Internal,
            "failed to parse Supabase response: "@ + error@,
        )),
        r is Ok <==> succeeded(reply) && parsed is Ok,
        r matches Ok(longer) ==> {
            let answers = parsed->Ok_0@;
            let n = list.branches@.len() as int;
            &&& longer.ctx.identity@ == list.ctx.identity@
            &&& longer.targets@.len() == list.targets@.len()
            &&& forall|i: int|
                0 <= i < list.targets@.len() ==> (#[trigger] longer.targets@[i]).0@
                    == list.targets@[i].0@ && longer.targets@[i].1@ == list.targets@[i].1@
            &&& longer.records@ == list.records@
            &&& longer.answered == list.answered + 1
            &&& longer.branches@.len() == n + at.len()
            &&& forall|k: int|
                0 <= k < n ==> is_same(#[trigger] longer.branches@[k], list.branches@[k])
            &&& forall|k: int, l: int|
                0 <= k < l < at.len() ==> #[trigger] at[k] < #[trigger] at[l]
            &&& forall|k: int|
                0 <= k < at.len() ==> 0 <= #[trigger] at[k] < answers.len()
                    && answers[at[k]].is_default != Some(true) && is_shown_as_answered(
                    longer.branches@[n + k],
                    list.targets@[list.answered as int].0@,
                    answers[at[k]],
                ) && is_owned_as_filed(longer.branches@[n + k], list.ctx.identity@, list.records@)
            &&& forall|i: int|
                0 <= i < answers.len() && (#[trigger] answers[i]).is_default != Some(true)
                    ==> at.contains(i)
        },
{
    assert(list@.targets.len() == list.targets@.len());
    if let Ok(longer) = r {
        let answers = parsed->Ok_0@;
        let n = list.branches@.len() as int;
        let at = lemma_kept_places(answers, branches::not_default());
        let project_name = list.targets@[list.answered as int].0@;
        fields::lemma_says(list.targets@, list.answered as int);
        let more = longer.branches@.skip(n);
        let before = messages::branch_views(list.branches@);
        let after = messages::branch_views(longer.branches@);
        let listing = branches::project_listing(list.ctx@, project_name, list.records@, answers);
        assert(after == before + listing);
        assert(before.len() == n && after.len() == longer.branches@.len());
        assert forall|k: int| 0 <= k < n implies is_same(
            #[trigger] longer.branches@[k],
            list.branches@[k],
        ) by {
            assert(after[k] == longer.branches@[k]@);
            assert(before[k] == list.branches@[k]@);
        }
        assert(messages::branch_views(more) =~= listing) by {
            assert forall|k: int| 0 <= k < listing.len() implies messages::branch_views(more)[k]
                == #[trigger] listing[k] by {
                assert(after[n + k] == longer.branches@[n + k]@);
                assert(more[k] == longer.branches@[n + k]);
            }
        }
        lemma_listed(list.ctx, project_name, list.records@, answers, more, at);
        assert forall|k: int| 0 <= k < at.len() implies 0 <= #[trigger] at[k] < answers.len()
            && answers[at[k]].is_default != Some(true) && is_shown_as_answered(
            longer.branches@[n + k],
            project_name,
            answers[at[k]],
        ) && is_owned_as_filed(longer.branches@[n + k], list.ctx.identity@, list.records@) by {
            assert(more[k] == longer.branches@[n + k]);
        }
        assert(http::pairs(longer.targets@) == http::pairs(list.targets@));
        assert(http::pairs(longer.targets@).len() == longer.targets@.len());
        assert forall|i: int| 0 <= i < list.targets@.len() implies (
        #[trigger] longer.targets@[i]).0@ == list.targets@[i].0@ && longer.targets@[i].1@
            == list.targets@[i].1@ by {
            fields::lemma_says(longer.targets@, i);
            fields::lemma_says(list.targets@, i);
        }
        assert(longer@.ctx == longer.ctx@ && list@.ctx == list.ctx@);
        at
    } else {
        Seq::empty()
    }
}

/// Whoever asked for the list is told of every branch on it, under the version of the
/// configuration.
pub proof fn law_list_is_told_as_it_is(
    service: SupabasedService,
    list: BranchesToList,
    r: Versioned<ListBranchesResponse>,
)
    requires
        call_ensures(SupabasedService::branches_listed, (&service, list), r),
    ensures
        r.config_version@ == service.config_hash@,
        r.message.branches@.len() == list.branches@.len(),
        forall|k: int|
            0 <= k < list.branches@.len() ==> is_same(
                #[trigger] r.message.branches@[k],
                list.branches@[k],
            ),
{
    let told = messages::branch_views(r.message.branches@);
    let views = messages::branch_views(list.branches@);
    assert(r@.message == told);
    assert(told == views);
    assert(told.len() == r.message.branches@.len() && views.len() == list.branches@.len());
    assert forall|k: int| 0 <= k < list.branches@.len() implies is_same(
        #[trigger] r.message.branches@[k],
        list.branches@[k],
    ) by {
        assert(told[k] == r.message.branches@[k]@);
        assert(views[k] == list.branches@[k]@);
    }
}

} // verus!

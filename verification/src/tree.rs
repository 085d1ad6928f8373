//! The list of branches as a tree, project by project.

use vstd::prelude::*;

use crate::messages::{BranchInfo, BranchInfoView, BranchOwnership};
use crate::text::{same_text, text_before};
use crate::{messages, text};

verus! {

/// The names with `name` among them, in order, where they were in order before.
pub open spec fn inserted(names: Seq<Seq<char>>, name: Seq<char>) -> Seq<Seq<char>>
    decreases names.len(),
{
    if names.len() == 0 {
        seq![name]
    } else if names.last() == name {
        names
    } else if text::text_less(names.last(), name) {
        names.push(name)
    } else {
        inserted(names.drop_last(), name).push(names.last())
    }
}

/// The projects of the branches, each once, in the order of their names.
pub open spec fn sorted_projects(branches: Seq<BranchInfoView>) -> Seq<Seq<char>>
    decreases branches.len(),
{
    if branches.len() == 0 {
        Seq::empty()
    } else {
        inserted(sorted_projects(branches.drop_last()), branches.last().project_name)
    }
}

/// The first `n` of the projects and those of the branches, each once, in the order of their names.
pub open spec fn all_projects(
    projects: Seq<Seq<char>>,
    n: nat,
    branches: Seq<BranchInfoView>,
) -> Seq<Seq<char>>
    decreases n,
{
    if n == 0 {
        sorted_projects(branches)
    } else {
        inserted(all_projects(projects, (n - 1) as nat, branches), projects[n - 1])
    }
}

/// How the ownership of a branch is shown, where it is.
pub open spec fn ownership_shown(ownership: BranchOwnership) -> Option<Seq<char>> {
    match ownership {
        BranchOwnership::Yours => Some("YOURS"@),
        BranchOwnership::Other => Some("OTHER"@),
        BranchOwnership::Untracked => Some("UNTRACKED"@),
        BranchOwnership::Unspecified => None,
    }
}

/// What is shown behind the name of a branch.
pub open spec fn remark(branch: BranchInfoView) -> Seq<char> {
    match (branch.status.len() == 0, ownership_shown(branch.ownership)) {
        (false, Some(label)) => " ("@ + branch.status + ", "@ + label + ")"@,
        (false, None) => " ("@ + branch.status + ")"@,
        (true, Some(label)) => " ("@ + label + ")"@,
        (true, None) => Seq::empty(),
    }
}

/// What leads from a project to one of its branches.
pub open spec fn connector(last: bool) -> Seq<char> {
    if last {
        "└── "@
    } else {
        "├── "@
    }
}

/// The lines of the first `n` branches of a project.
pub open spec fn branch_lines(branches: Seq<BranchInfoView>, n: nat) -> Seq<char>
    decreases n,
{
    if n == 0 {
        Seq::empty()
    } else {
        let branch = branches[n - 1];
        branch_lines(branches, (n - 1) as nat) + "\n"@ + connector(n == branches.len())
            + branch.branch_name + remark(branch)
    }
}

/// The property of being a branch of the project.
pub open spec fn of_project(project: Seq<char>) -> spec_fn(BranchInfoView) -> bool {
    |b: BranchInfoView| b.project_name == project
}

/// The branches of one project, under its name.
pub open spec fn project_tree(branches: Seq<BranchInfoView>, project: Seq<char>) -> Seq<char> {
    let own = branches.filter(of_project(project));
    project + branch_lines(own, own.len())
}

/// The first `n` of the projects, with a blank line between them.
pub open spec fn project_trees(
    branches: Seq<BranchInfoView>,
    projects: Seq<Seq<char>>,
    n: nat,
) -> Seq<char>
    decreases n,
{
    if n == 0 {
        Seq::empty()
    } else if n == 1 {
        project_tree(branches, projects[0])
    } else {
        project_trees(branches, projects, (n - 1) as nat) + "\n\n"@ + project_tree(
            branches,
            projects[n - 1],
        )
    }
}

/// The branches as a tree.
pub open spec fn branch_tree(branches: Seq<BranchInfoView>) -> Seq<char> {
    if branches.len() == 0 {
        "No branches found."@
    } else {
        let projects = sorted_projects(branches);
        project_trees(branches, projects, projects.len())
    }
}

/// The projects and the branches as a tree; a project without branches is a bare heading.
pub open spec fn project_branch_tree(
    projects: Seq<Seq<char>>,
    branches: Seq<BranchInfoView>,
) -> Seq<char> {
    let names = all_projects(projects, projects.len(), branches);
    if names.len() == 0 {
        "No branches found."@
    } else {
        project_trees(branches, names, names.len())
    }
}

/// How the ownership of a branch is shown, where it is.
pub fn ownership_label(ownership: BranchOwnership) -> (r: Option<&'static str>)
    ensures
        match ownership_shown(ownership) {
            Some(label) => r matches Some(found) && found@ == label,
            None => r is None,
        },
{
    match ownership {
        BranchOwnership::Yours => Some("YOURS"),
        BranchOwnership::Other => Some("OTHER"),
        BranchOwnership::Untracked => Some("UNTRACKED"),
        BranchOwnership::Unspecified => None,
    }
}

fn remark_text(branch: &BranchInfo) -> (r: String)
    ensures
        r@ == remark(branch@),
{
    let mut out = String::new();
    match (branch.status.as_str().is_empty(), ownership_label(branch.ownership)) {
        (false, Some(label)) => {
            out.append(" (");
            out.append(branch.status.as_str());
            out.append(", ");
            out.append(label);
            out.append(")");
            assert(out@ =~= remark(branch@));
        },
        (false, None) => {
            out.append(" (");
            out.append(branch.status.as_str());
            out.append(")");
            assert(out@ =~= remark(branch@));
        },
        (true, Some(label)) => {
            out.append(" (");
            out.append(label);
            out.append(")");
            assert(out@ =~= remark(branch@));
        },
        (true, None) => {},
    }
    out
}

fn insert_name(names: &mut Vec<String>, name: &str)
    ensures
        text::texts(final(names)@) == inserted(text::texts(old(names)@), name@),
{
    let ghost all = text::texts(names@);
    let mut n: usize = names.len();
    assert(all.take(n as int) =~= all);
    assert(all.skip(n as int) =~= Seq::empty());
    assert(inserted(all, name@) =~= inserted(all.take(n as int), name@) + all.skip(n as int));
    while n > 0 && !same_text(names[n - 1].as_str(), name) && !text_before(
        names[n - 1].as_str(),
        name,
    )
        invariant
            n <= names.len(),
            all == text::texts(names@),
            inserted(all, name@) == inserted(all.take(n as int), name@) + all.skip(n as int),
        decreases n,
    {
        assert(all.take(n as int).drop_last() =~= all.take(n - 1));
        assert(all.take(n as int).last() == names@[n - 1]@);
        assert(seq![all[n - 1]] + all.skip(n as int) =~= all.skip(n - 1));
        assert(inserted(all.take(n - 1), name@).push(all[n - 1]) + all.skip(n as int) =~= inserted(
            all.take(n - 1),
            name@,
        ) + all.skip(n - 1));
        n -= 1;
    }
    if n > 0 {
        assert(all.take(n as int).last() == names@[n - 1]@);
    }
    if n > 0 && same_text(names[n - 1].as_str(), name) {
        assert(all.take(n as int) + all.skip(n as int) =~= all);
    } else {
        names.insert(n, name.to_string());
        assert(text::texts(names@) =~= all.insert(n as int, name@));
        assert(all.insert(n as int, name@) =~= all.take(n as int).push(name@) + all.skip(n as int));
        if n == 0 {
            assert(all.take(0).push(name@) =~= seq![name@]);
        }
    }
}

fn project_order(branches: &[BranchInfo]) -> (r: Vec<String>)
    ensures
        text::texts(r@) == sorted_projects(messages::branch_views(branches@)),
{
    let ghost all = messages::branch_views(branches@);
    let mut names: Vec<String> = Vec::new();
    let mut i: usize = 0;
    assert(text::texts(names@) =~= Seq::empty());
    while i < branches.len()
        invariant
            i <= branches.len(),
            all == messages::branch_views(branches@),
            text::texts(names@) == sorted_projects(all.take(i as int)),
        decreases branches.len() - i,
    {
        assert(all.take(i + 1).drop_last() =~= all.take(i as int));
        insert_name(&mut names, branches[i].project_name.as_str());
        i += 1;
    }
    assert(all.take(i as int) =~= all);
    names
}

fn project_text(branches: &[BranchInfo], project: &str) -> (r: String)
    ensures
        r@ == project_tree(messages::branch_views(branches@), project@),
{
    let ghost all = messages::branch_views(branches@);
    let ghost keep = of_project(project@);
    let mut own: Vec<usize> = Vec::new();
    let mut i: usize = 0;
    assert(all.take(0).filter(keep) =~= Seq::empty()) by {
        reveal(Seq::filter);
    }
    assert(own@.map_values(|k: usize| all[k as int]) =~= all.take(0).filter(keep));
    while i < branches.len()
        invariant
            i <= branches.len(),
            all == messages::branch_views(branches@),
            keep == of_project(project@),
            forall|j: int| 0 <= j < own@.len() ==> #[trigger] own@[j] < branches.len(),
            own@.map_values(|k: usize| all[k as int]) == all.take(i as int).filter(keep),
        decreases branches.len() - i,
    {
        let ghost before = own@;
        assert(all.take(i + 1).drop_last() =~= all.take(i as int));
        proof {
            reveal(Seq::filter);
        }
        if same_text(branches[i].project_name.as_str(), project) {
            own.push(i);
            assert(keep(all[i as int]));
            assert(own@.map_values(|k: usize| all[k as int]) =~= before.map_values(
                |k: usize| all[k as int],
            ).push(all[i as int]));
        } else {
            assert(!keep(all[i as int]));
        }
        i += 1;
    }
    assert(all.take(i as int) =~= all);
    let ghost kept = all.filter(keep);
    let mut out = project.to_string();
    let mut n: usize = 0;
    assert(out@ =~= project@ + branch_lines(kept, 0));
    while n < own.len()
        invariant
            n <= own.len(),
            all == messages::branch_views(branches@),
            kept == own@.map_values(|k: usize| all[k as int]),
            forall|j: int| 0 <= j < own@.len() ==> #[trigger] own@[j] < branches.len(),
            out@ == project@ + branch_lines(kept, n as nat),
        decreases own.len() - n,
    {
        let branch = &branches[own[n]];
        assert(kept[n as int] == branch@);
        out.append("\n");
        if n + 1 == own.len() {
            out.append("└── ");
        } else {
            out.append("├── ");
        }
        out.append(branch.branch_name.as_str());
        out.append(remark_text(branch).as_str());
        assert(out@ =~= project@ + branch_lines(kept, (n + 1) as nat));
        n += 1;
    }
    out
}

fn project_texts(branches: &[BranchInfo], projects: &Vec<String>) -> (r: String)
    ensures
        r@ == project_trees(
            messages::branch_views(branches@),
            text::texts(projects@),
            projects@.len(),
        ),
{
    let ghost all = messages::branch_views(branches@);
    let ghost names = text::texts(projects@);
    let mut out = String::new();
    let mut n: usize = 0;
    while n < projects.len()
        invariant
            n <= projects.len(),
            all == messages::branch_views(branches@),
            names == text::texts(projects@),
            out@ == project_trees(all, names, n as nat),
        decreases projects.len() - n,
    {
        if n > 0 {
            out.append("\n\n");
        }
        out.append(project_text(branches, projects[n].as_str()).as_str());
        assert(names[n as int] == projects@[n as int]@);
        assert(out@ =~= project_trees(all, names, (n + 1) as nat));
        n += 1;
    }
    out
}

/// The branches as a tree, project by project. Projects without branches are not among them, and
/// so are not shown; `render_project_tree` shows those that it is told of.
pub fn render_branch_tree(branches: &[BranchInfo]) -> (r: String)
    ensures
        r@ == branch_tree(messages::branch_views(branches@)),
{
    if branches.len() == 0 {
        return "No branches found.".to_string();
    }
    project_texts(branches, &project_order(branches))
}

/// The projects and the branches as a tree; a project without branches is a bare heading.
pub fn render_project_tree(projects: &[String], branches: &[BranchInfo]) -> (r: String)
    ensures
        r@ == project_branch_tree(text::texts(projects@), messages::branch_views(branches@)),
{
    let ghost told = text::texts(projects@);
    let ghost all = messages::branch_views(branches@);
    let mut names = project_order(branches);
    let mut i: usize = 0;
    while i < projects.len()
        invariant
            i <= projects.len(),
            told == text::texts(projects@),
            all == messages::branch_views(branches@),
            text::texts(names@) == all_projects(told, i as nat, all),
        decreases projects.len() - i,
    {
        assert(told[i as int] == projects@[i as int]@);
        insert_name(&mut names, projects[i].as_str());
        i += 1;
    }
    if names.len() == 0 {
        return "No branches found.".to_string();
    }
    project_texts(branches, &names)
}

/// Whether the names are in order, each once.
pub open spec fn in_order(names: Seq<Seq<char>>) -> bool {
    forall|i: int, j: int|
        0 <= i < j < names.len() ==> text::text_less(#[trigger] names[i], #[trigger] names[j])
}

proof fn lemma_inserted(names: Seq<Seq<char>>, name: Seq<char>)
    requires
        in_order(names),
    ensures
        in_order(inserted(names, name)),
        forall|other: Seq<char>|
            #[trigger] inserted(names, name).contains(other) <==> names.contains(other) || other
                == name,
    decreases names.len(),
{
    let result = inserted(names, name);
    if names.len() == 0 {
        assert(result[0] == name);
    } else if names.last() == name {
        assert(names[names.len() - 1] == name);
    } else if text::text_less(names.last(), name) {
        assert forall|i: int, j: int| 0 <= i < j < result.len() implies text::text_less(
            #[trigger] result[i],
            #[trigger] result[j],
        ) by {
            if j == names.len() && i < names.len() - 1 {
                text::lemma_less_transitive(names[i], names.last(), name);
            }
        }
        assert forall|other: Seq<char>| #[trigger] result.contains(other) <==> names.contains(other)
            || other == name by {
            if names.contains(other) {
                let k = choose|k: int| 0 <= k < names.len() && names[k] == other;
                assert(result[k] == other);
            }
            assert(result[names.len() as int] == name);
        }
    } else {
        let before = names.drop_last();
        let last = names.last();
        lemma_inserted(before, name);
        let start = inserted(before, name);
        text::lemma_less_total(name, last);
        assert forall|i: int| 0 <= i < start.len() implies text::text_less(
            #[trigger] start[i],
            last,
        ) by {
            assert(start.contains(start[i]));
            if start[i] != name {
                let k = choose|k: int| 0 <= k < before.len() && before[k] == start[i];
                assert(names[k] == start[i]);
                assert(names[names.len() - 1] == last);
            }
        }
        assert(in_order(result));
        assert forall|other: Seq<char>| #[trigger] result.contains(other) <==> names.contains(other)
            || other == name by {
            if result.contains(other) {
                let k = choose|k: int| 0 <= k < result.len() && result[k] == other;
                if k < start.len() {
                    assert(start[k] == other);
                    assert(start.contains(other));
                    if other != name {
                        let m = choose|m: int| 0 <= m < before.len() && before[m] == other;
                        assert(names[m] == other);
                    }
                } else {
                    assert(names[names.len() - 1] == other);
                }
            }
            if names.contains(other) {
                let k = choose|k: int| 0 <= k < names.len() && names[k] == other;
                if k < before.len() {
                    assert(before[k] == other);
                    assert(start.contains(other));
                    let m = choose|m: int| 0 <= m < start.len() && start[m] == other;
                    assert(result[m] == other);
                } else {
                    assert(result[start.len() as int] == other);
                }
            }
            if other == name {
                assert(start.contains(name));
                let m = choose|m: int| 0 <= m < start.len() && start[m] == name;
                assert(result[m] == name);
            }
        }
    }
}

/// The tree has the projects of the branches and no others, in the order of their names, each
/// once.
pub proof fn law_projects_are_sorted_and_complete(branches: Seq<BranchInfoView>)
    ensures
        in_order(sorted_projects(branches)),
        forall|i: int|
            0 <= i < branches.len() ==> sorted_projects(branches).contains(
                (#[trigger] branches[i]).project_name,
            ),
        forall|k: int|
            0 <= k < sorted_projects(branches).len() ==> exists|i: int|
                0 <= i < branches.len() && (#[trigger] branches[i]).project_name
                    == #[trigger] sorted_projects(branches)[k],
    decreases branches.len(),
{
    if branches.len() > 0 {
        let before = branches.drop_last();
        let last = branches.last().project_name;
        let names = sorted_projects(before);
        let result = sorted_projects(branches);
        law_projects_are_sorted_and_complete(before);
        lemma_inserted(names, last);
        assert forall|i: int| 0 <= i < branches.len() implies result.contains(
            (#[trigger] branches[i]).project_name,
        ) by {
            if i < before.len() {
                assert(before[i] == branches[i]);
            }
        }
        assert forall|k: int| 0 <= k < result.len() implies exists|i: int|
            0 <= i < branches.len() && (#[trigger] branches[i]).project_name
                == #[trigger] result[k] by {
            assert(result.contains(result[k]));
            if result[k] == last {
                assert(branches[branches.len() - 1].project_name == result[k]);
            } else {
                let m = choose|m: int| 0 <= m < names.len() && names[m] == result[k];
                let i = choose|i: int|
                    0 <= i < before.len() && (#[trigger] before[i]).project_name == names[m];
                assert(branches[i].project_name == result[k]);
            }
        }
    }
}

pub proof fn lemma_all_projects(
    projects: Seq<Seq<char>>,
    n: nat,
    branches: Seq<BranchInfoView>,
)
    requires
        n <= projects.len(),
    ensures
        in_order(all_projects(projects, n, branches)),
        forall|name: Seq<char>| #[trigger]
            all_projects(projects, n, branches).contains(name) <==> sorted_projects(
                branches,
            ).contains(name) || projects.take(n as int).contains(name),
    decreases n,
{
    law_projects_are_sorted_and_complete(branches);
    let told = projects.take(n as int);
    if n > 0 {
        let before = projects.take(n - 1);
        lemma_all_projects(projects, (n - 1) as nat, branches);
        lemma_inserted(all_projects(projects, (n - 1) as nat, branches), projects[n - 1]);
        assert(told =~= before.push(projects[n - 1]));
        assert forall|name: Seq<char>| told.contains(name) <==> before.contains(name) || name
            == projects[n - 1] by {
            if before.contains(name) {
                let k = choose|k: int| 0 <= k < before.len() && before[k] == name;
                assert(told[k] == name);
            }
            assert(told[n - 1] == projects[n - 1]);
        }
    }
}

/// The tree of projects and branches has the projects that it was told of and those of the
/// branches, and no others, in the order of their names, each once; one without branches is its
/// name alone, and with none told of the tree is that of the branches.
pub proof fn law_projects_without_branches_are_headings(
    projects: Seq<Seq<char>>,
    branches: Seq<BranchInfoView>,
    project: Seq<char>,
)
    ensures
        ({
            let names = all_projects(projects, projects.len(), branches);
            &&& in_order(names)
            &&& names.contains(project) <==> projects.contains(project) || sorted_projects(
                branches,
            ).contains(project)
            &&& !sorted_projects(branches).contains(project) ==> project_tree(branches, project)
                == project
            &&& projects.len() == 0 ==> project_branch_tree(projects, branches) == branch_tree(
                branches,
            )
        }),
{
    lemma_all_projects(projects, projects.len(), branches);
    assert(projects.take(projects.len() as int) =~= projects);
    law_projects_are_sorted_and_complete(branches);
    if !sorted_projects(branches).contains(project) {
        let own = branches.filter(of_project(project));
        if own.len() > 0 {
            branches.lemma_filter_contains_rev(of_project(project), own[0]);
            let i = choose|i: int| 0 <= i < branches.len() && branches[i] == own[0];
            assert(sorted_projects(branches).contains(branches[i].project_name));
        }
        assert(project_tree(branches, project) =~= project);
    }
    if branches.len() > 0 {
        assert(sorted_projects(branches).contains(branches[0].project_name));
    }
}

proof fn lemma_lines_show(branches: Seq<BranchInfoView>, n: nat, k: int)
    requires
        0 <= k < n <= branches.len(),
    ensures
        text::occurs(
            branch_lines(branches, n),
            branches[k].branch_name + remark(branches[k]),
        ),
    decreases n,
{
    let branch = branches[n - 1];
    let shown = branches[k].branch_name + remark(branches[k]);
    let before = branch_lines(branches, (n - 1) as nat);
    let head = before + "\n"@ + connector(n == branches.len());
    assert(branch_lines(branches, n) =~= head + (branch.branch_name + remark(branch)));
    if k == n - 1 {
        assert(shown.subrange(0, shown.len() as int) =~= shown);
        assert(text::occurs_at(shown, shown, 0));
        text::lemma_occurs_within(head, shown, Seq::empty(), shown);
        assert(head + shown + Seq::empty() =~= branch_lines(branches, n));
    } else {
        lemma_lines_show(branches, (n - 1) as nat, k);
        let rest = "\n"@ + connector(n == branches.len()) + branch.branch_name + remark(branch);
        text::lemma_occurs_within(Seq::empty(), before, rest, shown);
        assert(Seq::empty() + before + rest =~= branch_lines(branches, n));
    }
}

proof fn lemma_trees_show(
    branches: Seq<BranchInfoView>,
    projects: Seq<Seq<char>>,
    n: nat,
    k: int,
    shown: Seq<char>,
)
    requires
        0 <= k < n <= projects.len(),
        text::occurs(project_tree(branches, projects[k]), shown),
    ensures
        text::occurs(project_trees(branches, projects, n), shown),
    decreases n,
{
    if n > 1 {
        let before = project_trees(branches, projects, (n - 1) as nat);
        let last = project_tree(branches, projects[n - 1]);
        if k == n - 1 {
            text::lemma_occurs_within(before + "\n\n"@, last, Seq::empty(), shown);
            assert(before + "\n\n"@ + last + Seq::empty() =~= project_trees(branches, projects, n));
        } else {
            lemma_trees_show(branches, projects, (n - 1) as nat, k, shown);
            text::lemma_occurs_within(Seq::empty(), before, "\n\n"@ + last, shown);
            assert(Seq::empty() + before + ("\n\n"@ + last) =~= project_trees(
                branches,
                projects,
                n,
            ));
        }
    }
}

/// The tree shows every branch, with its status and its ownership behind its name.
pub proof fn law_tree_shows_every_branch(branches: Seq<BranchInfoView>, i: int)
    requires
        0 <= i < branches.len(),
    ensures
        text::occurs(branch_tree(branches), branches[i].branch_name + remark(branches[i])),
{
    let branch = branches[i];
    let shown = branch.branch_name + remark(branch);
    let projects = sorted_projects(branches);
    let own = branches.filter(of_project(branch.project_name));
    law_projects_are_sorted_and_complete(branches);
    let k = choose|k: int| 0 <= k < projects.len() && projects[k] == branch.project_name;
    branches.lemma_filter_contains(of_project(branch.project_name), i);
    let m = choose|m: int| 0 <= m < own.len() && own[m] == branch;
    lemma_lines_show(own, own.len(), m);
    let lines = branch_lines(own, own.len());
    text::lemma_occurs_within(branch.project_name, lines, Seq::empty(), shown);
    assert(branch.project_name + lines + Seq::empty() =~= project_tree(
        branches,
        branch.project_name,
    ));
    lemma_trees_show(branches, projects, projects.len(), k, shown);
}

} // verus!

//! What is written to `.env` files and shown as a tree, whatever the branches are.

use vstd::prelude::*;

use crate::messages::{BranchInfo, BranchInfoView, BranchOwnership};
use crate::{dotenv, listing_laws, messages, text, tree};

verus! {

/// The block for a branch names its project and the branch, and holds its address, its
/// publishable key under both names, and its secret key.
pub proof fn law_block_holds_the_credentials(
    project_name: &str,
    branch_name: &str,
    url: &str,
    publishable_key: &str,
    secret_key: &str,
    r: String,
)
    requires
        call_ensures(
            dotenv::format_supabase_block,
            (project_name, branch_name, url, publishable_key, secret_key),
            r,
        ),
    ensures
        r@ == "# Supabase Configuration"@ + " - "@ + project_name@ + "/"@ + branch_name@
            + "\nSUPABASE_URL="@ + url@ + "\nSUPABASE_PUBLISHABLE_KEY="@ + publishable_key@
            + "\nSUPABASE_KEY="@ + publishable_key@ + "\nSUPABASE_SECRET_KEY="@ + secret_key@,
{
}

/// Whether the pattern stands in the text at this place.
pub open spec fn stands_at(s: Seq<char>, pattern: Seq<char>, place: int) -> bool {
    &&& 0 <= place
    &&& place + pattern.len() <= s.len()
    &&& forall|k: int| 0 <= k < pattern.len() ==> s[place + k] == #[trigger] pattern[k]
}

proof fn lemma_stands(s: Seq<char>, pattern: Seq<char>, place: int)
    ensures
        stands_at(s, pattern, place) <==> text::occurs_at(s, pattern, place),
{
    if text::occurs_at(s, pattern, place) {
        let part = s.subrange(place, place + pattern.len());
        assert forall|k: int| 0 <= k < pattern.len() implies s[place + k] == #[trigger] pattern[k] by {
            assert(part[k] == s[place + k]);
        }
    }
    if stands_at(s, pattern, place) {
        assert(s.subrange(place, place + pattern.len()) =~= pattern);
    }
}

/// A new file is the block and a newline.
pub proof fn law_new_file_is_the_block(block: &str, r: String)
    requires
        call_ensures(dotenv::update_dotenv, (None::<&str>, block), r),
    ensures
        r@ == block@ + "\n"@,
{
}

/// In a file with a block, the first block is replaced up to the blank line behind it, or up to
/// the end where there is none, and everything else stays.
pub proof fn law_first_block_is_replaced(
    contents: &str,
    block: &str,
    start: int,
    end: int,
    r: String,
)
    requires
        call_ensures(dotenv::update_dotenv, (Some(contents), block), r),
        stands_at(contents@, "# Supabase Configuration"@, start),
        forall|i: int|
            0 <= i < start ==> !#[trigger] stands_at(contents@, "# Supabase Configuration"@, i),
        start <= end,
        stands_at(contents@, "\n\n"@, end) || end == contents@.len(),
        forall|i: int| start <= i < end ==> !#[trigger] stands_at(contents@, "\n\n"@, i),
    ensures
        r@ == contents@.take(start) + block@ + contents@.skip(end),
{
    let c = contents@;
    let mark = "# Supabase Configuration"@;
    lemma_stands(c, mark, start);
    assert forall|i: int| 0 <= i < start implies !#[trigger] text::occurs_at(c, mark, i) by {
        lemma_stands(c, mark, i);
        assert(!stands_at(c, mark, i));
    }
    text::lemma_first_place(c, mark, 0, start);
    assert forall|i: int| start <= i < end implies !#[trigger] text::occurs_at(c, "\n\n"@, i) by {
        lemma_stands(c, "\n\n"@, i);
        assert(!stands_at(c, "\n\n"@, i));
    }
    lemma_stands(c, "\n\n"@, end);
    reveal_strlit("\n\n");
    if stands_at(c, "\n\n"@, end) {
        text::lemma_first_place(c, "\n\n"@, start, end);
    } else {
        if text::first_place(c, "\n\n"@, start) is Some {
            let i = text::first_place(c, "\n\n"@, start)->0;
            assert(text::first_occurrence(c, "\n\n"@, start, i));
            assert(i + 2 <= c.len());
        }
    }
}

/// To a file without a block, the block is appended, with a blank line before it where the file
/// is not empty.
pub proof fn law_block_is_appended(contents: &str, block: &str, r: String)
    requires
        call_ensures(dotenv::update_dotenv, (Some(contents), block), r),
        forall|i: int| !#[trigger] stands_at(contents@, "# Supabase Configuration"@, i),
    ensures
        contents@.len() == 0 ==> r@ == block@ + "\n"@,
        contents@.len() > 0 && contents@.last() == '\n' ==> r@ == contents@ + "\n"@ + block@
            + "\n"@,
        contents@.len() > 0 && contents@.last() != '\n' ==> r@ == contents@ + "\n\n"@ + block@
            + "\n"@,
{
    let c = contents@;
    let mark = "# Supabase Configuration"@;
    if text::first_place(c, mark, 0) is Some {
        let i = text::first_place(c, mark, 0)->0;
        assert(text::first_occurrence(c, mark, 0, i));
        lemma_stands(c, mark, i);
        assert(!stands_at(c, mark, i));
    }
    if c.len() == 0 {
        assert(r@ =~= block@ + "\n"@);
    }
}

/// Whether the first text stands before the second in the order of their characters.
pub open spec fn stands_before(a: Seq<char>, b: Seq<char>) -> bool {
    exists|k: int| #[trigger] parts_at(a, b, k)
}

/// Whether the texts are the same up to this place, where the first ends or has the smaller
/// character.
pub open spec fn parts_at(a: Seq<char>, b: Seq<char>, k: int) -> bool {
    &&& 0 <= k <= a.len()
    &&& k < b.len()
    &&& forall|i: int| 0 <= i < k ==> #[trigger] a[i] == b[i]
    &&& k == a.len() || a[k] < b[k]
}

proof fn lemma_before(a: Seq<char>, b: Seq<char>)
    requires
        text::text_less(a, b),
    ensures
        stands_before(a, b),
    decreases a.len(),
{
    if a.len() == 0 {
        assert(parts_at(a, b, 0));
    } else if a[0] != b[0] {
        assert(parts_at(a, b, 0));
    } else {
        let x = a.skip(1);
        let y = b.skip(1);
        lemma_before(x, y);
        let k = choose|k: int| #[trigger] parts_at(x, y, k);
        assert forall|i: int| 0 <= i < k + 1 implies #[trigger] a[i] == b[i] by {
            if i > 0 {
                assert(x[i - 1] == y[i - 1]);
            }
        }
        assert(parts_at(a, b, k + 1));
    }
}

/// The parts, one behind the other, with the same text between them.
pub open spec fn joined(parts: Seq<Seq<char>>, between: Seq<char>) -> Seq<char>
    decreases parts.len(),
{
    if parts.len() == 0 {
        Seq::empty()
    } else if parts.len() == 1 {
        parts[0]
    } else {
        joined(parts.drop_last(), between) + between + parts.last()
    }
}

/// The branch as it is shown: its name, and behind it in brackets its status and whose it is, as
/// far as these are known.
pub open spec fn shown(branch: BranchInfo) -> Seq<char> {
    let name = branch.branch_name@;
    let status = branch.status@;
    match branch.ownership {
        BranchOwnership::Yours => if status.len() == 0 {
            name + (" ("@ + "YOURS"@ + ")"@)
        } else {
            name + (" ("@ + status + ", "@ + "YOURS"@ + ")"@)
        },
        BranchOwnership::Other => if status.len() == 0 {
            name + (" ("@ + "OTHER"@ + ")"@)
        } else {
            name + (" ("@ + status + ", "@ + "OTHER"@ + ")"@)
        },
        BranchOwnership::Untracked => if status.len() == 0 {
            name + (" ("@ + "UNTRACKED"@ + ")"@)
        } else {
            name + (" ("@ + status + ", "@ + "UNTRACKED"@ + ")"@)
        },
        BranchOwnership::Unspecified => if status.len() == 0 {
            name
        } else {
            name + (" ("@ + status + ")"@)
        },
    }
}

/// The lines of the first `n` of the branches at these places; the last of all closes the tree.
pub open spec fn rows(branches: Seq<BranchInfo>, at: Seq<int>, n: nat) -> Seq<char>
    decreases n,
{
    if n == 0 {
        Seq::empty()
    } else {
        rows(branches, at, (n - 1) as nat) + "\n"@ + (if n == at.len() {
            "└── "@
        } else {
            "├── "@
        }) + shown(branches[at[n - 1]])
    }
}

/// Whether these are the places of the branches of the project, in order and all of them.
pub open spec fn are_places(branches: Seq<BranchInfo>, project: Seq<char>, at: Seq<int>) -> bool {
    &&& forall|k: int, l: int| 0 <= k < l < at.len() ==> #[trigger] at[k] < #[trigger] at[l]
    &&& forall|k: int|
        0 <= k < at.len() ==> 0 <= #[trigger] at[k] < branches.len()
            && branches[at[k]].project_name@ == project
    &&& forall|i: int|
        0 <= i < branches.len() && (#[trigger] branches[i]).project_name@ == project ==> at.contains(
            i,
        )
}

/// Whether the texts are, project by project, the name of the project and the lines of its
/// branches.
pub open spec fn are_sections(
    sections: Seq<Seq<char>>,
    branches: Seq<BranchInfo>,
    names: Seq<Seq<char>>,
    at: Seq<Seq<int>>,
) -> bool {
    &&& sections.len() == names.len()
    &&& at.len() == names.len()
    &&& forall|k: int|
        0 <= k < names.len() ==> are_places(branches, names[k], #[trigger] at[k]) && sections[k]
            == names[k] + rows(branches, at[k], at[k].len())
}

proof fn lemma_rows(
    branches: Seq<BranchInfo>,
    own: Seq<BranchInfoView>,
    at: Seq<int>,
    n: nat,
)
    requires
        own.len() == at.len(),
        n <= at.len(),
        forall|k: int|
            0 <= k < at.len() ==> 0 <= #[trigger] at[k] < branches.len() && own[k]
                == branches[at[k]]@,
    ensures
        tree::branch_lines(own, n) == rows(branches, at, n),
    decreases n,
{
    if n > 0 {
        lemma_rows(branches, own, at, (n - 1) as nat);
        let branch = branches[at[n - 1]];
        assert(own[n - 1] == branch@);
        assert(branch@.branch_name + tree::remark(branch@) =~= shown(branch));
        assert(tree::branch_lines(own, n) =~= rows(branches, at, n));
    }
}

proof fn lemma_section(branches: Seq<BranchInfo>, project: Seq<char>) -> (at: Seq<int>)
    ensures
        are_places(branches, project, at),
        tree::project_tree(messages::branch_views(branches), project) == project + rows(
            branches,
            at,
            at.len(),
        ),
{
    let views = messages::branch_views(branches);
    let keep = tree::of_project(project);
    let at = listing_laws::lemma_kept_places(views, keep);
    let own = views.filter(keep);
    assert(views.len() == branches.len());
    assert forall|k: int| 0 <= k < at.len() implies 0 <= #[trigger] at[k] < branches.len()
        && branches[at[k]].project_name@ == project && own[k] == branches[at[k]]@ by {
        assert(views[at[k]] == branches[at[k]]@);
        assert(keep(views[at[k]]));
    }
    assert forall|i: int|
        0 <= i < branches.len() && (#[trigger] branches[i]).project_name@ == project implies
        at.contains(i) by {
        assert(views[i] == branches[i]@);
        assert(keep(views[i]));
    }
    lemma_rows(branches, own, at, at.len());
    at
}

proof fn lemma_sections(branches: Seq<BranchInfo>, names: Seq<Seq<char>>, n: nat) -> (found: (
    Seq<Seq<char>>,
    Seq<Seq<int>>,
))
    requires
        n <= names.len(),
    ensures
        are_sections(found.0, branches, names.take(n as int), found.1),
        joined(found.0, "\n\n"@) == tree::project_trees(
            messages::branch_views(branches),
            names,
            n,
        ),
    decreases n,
{
    let views = messages::branch_views(branches);
    if n == 0 {
        (Seq::empty(), Seq::empty())
    } else {
        let before = lemma_sections(branches, names, (n - 1) as nat);
        let project = names[n - 1];
        let at = lemma_section(branches, project);
        let section = project + rows(branches, at, at.len());
        let sections = before.0.push(section);
        let places = before.1.push(at);
        let part = names.take(n as int);
        let front = names.take(n - 1);
        assert forall|k: int| 0 <= k < part.len() implies are_places(
            branches,
            part[k],
            #[trigger] places[k],
        ) && sections[k] == part[k] + rows(branches, places[k], places[k].len()) by {
            if k < n - 1 {
                assert(front[k] == part[k]);
                assert(before.1[k] == places[k]);
                assert(before.0[k] == sections[k]);
            }
        }
        assert(sections.drop_last() =~= before.0);
        if n == 1 {
            assert(joined(sections, "\n\n"@) == section);
        }
        (sections, places)
    }
}

/// What the tree of branches is made of: the projects of the branches, each once and in the order
/// of their names, and under each the lines of its branches, with a blank line between projects.
pub struct Layout {
    pub names: Seq<Seq<char>>,
    pub at: Seq<Seq<int>>,
    pub sections: Seq<Seq<char>>,
}

/// The tree of branches shows each project with a branch once, in the order of their names, and
/// under it each of its branches once, in the order in which they were listed, with its status and
/// whose it is.
pub proof fn law_tree_shows_the_branches_by_project(branches: &[BranchInfo], r: String) -> (layout:
    Layout)
    requires
        call_ensures(tree::render_branch_tree, (branches,), r),
    ensures
        branches@.len() == 0 ==> r@ == "No branches found."@,
        branches@.len() > 0 ==> r@ == joined(layout.sections, "\n\n"@) && layout.names.len() > 0,
        are_sections(layout.sections, branches@, layout.names, layout.at),
        forall|k: int, l: int|
            0 <= k < l < layout.names.len() ==> stands_before(
                #[trigger] layout.names[k],
                #[trigger] layout.names[l],
            ),
        forall|i: int|
            0 <= i < branches@.len() ==> layout.names.contains(
                (#[trigger] branches@[i]).project_name@,
            ),
        forall|k: int| 0 <= k < layout.names.len() ==> (#[trigger] layout.at[k]).len() > 0,
{
    let views = messages::branch_views(branches@);
    let names = tree::sorted_projects(views);
    assert(views.len() == branches@.len());
    tree::law_projects_are_sorted_and_complete(views);
    let found = lemma_sections(branches@, names, names.len());
    assert(names.take(names.len() as int) =~= names);
    assert forall|k: int, l: int| 0 <= k < l < names.len() implies stands_before(
        #[trigger] names[k],
        #[trigger] names[l],
    ) by {
        lemma_before(names[k], names[l]);
    }
    assert forall|i: int| 0 <= i < branches@.len() implies names.contains(
        (#[trigger] branches@[i]).project_name@,
    ) by {
        assert(views[i] == branches@[i]@);
    }
    assert forall|k: int| 0 <= k < names.len() implies (#[trigger] found.1[k]).len() > 0 by {
        let i = choose|i: int|
            0 <= i < views.len() && (#[trigger] views[i]).project_name == names[k];
        assert(views[i] == branches@[i]@);
        assert(are_places(branches@, names[k], found.1[k]));
        assert(found.1[k].contains(i));
    }
    if branches@.len() > 0 {
        assert(names.contains(branches@[0].project_name@));
    }
    Layout { names, at: found.1, sections: found.0 }
}

/// The tree of projects and branches shows each project that it was told of and each with a
/// branch once, in the order of their names, and under it each of its branches once.
pub proof fn law_tree_shows_the_projects_told_of(
    projects: &[String],
    branches: &[BranchInfo],
    r: String,
) -> (layout: Layout)
    requires
        call_ensures(tree::render_project_tree, (projects, branches), r),
    ensures
        projects@.len() == 0 && branches@.len() == 0 ==> r@ == "No branches found."@,
        projects@.len() > 0 || branches@.len() > 0 ==> r@ == joined(layout.sections, "\n\n"@)
            && layout.names.len() > 0,
        are_sections(layout.sections, branches@, layout.names, layout.at),
        forall|k: int, l: int|
            0 <= k < l < layout.names.len() ==> stands_before(
                #[trigger] layout.names[k],
                #[trigger] layout.names[l],
            ),
        forall|i: int|
            0 <= i < projects@.len() ==> layout.names.contains((#[trigger] projects@[i])@),
        forall|i: int|
            0 <= i < branches@.len() ==> layout.names.contains(
                (#[trigger] branches@[i]).project_name@,
            ),
        forall|k: int|
            0 <= k < layout.names.len() ==> (#[trigger] layout.at[k]).len() > 0 || exists|i: int|
                0 <= i < projects@.len() && (#[trigger] projects@[i])@ == layout.names[k],
{
    let views = messages::branch_views(branches@);
    let told = text::texts(projects@);
    let with_branches = tree::sorted_projects(views);
    let names = tree::all_projects(told, told.len(), views);
    assert(views.len() == branches@.len() && told.len() == projects@.len());
    tree::law_projects_are_sorted_and_complete(views);
    tree::lemma_all_projects(told, told.len(), views);
    assert(told.take(told.len() as int) =~= told);
    let found = lemma_sections(branches@, names, names.len());
    assert(names.take(names.len() as int) =~= names);
    assert forall|k: int, l: int| 0 <= k < l < names.len() implies stands_before(
        #[trigger] names[k],
        #[trigger] names[l],
    ) by {
        lemma_before(names[k], names[l]);
    }
    assert forall|i: int| 0 <= i < projects@.len() implies names.contains(
        (#[trigger] projects@[i])@,
    ) by {
        assert(told[i] == projects@[i]@);
        assert(told.contains(told[i]));
    }
    assert forall|i: int| 0 <= i < branches@.len() implies names.contains(
        (#[trigger] branches@[i]).project_name@,
    ) by {
        assert(views[i] == branches@[i]@);
    }
    assert forall|k: int| 0 <= k < names.len() implies (#[trigger] found.1[k]).len() > 0 || exists|
        i: int,
    |
        0 <= i < projects@.len() && (#[trigger] projects@[i])@ == names[k] by {
        assert(names.contains(names[k]));
        if with_branches.contains(names[k]) {
            let m = choose|m: int| 0 <= m < with_branches.len() && with_branches[m] == names[k];
            let i = choose|i: int|
                0 <= i < views.len() && (#[trigger] views[i]).project_name == with_branches[m];
            assert(views[i] == branches@[i]@);
            assert(are_places(branches@, names[k], found.1[k]));
            assert(found.1[k].contains(i));
        } else {
            let i = choose|i: int| 0 <= i < told.len() && told[i] == names[k];
            assert(told[i] == projects@[i]@);
        }
    }
    if branches@.len() > 0 {
        assert(names.contains(branches@[0].project_name@));
    }
    if projects@.len() > 0 {
        assert(names.contains(projects@[0]@));
    }
    if projects@.len() == 0 && branches@.len() == 0 {
        assert(names.len() == 0);
    }
    Layout { names, at: found.1, sections: found.0 }
}

/// How the ownership of a branch is shown.
pub proof fn law_ownership_has_its_label(ownership: BranchOwnership, r: Option<&'static str>)
    requires
        call_ensures(tree::ownership_label, (ownership,), r),
    ensures
        ownership == BranchOwnership::Yours ==> (r matches Some(label) && label@ == "YOURS"@),
        ownership == BranchOwnership::Other ==> (r matches Some(label) && label@ == "OTHER"@),
        ownership == BranchOwnership::Untracked ==> (r matches Some(label) && label@
            == "UNTRACKED"@),
        ownership == BranchOwnership::Unspecified ==> r is None,
{
}

} // verus!

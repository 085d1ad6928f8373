//! The names of the branches that hold demo states.

use vstd::prelude::*;

use crate::text;
use crate::text::{lower_text, string_of, trim_mark};

verus! {

/// Whether the character stands in the name of a branch as it is.
pub open spec fn kept(c: char) -> bool {
    ('a' <= c && c <= 'z') || ('A' <= c && c <= 'Z') || ('0' <= c && c <= '9') || c == '.' || c
        == '_'
}

/// The text with each run of other characters replaced by one dash.
pub open spec fn dashed(s: Seq<char>) -> Seq<char>
    decreases s.len(),
{
    if s.len() == 0 {
        Seq::empty()
    } else if kept(s.last()) {
        dashed(s.drop_last()).push(s.last())
    } else if s.len() > 1 && !kept(s[s.len() - 2]) {
        dashed(s.drop_last())
    } else {
        dashed(s.drop_last()).push('-')
    }
}

/// The most characters of a demo state's name that go into the name of its branch.
pub const MAX_STATE_CHARS: usize = 80;

/// The name of the branch for a demo state whose name is `lowered` in lower case.
pub open spec fn demo_branch_name(lowered: Seq<char>) -> Seq<char> {
    let body = text::trimmed_of(dashed(lowered), '-');
    if body.len() == 0 {
        "demo/state"@
    } else if body.len() <= MAX_STATE_CHARS {
        "demo/"@ + body
    } else {
        "demo/"@ + body.take(MAX_STATE_CHARS as int)
    }
}

fn is_kept(c: char) -> (r: bool)
    ensures
        r == kept(c),
{
    (c >= 'a' && c <= 'z') || (c >= 'A' && c <= 'Z') || (c >= '0' && c <= '9') || c == '.' || c
        == '_'
}

/// The name of the branch for a demo state whose name is `lowered` in lower case.
pub fn branch_name_of(lowered: &Vec<char>) -> (r: String)
    ensures
        r@ == demo_branch_name(lowered@),
{
    let mut sanitized: Vec<char> = Vec::new();
    let mut last_was_dash = false;
    let mut i: usize = 0;
    while i < lowered.len()
        invariant
            i <= lowered.len(),
            sanitized@ == dashed(lowered@.take(i as int)),
            last_was_dash == (i > 0 && !kept(lowered@[i - 1])),
        decreases lowered.len() - i,
    {
        let c = lowered[i];
        assert(lowered@.take(i + 1).drop_last() =~= lowered@.take(i as int));
        if is_kept(c) {
            sanitized.push(c);
            last_was_dash = false;
        } else if !last_was_dash {
            sanitized.push('-');
            last_was_dash = true;
        }
        i += 1;
    }
    assert(lowered@.take(i as int) =~= lowered@);
    let body = trim_mark(&sanitized, '-');
    if body.len() == 0 {
        return "demo/state".to_string();
    }
    let to: usize = if body.len() <= MAX_STATE_CHARS {
        body.len()
    } else {
        MAX_STATE_CHARS
    };
    assert(body@.subrange(0, to as int) =~= body@.take(to as int));
    assert(body@.take(body@.len() as int) =~= body@);
    let mut name = "demo/".to_string();
    name.append(string_of(&body, 0, to).as_str());
    name
}

/// Whether `branch` is the name of the branch for the demo state `name`.
pub open spec fn branch_for(name: Seq<char>, branch: Seq<char>) -> bool {
    &&& branch == demo_branch_name(text::lowered(name))
    &&& text::no_capitals(text::lowered(name))
    &&& text::lowers_ascii(name)
}

/// The name of the branch for the demo state `name`.
pub fn sanitized_demo_branch_name(name: &str) -> (r: String)
    ensures
        r@ == demo_branch_name(text::lowered(name@)),
        branch_for(name@, r@),
        text::no_capitals(r@),
        (forall|i: int| 0 <= i < name@.len() ==> text::ascii(#[trigger] name@[i])) ==> r@
            == demo_branch_name(name@.map_values(|c: char| text::ascii_lowercase(c))),
{
    let lowered = lower_text(name);
    proof {
        law_demo_branch_name_is_plain(lowered@);
    }
    branch_name_of(&lowered)
}

proof fn lemma_dashed(s: Seq<char>)
    ensures
        forall|i: int|
            0 <= i < dashed(s).len() ==> kept(#[trigger] dashed(s)[i]) || dashed(s)[i] == '-',
        forall|i: int, j: int|
            0 <= i && j == i + 1 && j < dashed(s).len() ==> kept(#[trigger] dashed(s)[i]) || kept(
                #[trigger] dashed(s)[j],
            ),
        s.len() > 0 ==> dashed(s).len() > 0 && kept(dashed(s).last()) == kept(s.last()),
        text::no_capitals(s) ==> text::no_capitals(dashed(s)),
    decreases s.len(),
{
    if s.len() > 0 {
        let before = s.drop_last();
        lemma_dashed(before);
        if before.len() > 0 {
            assert(before.last() == s[s.len() - 2]);
        }
        if text::no_capitals(s) {
            assert(forall|i: int| 0 <= i < before.len() ==> #[trigger] before[i] == s[i]);
            assert(!text::capital(s[s.len() - 1]));
        }
    }
}

/// The name of a demo state's branch is `demo/` and one to eighty letters, digits, dots,
/// underscores and dashes; these do not begin with a dash, and no dash follows another. There
/// are no capitals among them where the lower-case form of the state's name has none.
pub proof fn law_demo_branch_name_is_plain(lowered: Seq<char>)
    ensures
        ({
            let name = demo_branch_name(lowered);
            &&& text::occurs_at(name, "demo/"@, 0)
            &&& 6 <= name.len() <= 85
            &&& name[5] != '-'
            &&& forall|i: int| 5 <= i < name.len() ==> kept(#[trigger] name[i]) || name[i] == '-'
            &&& forall|i: int, j: int|
                5 <= i && j == i + 1 && j < name.len() ==> kept(#[trigger] name[i]) || kept(
                    #[trigger] name[j],
                )
            &&& text::no_capitals(lowered) ==> text::no_capitals(name)
        }),
{
    reveal_strlit("demo/");
    reveal_strlit("demo/state");
    let all = dashed(lowered);
    let same = text::being('-');
    let body = text::trimmed_of(all, '-');
    let name = demo_branch_name(lowered);
    lemma_dashed(lowered);
    let start = text::drop_start(all, same);
    text::lemma_drop_start(all, same);
    text::lemma_drop_end(start, same);
    let from = all.len() - start.len();
    assert(forall|i: int| 0 <= i < body.len() ==> body[i] == #[trigger] all[i + from]);
    assert(name.subrange(0, 5) =~= "demo/"@);
    if body.len() > 0 {
        assert(forall|i: int| 5 <= i < name.len() ==> #[trigger] name[i] == all[i - 5 + from]);
        assert(body[0] == start[0]);
    }
    if text::no_capitals(lowered) {
        assert forall|i: int| 0 <= i < name.len() implies !text::capital(#[trigger] name[i]) by {
            if i >= 5 && body.len() > 0 {
                assert(name[i] == all[i - 5 + from]);
            }
        }
    }
}

proof fn lemma_dashed_keeps(s: Seq<char>)
    requires
        forall|i: int| 0 <= i < s.len() ==> kept(#[trigger] s[i]) || s[i] == '-',
        forall|i: int, j: int|
            0 <= i && j == i + 1 && j < s.len() ==> kept(#[trigger] s[i]) || kept(#[trigger] s[j]),
    ensures
        dashed(s) == s,
    decreases s.len(),
{
    if s.len() > 0 {
        let before = s.drop_last();
        assert(forall|i: int| 0 <= i < before.len() ==> #[trigger] before[i] == s[i]);
        lemma_dashed_keeps(before);
        let n = s.len() - 1;
        assert(kept(s[n]) || s[n] == '-');
        if n > 0 {
            assert(kept(s[n - 1]) || kept(s[n]));
        }
        assert(dashed(s) =~= s);
    }
}

/// The part of a branch's name behind `demo/`, taken as the name of a demo state, leads to the
/// same branch, unless it was cut off behind a dash.
pub proof fn law_sanitising_again_changes_nothing(
    name: Seq<char>,
    branch: Seq<char>,
    state: Seq<char>,
    again: Seq<char>,
)
    requires
        branch_for(name, branch),
        branch == "demo/"@ + state,
        state.last() != '-',
        branch_for(state, again),
    ensures
        again == branch,
{
    reveal_strlit("demo/");
    law_demo_branch_name_is_plain(text::lowered(name));
    assert(forall|i: int| 0 <= i < state.len() ==> #[trigger] state[i] == branch[i + 5]);
    assert(text::no_capitals(state));
    assert forall|i: int| 0 <= i < state.len() implies text::ascii(#[trigger] state[i]) by {
        assert(kept(branch[i + 5]) || branch[i + 5] == '-');
    }
    text::lemma_lowered_keeps(state);
    lemma_dashed_keeps(state);
    assert(state[0] == branch[5]);
    let same = text::being('-');
    assert(!same(state[0]) && !same(state.last()));
    assert(text::drop_start(state, same) == state);
    assert(text::trimmed_of(state, '-') == state);
}

/// A demo state's name leads to the same branch in ASCII capitals.
pub proof fn law_ascii_case_makes_no_difference(
    name: Seq<char>,
    branch: Seq<char>,
    raised: Seq<char>,
)
    requires
        branch_for(name, branch),
        branch_for(text::ascii_raised(name), raised),
    ensures
        raised == branch,
{
    text::lemma_lowered_ignores_case(name);
}

} // verus!

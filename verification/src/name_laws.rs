//! How the branches of demo states are named, whatever the demo states are named.

use vstd::prelude::*;

use crate::{branch_names, text};

verus! {

/// The characters of the text that may stand in a branch's name.
pub open spec fn kept_of(s: Seq<char>) -> Seq<char> {
    s.filter(
        |c: char|
            ('a' <= c && c <= 'z') || ('A' <= c && c <= 'Z') || ('0' <= c && c <= '9') || c == '.'
                || c == '_',
    )
}

proof fn lemma_kept_of_sum(a: Seq<char>, b: Seq<char>)
    ensures
        kept_of(a + b) == kept_of(a) + kept_of(b),
    decreases b.len(),
{
    reveal(Seq::filter);
    if b.len() == 0 {
        assert(a + b =~= a);
        assert(kept_of(a) + kept_of(b) =~= kept_of(a));
    } else {
        lemma_kept_of_sum(a, b.drop_last());
        assert((a + b).drop_last() =~= a + b.drop_last());
        assert((a + b).last() == b.last());
        assert(kept_of(a + b) =~= kept_of(a) + kept_of(b));
    }
}

proof fn lemma_none_kept(s: Seq<char>)
    requires
        forall|i: int| 0 <= i < s.len() ==> #[trigger] s[i] == '-',
    ensures
        kept_of(s) == Seq::<char>::empty(),
    decreases s.len(),
{
    reveal(Seq::filter);
    if s.len() > 0 {
        lemma_none_kept(s.drop_last());
        assert(s.last() == s[s.len() - 1]);
    }
}

proof fn lemma_dashes_lose_nothing(s: Seq<char>)
    ensures
        kept_of(branch_names::dashed(s)) == kept_of(s),
    decreases s.len(),
{
    reveal(Seq::filter);
    if s.len() > 0 {
        let before = s.drop_last();
        lemma_dashes_lose_nothing(before);
        let d = branch_names::dashed(before);
        if branch_names::kept(s.last()) {
            assert(d.push(s.last()).drop_last() =~= d);
        } else {
            assert(d.push('-').drop_last() =~= d);
        }
    }
}

/// Whether the characters are a name for the branch of a demo state with this name in lower case:
/// `demo/`, and behind it the letters, digits, dots and underscores of that name in the same
/// order, all of them or the first of them where the branch's name is of the full length, with
/// single dashes between them; or `demo/state` where there are none.
pub open spec fn is_name_of_lowered(branch: Seq<char>, lowered: Seq<char>) -> bool {
    &&& 6 <= branch.len() <= 85
    &&& branch.take(5) == "demo/"@
    &&& branch[5] != '-'
    &&& forall|i: int|
        5 <= i < branch.len() ==> kept_of(seq![#[trigger] branch[i]]).len() == 1 || branch[i] == '-'
    &&& forall|i: int, j: int|
        5 <= i && j == i + 1 && j < branch.len() ==> #[trigger] branch[i] != '-'
            || #[trigger] branch[j] != '-'
    &&& kept_of(lowered).len() == 0 ==> branch == "demo/state"@
    &&& kept_of(lowered).len() > 0 ==> {
        let shown = kept_of(branch.skip(5));
        &&& branch.len() < 85 ==> shown == kept_of(lowered)
        &&& shown.len() <= kept_of(lowered).len()
        &&& shown == kept_of(lowered).take(shown.len() as int)
    }
}

/// Whether the characters are a name for the branch of a demo state with this name.
pub open spec fn is_name_for(branch: Seq<char>, name: Seq<char>) -> bool {
    is_name_of_lowered(branch, text::lowered(name))
}

pub proof fn lemma_name_for(name: Seq<char>)
    ensures
        is_name_for(branch_names::demo_branch_name(text::lowered(name)), name),
{
    lemma_name_of_lowered(text::lowered(name));
}

proof fn lemma_kept_alone(c: char)
    ensures
        kept_of(seq![c]).len() == 1 <==> branch_names::kept(c),
{
    reveal_with_fuel(Seq::filter, 2);
    assert(seq![c].drop_last() =~= Seq::empty());
    assert(seq![c].last() == c);
}

proof fn lemma_some_kept(body: Seq<char>)
    requires
        body.len() > 0,
        branch_names::kept(body[0]),
    ensures
        kept_of(body).len() > 0,
{
    lemma_kept_alone(body[0]);
    assert(body =~= seq![body[0]] + body.skip(1));
    lemma_kept_of_sum(seq![body[0]], body.skip(1));
}

proof fn lemma_name_of_lowered(lowered: Seq<char>)
    ensures
        is_name_of_lowered(branch_names::demo_branch_name(lowered), lowered),
{
    reveal_strlit("demo/");
    reveal_strlit("demo/state");
    branch_names::law_demo_branch_name_is_plain(lowered);
    let name = branch_names::demo_branch_name(lowered);
    let all = branch_names::dashed(lowered);
    let same = text::being('-');
    let start = text::drop_start(all, same);
    text::lemma_drop_start(all, same);
    text::lemma_drop_end(start, same);
    let body = text::trimmed_of(all, '-');
    assert(body == text::drop_end(start, same));
    let from = all.len() - start.len();
    let head = all.take(from);
    let tail = start.skip(body.len() as int);
    assert(forall|i: int| 0 <= i < start.len() ==> start[i] == #[trigger] all[i + from]);
    assert forall|i: int| 0 <= i < head.len() implies #[trigger] head[i] == '-' by {
        assert(same(all[i]));
    }
    assert forall|i: int| 0 <= i < tail.len() implies #[trigger] tail[i] == '-' by {
        assert(same(start[i + body.len()]));
    }
    assert(all =~= head + start);
    assert(start =~= body + tail);
    lemma_kept_of_sum(head, start);
    lemma_kept_of_sum(body, tail);
    lemma_none_kept(head);
    lemma_none_kept(tail);
    lemma_dashes_lose_nothing(lowered);
    assert(kept_of(body) =~= kept_of(lowered));
    let shown = name.skip(5);
    if body.len() == 0 {
        lemma_none_kept(body);
    } else if body.len() <= 80 {
        assert(shown =~= body);
        assert(kept_of(body).take(kept_of(body).len() as int) =~= kept_of(body));
    } else {
        assert(shown =~= body.take(80));
        assert(body =~= body.take(80) + body.skip(80));
        lemma_kept_of_sum(body.take(80), body.skip(80));
        assert(kept_of(body).take(kept_of(shown).len() as int) =~= kept_of(shown));
    }
    assert(name.take(5) =~= name.subrange(0, 5));
    assert forall|i: int| 5 <= i < name.len() implies kept_of(seq![#[trigger] name[i]]).len() == 1
        || name[i] == '-' by {
        lemma_kept_alone(name[i]);
    }
    if kept_of(lowered).len() == 0 && body.len() > 0 {
        assert(name[5] == body[0]);
        lemma_some_kept(body);
    }
}

/// The name of a demo state's branch is `demo/` and the plain characters of its name in lower
/// case, in order.
pub proof fn law_branch_name_follows_the_name_of_the_state(
    lowered: Vec<char>,
    r: String,
    name: &str,
    of_name: String,
)
    requires
        call_ensures(branch_names::branch_name_of, (&lowered,), r),
        call_ensures(branch_names::sanitized_demo_branch_name, (name,), of_name),
    ensures
        is_name_of_lowered(r@, lowered@),
        is_name_for(of_name@, name@),
{
    lemma_name_of_lowered(lowered@);
    lemma_name_for(name@);
}

/// Whether every character may stand in a branch's name.
pub open spec fn all_kept(s: Seq<char>) -> bool {
    forall|i: int| 0 <= i < s.len() ==> branch_names::kept(#[trigger] s[i])
}

/// Whether no character may stand in a branch's name.
pub open spec fn none_kept(s: Seq<char>) -> bool {
    forall|i: int| 0 <= i < s.len() ==> !branch_names::kept(#[trigger] s[i])
}

proof fn lemma_dashed_word(front: Seq<char>, word: Seq<char>)
    requires
        all_kept(word),
    ensures
        branch_names::dashed(front + word) == branch_names::dashed(front) + word,
    decreases word.len(),
{
    let all = front + word;
    if word.len() == 0 {
        assert(all =~= front);
        assert(branch_names::dashed(front) + word =~= branch_names::dashed(front));
    } else {
        let less = word.drop_last();
        assert(forall|i: int| 0 <= i < less.len() ==> #[trigger] less[i] == word[i]);
        lemma_dashed_word(front, less);
        assert(all.drop_last() =~= front + less);
        assert(all.last() == word[word.len() - 1]);
        assert(branch_names::dashed(all) =~= branch_names::dashed(front) + word);
    }
}

proof fn lemma_dashed_gap(front: Seq<char>, gap: Seq<char>)
    requires
        front.len() > 0 ==> branch_names::kept(front.last()),
        gap.len() > 0,
        none_kept(gap),
    ensures
        branch_names::dashed(front + gap) == branch_names::dashed(front).push('-'),
    decreases gap.len(),
{
    let all = front + gap;
    assert(all.last() == gap[gap.len() - 1]);
    if gap.len() == 1 {
        assert(all.drop_last() =~= front);
        if all.len() > 1 {
            assert(all[all.len() - 2] == front.last());
        }
    } else {
        let less = gap.drop_last();
        assert(forall|i: int| 0 <= i < less.len() ==> #[trigger] less[i] == gap[i]);
        lemma_dashed_gap(front, less);
        assert(all.drop_last() =~= front + less);
        assert(all[all.len() - 2] == gap[gap.len() - 2]);
    }
}

/// Two words with anything but plain characters between them, and around them, are joined by one
/// dash in the name of the branch; two that touch are not parted.
pub proof fn law_words_are_joined_by_one_dash(
    before: Seq<char>,
    first: Seq<char>,
    between: Seq<char>,
    second: Seq<char>,
    behind: Seq<char>,
    lowered: Vec<char>,
    r: String,
)
    requires
        none_kept(before),
        none_kept(between),
        none_kept(behind),
        all_kept(first),
        all_kept(second),
        first.len() > 0,
        second.len() > 0,
        first.len() + second.len() < 80,
        lowered@ == before + first + between + second + behind,
        call_ensures(branch_names::branch_name_of, (&lowered,), r),
    ensures
        between.len() > 0 ==> r@ == "demo/"@ + (first + seq!['-'] + second),
        between.len() == 0 ==> r@ == "demo/"@ + (first + second),
{
    let nothing = Seq::<char>::empty();
    let core = if between.len() > 0 {
        first + seq!['-'] + second
    } else {
        first + second
    };
    let head = if before.len() > 0 {
        seq!['-']
    } else {
        nothing
    };
    let tail = if behind.len() > 0 {
        seq!['-']
    } else {
        nothing
    };
    let a = before;
    let b = a + first;
    let c = b + between;
    let d = c + second;
    assert(branch_names::dashed(nothing) =~= nothing);
    if before.len() > 0 {
        assert(nothing + before =~= before);
        lemma_dashed_gap(nothing, before);
    }
    assert(branch_names::dashed(a) =~= head);
    lemma_dashed_word(a, first);
    assert(b.last() == first[first.len() - 1]);
    if between.len() > 0 {
        lemma_dashed_gap(b, between);
    } else {
        assert(c =~= b);
    }
    lemma_dashed_word(c, second);
    assert(d.last() == second[second.len() - 1]);
    if behind.len() > 0 {
        lemma_dashed_gap(d, behind);
    } else {
        assert(d + behind =~= d);
    }
    let all = branch_names::dashed(lowered@);
    assert(all =~= head + core + tail);
    let same = text::being('-');
    assert(core[0] == first[0]);
    assert(core.last() == second[second.len() - 1]);
    assert(!same(core[0]) && !same(core.last()));
    reveal_with_fuel(text::drop_start, 2);
    reveal_with_fuel(text::drop_end, 2);
    let start = text::drop_start(all, same);
    if before.len() > 0 {
        assert(all.skip(1) =~= core + tail);
        assert((core + tail)[0] == core[0]);
    } else {
        assert(all =~= core + tail);
        assert(all[0] == core[0]);
    }
    assert(start == core + tail);
    if behind.len() > 0 {
        assert(start.drop_last() =~= core);
        assert(start.last() == '-');
    } else {
        assert(start =~= core);
    }
    assert(text::trimmed_of(all, '-') == core);
}

/// Of the letters of ASCII, capitals and small letters lead to the same branch: the name in lower
/// case has a small letter for each capital, and every other character of ASCII as it is.
pub proof fn law_name_is_taken_in_lower_case(name: &str, r: Vec<char>)
    requires
        call_ensures(text::lower_text, (name,), r),
        forall|i: int| 0 <= i < name@.len() ==> #[trigger] name@[i] <= '\x7f',
    ensures
        r@.len() == name@.len(),
        forall|i: int|
            0 <= i < name@.len() ==> #[trigger] r@[i] as int == if 'A' <= name@[i] <= 'Z' {
                name@[i] as int + 32
            } else {
                name@[i] as int
            },
{
    assert forall|i: int| 0 <= i < name@.len() implies text::ascii(#[trigger] name@[i]) by {}
    assert forall|i: int| 0 <= i < name@.len() implies #[trigger] r@[i] as int == if 'A' <= name@[i]
        <= 'Z' {
        name@[i] as int + 32
    } else {
        name@[i] as int
    } by {
        assert(r@[i] == text::ascii_lowercase(name@[i]));
    }
}

} // verus!

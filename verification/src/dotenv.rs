//! The block of credentials in a `.env` file.

use vstd::prelude::*;

use crate::text;
use crate::text::{chars_of, find_from, string_of};

verus! {

/// How the block begins.
pub const BLOCK_START: &'static str = "# Supabase Configuration";

/// The block for a branch.
pub open spec fn block_text(
    project_name: Seq<char>,
    branch_name: Seq<char>,
    url: Seq<char>,
    publishable_key: Seq<char>,
    secret_key: Seq<char>,
) -> Seq<char> {
    BLOCK_START@ + " - "@ + project_name + "/"@ + branch_name + "\nSUPABASE_URL="@ + url
        + "\nSUPABASE_PUBLISHABLE_KEY="@ + publishable_key + "\nSUPABASE_KEY="@ + publishable_key
        + "\nSUPABASE_SECRET_KEY="@ + secret_key
}

/// The block for a branch.
pub fn format_supabase_block(
    project_name: &str,
    branch_name: &str,
    url: &str,
    publishable_key: &str,
    secret_key: &str,
) -> (r: String)
    ensures
        r@ == block_text(project_name@, branch_name@, url@, publishable_key@, secret_key@),
{
    let mut block = BLOCK_START.to_string();
    block.append(" - ");
    block.append(project_name);
    block.append("/");
    block.append(branch_name);
    block.append("\nSUPABASE_URL=");
    block.append(url);
    block.append("\nSUPABASE_PUBLISHABLE_KEY=");
    block.append(publishable_key);
    block.append("\nSUPABASE_KEY=");
    block.append(publishable_key);
    block.append("\nSUPABASE_SECRET_KEY=");
    block.append(secret_key);
    block
}

/// The end of the block that begins at `start`: the next blank line, or the end of the file.
pub open spec fn block_end(contents: Seq<char>, start: int) -> int {
    match text::first_place(contents, "\n\n"@, start) {
        Some(end) => end,
        None => contents.len() as int,
    }
}

/// What is put between a file without a block and the block that is appended.
pub open spec fn separator(contents: Seq<char>) -> Seq<char> {
    if contents.len() == 0 {
        Seq::empty()
    } else if contents.last() == '\n' {
        "\n"@
    } else {
        "\n\n"@
    }
}

/// The file with the block in it: in place of the block that was there, or at the end.
pub open spec fn updated(contents: Option<Seq<char>>, block: Seq<char>) -> Seq<char> {
    match contents {
        None => block + "\n"@,
        Some(contents) => match text::first_place(contents, BLOCK_START@, 0) {
            Some(start) => contents.take(start) + block + contents.skip(
                block_end(contents, start),
            ),
            None => contents + separator(contents) + block + "\n"@,
        },
    }
}

/// The new contents of a `.env` file, where `contents` are the old, if there is a file.
pub fn update_dotenv(contents: Option<&str>, block: &str) -> (r: String)
    ensures
        r@ == updated(
            match contents {
                Some(contents) => Some(contents@),
                None => None,
            },
            block@,
        ),
{
    let contents = match contents {
        Some(contents) => contents,
        None => {
            let mut file = block.to_string();
            file.append("\n");
            return file;
        },
    };
    let chars = chars_of(contents);
    let block_start = chars_of(BLOCK_START);
    match find_from(&chars, &block_start, 0) {
        Some(start) => {
            let blank_line = chars_of("\n\n");
            let end: usize = match find_from(&chars, &blank_line, start) {
                Some(end) => end,
                None => chars.len(),
            };
            assert(chars@.subrange(0, start as int) =~= chars@.take(start as int));
            assert(chars@.subrange(end as int, chars@.len() as int) =~= chars@.skip(end as int));
            let mut file = string_of(&chars, 0, start);
            file.append(block);
            file.append(string_of(&chars, end, chars.len()).as_str());
            file
        },
        None => {
            let mut file = contents.to_string();
            if chars.len() > 0 {
                if chars[chars.len() - 1] == '\n' {
                    file.append("\n");
                } else {
                    file.append("\n\n");
                }
            }
            assert(file@ =~= contents@ + separator(contents@));
            file.append(block);
            file.append("\n");
            file
        },
    }
}

/// Whether a text can be found again as a block: it begins like one, holds no blank line and
/// does not end within one.
pub open spec fn tidy(block: Seq<char>) -> bool {
    &&& text::occurs_at(block, BLOCK_START@, 0)
    &&& !text::occurs(block, "\n\n"@)
    &&& block.last() != '\n'
}

/// An update leaves everything outside the block as it was: what stands before and behind the
/// block that it replaces, or the whole file where there is no block.
pub proof fn law_update_keeps_the_rest(contents: Seq<char>, block: Seq<char>)
    ensures
        ({
            let file = updated(Some(contents), block);
            match text::first_place(contents, BLOCK_START@, 0) {
                Some(start) => {
                    &&& file.take(start) == contents.take(start)
                    &&& text::occurs_at(file, block, start)
                    &&& file.skip(start + block.len()) == contents.skip(block_end(contents, start))
                },
                None => {
                    &&& text::occurs_at(file, contents, 0)
                    &&& text::occurs_at(
                        file,
                        block,
                        contents.len() + separator(contents).len() as int,
                    )
                },
            }
        }),
{
    let file = updated(Some(contents), block);
    match text::first_place(contents, BLOCK_START@, 0) {
        Some(start) => {
            assert(text::first_occurrence(contents, BLOCK_START@, 0, start));
            assert(file.take(start) =~= contents.take(start));
            assert(file.subrange(start, start + block.len()) =~= block);
            assert(file.skip(start + block.len()) =~= contents.skip(block_end(contents, start)));
        },
        None => {
            let at = contents.len() + separator(contents).len() as int;
            assert(file.subrange(0, contents.len() as int) =~= contents);
            assert(file.subrange(at, at + block.len()) =~= block);
        },
    }
}

proof fn lemma_no_blank_line(block: Seq<char>, rest: Seq<char>, i: int)
    requires
        tidy(block),
        0 <= i < block.len(),
    ensures
        !text::occurs_at(block + rest, "\n\n"@, i),
{
    reveal_strlit("\n\n");
    let all = block + rest;
    if text::occurs_at(all, "\n\n"@, i) {
        let found = all.subrange(i, i + 2);
        assert(found[0] == '\n' && found[1] == '\n');
        assert(all[i] == '\n' && all[i + 1] == '\n');
        if i + 1 < block.len() {
            assert(block.subrange(i, i + 2) =~= "\n\n"@);
            assert(text::occurs_at(block, "\n\n"@, i));
        } else {
            assert(block.last() == '\n');
        }
    }
}

/// In a file that has a block, the latest update counts: what an earlier update wrote there,
/// where it was tidy, leaves no trace.
pub proof fn law_latest_update_counts(contents: Seq<char>, first: Seq<char>, second: Seq<char>)
    requires
        tidy(first),
        text::occurs(contents, BLOCK_START@),
    ensures
        updated(Some(updated(Some(contents), first)), second) == updated(Some(contents), second),
{
    reveal_strlit("\n\n");
    let at = choose|i: int| #[trigger] text::occurs_at(contents, BLOCK_START@, i);
    text::lemma_some_place(contents, BLOCK_START@, 0, at);
    let start = text::first_place(contents, BLOCK_START@, 0)->0;
    let end = block_end(contents, start);
    let rest = contents.skip(end);
    let file = updated(Some(contents), first);
    let n = BLOCK_START@.len() as int;
    assert(start <= end <= contents.len()) by {
        if text::first_place(contents, "\n\n"@, start) is Some {
            assert(text::first_occurrence(contents, "\n\n"@, start, end));
        }
    }
    // The block is found where it was.
    assert(text::first_occurrence(file, BLOCK_START@, 0, start)) by {
        assert(file.subrange(start, start + n) =~= first.subrange(0, n));
        assert forall|j: int| 0 <= j < start implies !#[trigger] text::occurs_at(
            file,
            BLOCK_START@,
            j,
        ) by {
            if text::occurs_at(file, BLOCK_START@, j) {
                assert forall|k: int| 0 <= k < start + n implies file[k] == contents[k] by {
                    if k >= start {
                        assert(file[k] == first[k - start]);
                        assert(first[k - start] == first.subrange(0, n)[k - start]);
                        assert(contents[k] == contents.subrange(start, start + n)[k - start]);
                    }
                }
                assert(contents.subrange(j, j + n) =~= file.subrange(j, j + n));
                assert(text::occurs_at(contents, BLOCK_START@, j));
            }
        }
    }
    text::lemma_first_place(file, BLOCK_START@, 0, start);
    // It ends where the rest of the file begins.
    let joined = first + rest;
    assert(file.skip(start) =~= joined);
    assert forall|j: int| start <= j < start + first.len() implies !#[trigger] text::occurs_at(
        file,
        "\n\n"@,
        j,
    ) by {
        lemma_no_blank_line(first, rest, j - start);
        if text::occurs_at(file, "\n\n"@, j) {
            assert(joined.subrange(j - start, j - start + 2) =~= file.subrange(j, j + 2));
        }
    }
    let new_end = start + first.len();
    if text::first_place(contents, "\n\n"@, start) is Some {
        assert(text::occurs_at(contents, "\n\n"@, end));
        assert(file.subrange(new_end, new_end + 2) =~= contents.subrange(end, end + 2));
        assert(text::first_occurrence(file, "\n\n"@, start, new_end));
        text::lemma_first_place(file, "\n\n"@, start, new_end);
    } else {
        assert(rest.len() == 0);
        assert(file.len() == new_end);
        assert(text::first_place(file, "\n\n"@, start) is None) by {
            if text::first_place(file, "\n\n"@, start) is Some {
                let j = choose|j: int| #[trigger] text::first_occurrence(file, "\n\n"@, start, j);
                assert(text::occurs_at(file, "\n\n"@, j));
            }
        }
    }
    assert(block_end(file, start) == new_end);
    assert(file.take(start) =~= contents.take(start));
    assert(file.skip(new_end) =~= rest);
}

/// A block that was appended, where it was tidy, is found again and replaced by the next
/// update; the newline behind it goes with it.
pub proof fn law_appended_block_is_replaced(
    contents: Option<Seq<char>>,
    first: Seq<char>,
    second: Seq<char>,
)
    requires
        tidy(first),
        contents matches Some(old) ==> !text::occurs(old, BLOCK_START@),
    ensures
        ({
            let kept = match contents {
                Some(old) => old + separator(old),
                None => Seq::empty(),
            };
            &&& updated(contents, first) == kept + first + "\n"@
            &&& updated(Some(updated(contents, first)), second) == kept + second
        }),
{
    reveal_strlit("\n");
    reveal_strlit("\n\n");
    reveal_strlit("# Supabase Configuration");
    let old = match contents {
        Some(old) => old,
        None => Seq::empty(),
    };
    let kept = old + separator(old);
    let file = updated(contents, first);
    let n = BLOCK_START@.len() as int;
    let start = kept.len() as int;
    assert(kept =~= match contents {
        Some(old) => old + separator(old),
        None => Seq::empty(),
    });
    if contents is Some {
        assert(text::first_place(old, BLOCK_START@, 0) is None) by {
            if text::first_place(old, BLOCK_START@, 0) is Some {
                let j = choose|j: int|
                    #[trigger] text::first_occurrence(old, BLOCK_START@, 0, j);
                assert(text::occurs_at(old, BLOCK_START@, j));
            }
        }
    }
    assert(file =~= kept + first + "\n"@);
    assert(text::first_occurrence(file, BLOCK_START@, 0, start)) by {
        assert(file.subrange(start, start + n) =~= first.subrange(0, n));
        assert forall|j: int| 0 <= j < start implies !#[trigger] text::occurs_at(
            file,
            BLOCK_START@,
            j,
        ) by {
            if text::occurs_at(file, BLOCK_START@, j) {
                let found = file.subrange(j, j + n);
                if j + n <= old.len() {
                    assert(old.subrange(j, j + n) =~= found);
                    assert(text::occurs_at(old, BLOCK_START@, j));
                } else if j < old.len() {
                    assert(file[old.len() as int] == '\n');
                    assert(found[old.len() - j] == '\n');
                } else {
                    assert(file[j] == '\n');
                    assert(found[0] == '\n');
                }
            }
        }
    }
    text::lemma_first_place(file, BLOCK_START@, 0, start);
    let joined = first + "\n"@;
    assert(text::first_place(file, "\n\n"@, start) is None) by {
        if text::first_place(file, "\n\n"@, start) is Some {
            let j = choose|j: int| #[trigger] text::first_occurrence(file, "\n\n"@, start, j);
            assert(text::occurs_at(file, "\n\n"@, j));
            lemma_no_blank_line(first, "\n"@, j - start);
            assert(joined.subrange(j - start, j - start + 2) =~= file.subrange(j, j + 2));
        }
    }
    assert(file.take(start) =~= kept);
    assert(file.skip(file.len() as int) =~= Seq::empty());
    assert(kept + second + Seq::empty() =~= kept + second);
}

/// Whether each newline is followed by something else.
spec fn lined(s: Seq<char>) -> bool {
    forall|i: int| 0 <= i < s.len() && #[trigger] s[i] == '\n' ==> i + 1 < s.len() && s[i + 1] != '\n'
}

proof fn lemma_lined(a: Seq<char>, b: Seq<char>)
    requires
        lined(a),
        lined(b),
    ensures
        lined(a + b),
{
    let s = a + b;
    assert forall|i: int| 0 <= i < s.len() && #[trigger] s[i] == '\n' implies i + 1 < s.len() && s[i
        + 1] != '\n' by {
        if i < a.len() {
            assert(a[i] == '\n');
            assert(s[i + 1] == a[i + 1]);
        } else {
            assert(b[i - a.len()] == '\n');
            assert(s[i + 1] == b[i - a.len() + 1]);
        }
    }
}

/// The block for a branch is tidy, where none of what goes into it holds a newline.
pub proof fn law_formatted_block_is_tidy(
    project_name: Seq<char>,
    branch_name: Seq<char>,
    url: Seq<char>,
    publishable_key: Seq<char>,
    secret_key: Seq<char>,
)
    requires
        !project_name.contains('\n'),
        !branch_name.contains('\n'),
        !url.contains('\n'),
        !publishable_key.contains('\n'),
        !secret_key.contains('\n'),
    ensures
        tidy(block_text(project_name, branch_name, url, publishable_key, secret_key)),
{
    reveal_strlit("# Supabase Configuration");
    reveal_strlit(" - ");
    reveal_strlit("/");
    reveal_strlit("\nSUPABASE_URL=");
    reveal_strlit("\nSUPABASE_PUBLISHABLE_KEY=");
    reveal_strlit("\nSUPABASE_KEY=");
    reveal_strlit("\nSUPABASE_SECRET_KEY=");
    reveal_strlit("\n\n");
    assert forall|s: Seq<char>| !s.contains('\n') implies lined(s) by {}
    assert(lined(BLOCK_START@));
    assert(lined(" - "@));
    assert(lined("/"@));
    assert(lined("\nSUPABASE_URL="@));
    assert(lined("\nSUPABASE_PUBLISHABLE_KEY="@));
    assert(lined("\nSUPABASE_KEY="@));
    assert(lined("\nSUPABASE_SECRET_KEY="@));
    let head = BLOCK_START@ + " - "@;
    lemma_lined(BLOCK_START@, " - "@);
    lemma_lined(head, project_name);
    let head = head + project_name;
    lemma_lined(head, "/"@);
    let head = head + "/"@;
    lemma_lined(head, branch_name);
    let head = head + branch_name;
    lemma_lined(head, "\nSUPABASE_URL="@);
    let head = head + "\nSUPABASE_URL="@;
    lemma_lined(head, url);
    let head = head + url;
    lemma_lined(head, "\nSUPABASE_PUBLISHABLE_KEY="@);
    let head = head + "\nSUPABASE_PUBLISHABLE_KEY="@;
    lemma_lined(head, publishable_key);
    let head = head + publishable_key;
    lemma_lined(head, "\nSUPABASE_KEY="@);
    let head = head + "\nSUPABASE_KEY="@;
    lemma_lined(head, publishable_key);
    let head = head + publishable_key;
    lemma_lined(head, "\nSUPABASE_SECRET_KEY="@);
    let head = head + "\nSUPABASE_SECRET_KEY="@;
    lemma_lined(head, secret_key);
    let block = head + secret_key;
    assert(block == block_text(project_name, branch_name, url, publishable_key, secret_key));
    assert(block.subrange(0, BLOCK_START@.len() as int) =~= BLOCK_START@);
    assert forall|i: int| !#[trigger] text::occurs_at(block, "\n\n"@, i) by {
        if text::occurs_at(block, "\n\n"@, i) {
            let found = block.subrange(i, i + 2);
            assert(found[0] == '\n' && found[1] == '\n');
            assert(block[i] == '\n' && block[i + 1] == '\n');
        }
    }
    assert(block.last() == block[block.len() - 1]);
}

} // verus!

//! What becomes of the rows of a table that are filed and forgotten under a key of two texts.
//!
//! The tables of branches and of demo states have such a primary key: the database refuses a
//! second row under the same key.

use vstd::prelude::*;

verus! {

/// Something done to a table: a row is filed under a key, or what is filed there is forgotten.
pub enum Step<R> {
    Filed((Seq<char>, Seq<char>), R),
    Forgotten((Seq<char>, Seq<char>)),
}

/// The rows after the step, by key; none where the step is refused, because there is a row under
/// the key already.
pub open spec fn after<R>(rows: Map<(Seq<char>, Seq<char>), R>, step: Step<R>) -> Option<
    Map<(Seq<char>, Seq<char>), R>,
> {
    match step {
        Step::Filed(key, row) => if rows.contains_key(key) {
            None
        } else {
            Some(rows.insert(key, row))
        },
        Step::Forgotten(key) => Some(rows.remove(key)),
    }
}

/// The rows after the steps, by key; one that is refused changes nothing.
pub open spec fn after_all<R>(rows: Map<(Seq<char>, Seq<char>), R>, steps: Seq<Step<R>>) -> Map<
    (Seq<char>, Seq<char>),
    R,
>
    decreases steps.len(),
{
    if steps.len() == 0 {
        rows
    } else {
        let before = after_all(rows, steps.drop_last());
        match after(before, steps.last()) {
            Some(rows) => rows,
            None => before,
        }
    }
}

/// Whether no step forgets what is filed under the key.
pub open spec fn never_forgotten<R>(steps: Seq<Step<R>>, key: (Seq<char>, Seq<char>)) -> bool {
    forall|i: int|
        0 <= i < steps.len() ==> (#[trigger] steps[i] matches Step::Forgotten(other) ==> other
            != key)
}

/// A row that was filed stays as it is under its key until it is forgotten, whatever else is filed
/// and forgotten and however often another is to be filed under the key, which is refused each
/// time.
pub proof fn law_row_stays_until_forgotten<R>(
    rows: Map<(Seq<char>, Seq<char>), R>,
    key: (Seq<char>, Seq<char>),
    row: R,
    steps: Seq<Step<R>>,
    another: R,
)
    requires
        after(rows, Step::Filed(key, row)) is Some,
        never_forgotten(steps, key),
    ensures
        ({
            let later = after_all(after(rows, Step::Filed(key, row))->0, steps);
            &&& later.contains_key(key)
            &&& later[key] == row
            &&& after(later, Step::Filed(key, another)) is None
        }),
    decreases steps.len(),
{
    if steps.len() > 0 {
        let before = steps.drop_last();
        assert(forall|i: int| 0 <= i < before.len() ==> #[trigger] before[i] == steps[i]);
        law_row_stays_until_forgotten(rows, key, row, before, another);
        assert(steps[steps.len() - 1] == steps.last());
    }
}

/// What is done under one key changes nothing under another.
pub proof fn law_keys_are_apart<R>(
    rows: Map<(Seq<char>, Seq<char>), R>,
    step: Step<R>,
    key: (Seq<char>, Seq<char>),
)
    requires
        after(rows, step) is Some,
        match step {
            Step::Filed(other, _) => other != key,
            Step::Forgotten(other) => other != key,
        },
    ensures
        after(rows, step)->0.contains_key(key) == rows.contains_key(key),
        rows.contains_key(key) ==> after(rows, step)->0[key] == rows[key],
{
}

/// What was forgotten is gone, and another may be filed under its key.
pub proof fn law_forgotten_row_is_gone<R>(
    rows: Map<(Seq<char>, Seq<char>), R>,
    key: (Seq<char>, Seq<char>),
    another: R,
)
    ensures
        after(rows, Step::Forgotten(key)) matches Some(left) && !left.contains_key(key) && after(
            left,
            Step::Filed(key, another),
        ) is Some,
{
}

} // verus!

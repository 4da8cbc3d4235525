//! The transcript that a session keeps.
use vstd::prelude::*;

verus! {

/// The most lines that a session keeps.
pub const HISTORY_LIMIT: usize = 4000;

/// The latest lines, as many as are kept.
pub open spec fn latest<T>(lines: Seq<T>) -> Seq<T> {
    if lines.len() > HISTORY_LIMIT {
        lines.skip(lines.len() - HISTORY_LIMIT)
    } else {
        lines
    }
}

/// Drops the oldest lines beyond the limit.
pub fn trim_history(history: Vec<String>) -> (kept: Vec<String>)
    ensures
        kept@ == latest(history@),
{
    let mut history = history;
    if history.len() > HISTORY_LIMIT {
        let overflow: usize = history.len() - HISTORY_LIMIT;
        return history.split_off(overflow);
    }
    history
}

/// A history within the limit is kept whole, and trimming again changes nothing.
pub proof fn trimming_settles<T>(lines: Seq<T>)
    ensures
        latest(lines).len() <= HISTORY_LIMIT,
        lines.len() <= HISTORY_LIMIT ==> latest(lines) == lines,
        latest(latest(lines)) == latest(lines),
{
}

/// The last line is always kept, and what is kept ends as the history does.
pub proof fn trimming_keeps_the_end<T>(lines: Seq<T>, i: int)
    requires
        0 <= i < latest(lines).len(),
    ensures
        latest(lines)[latest(lines).len() - 1 - i] == lines[lines.len() - 1 - i],
{
}

/// Trimming before more lines come makes no difference to what is kept after.
pub proof fn trimming_first_changes_nothing<T>(lines: Seq<T>, more: Seq<T>)
    ensures
        latest(latest(lines) + more) == latest(lines + more),
{
    assert(latest(latest(lines) + more) =~= latest(lines + more));
}

/// Lines published in two batches are kept as if they had been published in one.
pub proof fn batches_do_not_matter<T>(history: Seq<T>, first: Seq<T>, second: Seq<T>)
    ensures
        latest(latest(history + first) + second) == latest(history + (first + second)),
{
    trimming_first_changes_nothing(history + first, second);
    assert((history + first) + second =~= history + (first + second));
}

/// Of more than four thousand lines exactly the last four thousand are kept, of any
/// other number all, and they stay in their order.
pub proof fn the_last_lines_are_kept<T>(lines: Seq<T>, kept: Seq<T>)
    requires
        kept == latest(lines),
    ensures
        lines.len() > 4000 ==> kept.len() == 4000,
        lines.len() <= 4000 ==> kept.len() == lines.len(),
        forall|k: int|
            0 <= k < kept.len() ==> #[trigger] kept[k] == lines[lines.len() - kept.len() + k],
{
}

} // verus!

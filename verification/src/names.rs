//! The names that participants give themselves.
use vstd::prelude::*;

use crate::text::{
    encloses, is_blank, is_white_space, trim, trimmed, trimmed_has_no_blank_ends,
    trimming_keeps_a_trimmed_text, trimming_takes_white_space_alone,
};

verus! {

/// The most characters that a name keeps.
pub const NAME_LIMIT: usize = 40;

/// The name that stands for `name`: without the white space around it, cut to the
/// limit, and `Guest` where nothing is left.
pub open spec fn cleaned(name: Seq<char>) -> Seq<char> {
    let kept = trimmed(name);
    if kept.len() == 0 {
        "Guest"@
    } else if kept.len() > NAME_LIMIT {
        kept.take(NAME_LIMIT as int)
    } else {
        kept
    }
}

/// The name to show for the name that a participant sent.
pub fn clean_name(name: &str) -> (clean: String)
    ensures
        clean@ == cleaned(name@),
{
    let trimmed_name = trim(name);
    if trimmed_name.is_empty() {
        return "Guest".to_string();
    }
    let length: usize = trimmed_name.unicode_len();
    let kept: usize = if length > NAME_LIMIT {
        NAME_LIMIT
    } else {
        length
    };
    trimmed_name.substring_char(0, kept).to_string()
}

/// A shown name is never empty, never longer than the limit, and never starts with
/// white space.
pub proof fn shown_names_are_presentable(name: Seq<char>)
    ensures
        0 < cleaned(name).len() <= NAME_LIMIT,
        !is_white_space(cleaned(name)[0]),
{
    reveal_strlit("Guest");
    trimmed_has_no_blank_ends(name);
}

/// A blank name becomes `Guest`.
pub proof fn blank_names_become_guest(name: Seq<char>)
    requires
        is_blank(name),
    ensures
        cleaned(name) == "Guest"@,
{
    trimmed_has_no_blank_ends(name);
}

/// A name within the limit with no white space at either end is shown as it is.
pub proof fn proper_names_are_kept(name: Seq<char>)
    requires
        0 < name.len() <= NAME_LIMIT,
        !is_white_space(name[0]),
        !is_white_space(name.last()),
    ensures
        cleaned(name) == name,
{
    trimming_keeps_a_trimmed_text(name);
}

/// A shown name is what stands between the white space around the name, or the first
/// forty characters of that; where there is nothing but white space it is `Guest`.
pub proof fn shown_names_are_cut_from_the_name(name: Seq<char>) -> (ends: (int, int))
    ensures
        encloses(name, ends.0, ends.1),
        ends.0 == ends.1 ==> cleaned(name) == "Guest"@,
        0 < ends.1 - ends.0 <= 40 ==> cleaned(name) == name.subrange(ends.0, ends.1),
        40 < ends.1 - ends.0 ==> cleaned(name) == name.subrange(ends.0, ends.0 + 40),
{
    let (start, end) = trimming_takes_white_space_alone(name);
    if 40 < end - start {
        assert(name.subrange(start, end).take(40) =~= name.subrange(start, start + 40));
    }
    (start, end)
}

/// `shown` is what stands between the white space around `name`, or the first forty
/// characters of that, or `Guest` where there is nothing but white space.
pub open spec fn is_shown_name(shown: Seq<char>, name: Seq<char>) -> bool {
    exists|start: int, end: int|
        {
            &&& #[trigger] encloses(name, start, end)
            &&& shown == if start == end {
                "Guest"@
            } else if end - start <= 40 {
                name.subrange(start, end)
            } else {
                name.subrange(start, start + 40)
            }
        }
}

/// The name that is shown is cut from the name that was sent.
pub proof fn cleaning_shows_the_name(name: &str, clean: String)
    requires
        clean@ == cleaned(name@),
    ensures
        is_shown_name(clean@, name@),
{
    let (start, end) = shown_names_are_cut_from_the_name(name@);
}

} // verus!

//! The plain text of styled terminal lines.
use vstd::prelude::*;

use crate::text::texts_of;

verus! {

/// `ratatui::text::Line`, a styled line made of spans.
#[verifier::external_type_specification]
#[verifier::external_body]
pub struct ExLine<'a>(ratatui::text::Line<'a>);

/// The contents of the spans of a line, in their order.
pub uninterp spec fn line_spans(line: ratatui::text::Line<'static>) -> Seq<Seq<char>>;

/// The texts one after the other.
pub open spec fn joined(texts: Seq<Seq<char>>) -> Seq<char>
    decreases texts.len(),
{
    if texts.len() == 0 {
        Seq::empty()
    } else {
        joined(texts.drop_last()) + texts.last()
    }
}

/// The plain text of each line.
pub open spec fn plain_texts(lines: Seq<ratatui::text::Line<'static>>) -> Seq<Seq<char>> {
    lines.map_values(|line: ratatui::text::Line<'static>| joined(line_spans(line)))
}

/// `Line::spans`, the field that holds the spans of a line: the `content` of each
/// span, in their order.
#[verifier::external_body]
fn span_contents(line: &ratatui::text::Line<'static>) -> (contents: Vec<String>)
    ensures
        texts_of(contents@) == line_spans(*line),
{
    line.spans.iter().map(|span| span.content.to_string()).collect()
}

/// The texts one after the other.
pub fn join_texts(texts: &Vec<String>) -> (text: String)
    ensures
        text@ == joined(texts_of(texts@)),
{
    let ghost all = texts_of(texts@);
    let mut text = String::new();
    let mut i: usize = 0;
    while i < texts.len()
        invariant
            i <= texts.len(),
            all == texts_of(texts@),
            text@ == joined(all.take(i as int)),
        decreases texts.len() - i,
    {
        text.append(texts[i].as_str());
        proof {
            let next = all.take(i + 1);
            assert(next.drop_last() =~= all.take(i as int));
            assert(next.last() == texts@[i as int]@);
        }
        i += 1;
    }
    assert(all.take(i as int) =~= all);
    text
}

/// The plain text of each line: the contents of its spans, without their style.
pub fn lines_to_plain_text(lines: Vec<ratatui::text::Line<'static>>) -> (plain: Vec<String>)
    ensures
        texts_of(plain@) == plain_texts(lines@),
{
    let mut plain: Vec<String> = Vec::new();
    let mut i: usize = 0;
    while i < lines.len()
        invariant
            i <= lines.len(),
            texts_of(plain@) =~= plain_texts(lines@).take(i as int),
        decreases lines.len() - i,
    {
        let ghost before = plain@;
        let contents = span_contents(&lines[i]);
        let text = join_texts(&contents);
        plain.push(text);
        proof {
            assert(plain_texts(lines@)[i as int] == text@);
            assert(texts_of(plain@) =~= texts_of(before).push(text@));
        }
        i += 1;
    }
    assert(plain_texts(lines@).take(i as int) =~= plain_texts(lines@));
    plain
}

/// The plain text of a line is that of its first spans followed by that of the rest.
pub proof fn plain_text_follows_the_spans(before: Seq<Seq<char>>, after: Seq<Seq<char>>)
    ensures
        joined(before + after) == joined(before) + joined(after),
    decreases after.len(),
{
    if after.len() == 0 {
        assert(before + after =~= before);
        assert(joined(before) + joined(after) =~= joined(before));
    } else {
        assert((before + after).drop_last() =~= before + after.drop_last());
        plain_text_follows_the_spans(before, after.drop_last());
        assert(joined(before + after) =~= joined(before) + joined(after));
    }
}

proof fn lemma_joined_is_flat(texts: Seq<Seq<char>>)
    ensures
        joined(texts) == texts.flatten(),
    decreases texts.len(),
{
    if texts.len() > 0 {
        lemma_joined_is_flat(texts.drop_last());
        texts.drop_last().lemma_flatten_push(texts.last());
        assert(texts.drop_last().push(texts.last()) =~= texts);
    }
}

/// The plain text of the lines is that of each line in their order, and that of a line is
/// the contents of its spans, all of them, one right after the other.
pub proof fn plain_texts_are_all_that_the_spans_hold(
    lines: Vec<ratatui::text::Line<'static>>,
    plain: Vec<String>,
)
    requires
        texts_of(plain@) == plain_texts(lines@),
    ensures
        plain@.len() == lines@.len(),
        forall|i: int|
            0 <= i < lines@.len() ==> #[trigger] plain@[i]@ == line_spans(lines@[i]).flatten(),
{
    assert(texts_of(plain@).len() == plain@.len());
    assert forall|i: int| 0 <= i < lines@.len() implies #[trigger] plain@[i]@ == line_spans(
        lines@[i],
    ).flatten() by {
        assert(texts_of(plain@)[i] == plain@[i]@);
        lemma_joined_is_flat(line_spans(lines@[i]));
    }
}

/// Joined texts stand one right after the other: each starts where the lengths of those
/// before it add up to, and nothing else is there.
pub proof fn joined_texts_stand_in_their_places(texts: Vec<String>, text: String, i: int)
    requires
        text@ == joined(texts_of(texts@)),
        0 <= i < texts@.len(),
    ensures
        ({
            let before = joined(texts_of(texts@).take(i)).len() as int;
            let length = texts@[i]@.len() as int;
            &&& before + length <= text@.len()
            &&& text@.subrange(before, before + length) == texts@[i]@
            &&& joined(texts_of(texts@).take(i + 1)).len() == before + length
        }),
        joined(texts_of(texts@).take(0)).len() == 0,
        joined(texts_of(texts@).take(texts@.len() as int)).len() == text@.len(),
{
    let all = texts_of(texts@);
    assert(all.take(i + 1).drop_last() =~= all.take(i));
    assert(all.take(i + 1).last() == texts@[i]@);
    assert(all =~= all.take(i + 1) + all.skip(i + 1));
    plain_text_follows_the_spans(all.take(i + 1), all.skip(i + 1));
    let before = joined(all.take(i)).len() as int;
    assert(text@.subrange(before, before + texts@[i]@.len()) =~= texts@[i]@);
    assert(all.take(all.len() as int) =~= all);
}

/// The plain text of one span is its content, whatever that is, and joined texts are the
/// texts one right after the other.
pub proof fn joined_texts_are_all_there(texts: Vec<String>, text: String)
    requires
        text@ == joined(texts_of(texts@)),
    ensures
        text@ == texts@.map_values(|part: String| part@).flatten(),
        texts@.len() == 1 ==> text@ == texts@[0]@,
{
    let all = texts@.map_values(|part: String| part@);
    assert(texts_of(texts@) =~= all);
    lemma_joined_is_flat(all);
    all.lemma_flatten_one_element();
}

} // verus!

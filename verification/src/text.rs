//! Texts as sequences of characters, and the blank space around them.
use vstd::prelude::*;

verus! {

/// The characters of each string of a sequence.
pub open spec fn texts_of(strings: Seq<String>) -> Seq<Seq<char>> {
    strings.map_values(|string: String| string@)
}

/// The characters of an optional string.
pub open spec fn text_of(string: Option<String>) -> Option<Seq<char>> {
    match string {
        Some(string) => Some(string@),
        None => None,
    }
}

/// The same strings.
pub(crate) fn copy_texts(strings: &Vec<String>) -> (copy: Vec<String>)
    ensures
        copy@ == strings@,
{
    let copy = strings.clone();
    assert(copy@ =~= strings@);
    copy
}

/// A character with the Unicode property `White_Space`.
pub open spec fn is_white_space(c: char) -> bool {
    ||| '\u{9}' <= c <= '\u{d}'
    ||| c == '\u{20}'
    ||| c == '\u{85}'
    ||| c == '\u{a0}'
    ||| c == '\u{1680}'
    ||| '\u{2000}' <= c <= '\u{200a}'
    ||| c == '\u{2028}'
    ||| c == '\u{2029}'
    ||| c == '\u{202f}'
    ||| c == '\u{205f}'
    ||| c == '\u{3000}'
}

/// `text` without the white space that it starts with.
pub open spec fn trim_start(text: Seq<char>) -> Seq<char>
    decreases text.len(),
{
    if text.len() > 0 && is_white_space(text[0]) {
        trim_start(text.drop_first())
    } else {
        text
    }
}

/// `text` without the white space that it ends with.
pub open spec fn trim_end(text: Seq<char>) -> Seq<char>
    decreases text.len(),
{
    if text.len() > 0 && is_white_space(text.last()) {
        trim_end(text.drop_last())
    } else {
        text
    }
}

/// `text` without the white space around it.
pub open spec fn trimmed(text: Seq<char>) -> Seq<char> {
    trim_end(trim_start(text))
}

/// `text` holds nothing but white space.
pub open spec fn is_blank(text: Seq<char>) -> bool {
    forall|i: int| 0 <= i < text.len() ==> is_white_space(#[trigger] text[i])
}

/// `str::trim`: the part of `text` that is left when leading and trailing
/// characters with the Unicode property `White_Space` are taken away.
#[verifier::external_body]
pub(crate) fn trim(text: &str) -> (part: &str)
    ensures
        part@ == trimmed(text@),
{
    text.trim()
}

proof fn lemma_trim_start(text: Seq<char>)
    ensures
        trim_start(text).len() > 0 ==> !is_white_space(trim_start(text)[0]),
        trim_start(text).len() == 0 <==> is_blank(text),
        trim_start(text).len() <= text.len(),
    decreases text.len(),
{
    if text.len() > 0 && is_white_space(text[0]) {
        let rest = text.drop_first();
        lemma_trim_start(rest);
        if is_blank(rest) {
            assert forall|i: int| 0 <= i < text.len() implies is_white_space(
                #[trigger] text[i],
            ) by {
                if i > 0 {
                    assert(text[i] == rest[i - 1]);
                }
            }
        }
        if is_blank(text) {
            assert forall|i: int| 0 <= i < rest.len() implies is_white_space(
                #[trigger] rest[i],
            ) by {
                assert(rest[i] == text[i + 1]);
            }
        }
    }
}

proof fn lemma_trim_end(text: Seq<char>)
    requires
        text.len() > 0 ==> !is_white_space(text[0]),
    ensures
        trim_end(text).len() > 0 ==> !is_white_space(trim_end(text).last()),
        text.len() > 0 ==> trim_end(text).len() > 0 && trim_end(text)[0] == text[0],
        trim_end(text).len() <= text.len(),
    decreases text.len(),
{
    if text.len() > 0 && is_white_space(text.last()) {
        lemma_trim_end(text.drop_last());
    }
}

/// What is left of a text has no white space at either end, and nothing is left of
/// it exactly when it is blank.
pub proof fn trimmed_has_no_blank_ends(text: Seq<char>)
    ensures
        trimmed(text).len() == 0 <==> is_blank(text),
        trimmed(text).len() > 0 ==> !is_white_space(trimmed(text)[0]) && !is_white_space(
            trimmed(text).last(),
        ),
        trimmed(text).len() <= text.len(),
{
    lemma_trim_start(text);
    lemma_trim_end(trim_start(text));
}

/// A text with no white space at either end is left as it is.
pub proof fn trimming_keeps_a_trimmed_text(text: Seq<char>)
    requires
        text.len() > 0 ==> !is_white_space(text[0]) && !is_white_space(text.last()),
    ensures
        trimmed(text) == text,
{
}

/// The model of a sequence of strings has the characters of each, in their order, and
/// that of an optional string has those of the string where there is one.
pub proof fn texts_are_those_of_the_strings(strings: Seq<String>, string: Option<String>)
    ensures
        texts_of(strings).len() == strings.len(),
        forall|i: int| 0 <= i < strings.len() ==> #[trigger] texts_of(strings)[i] == strings[i]@,
        text_of(string) is Some <==> string is Some,
        string matches Some(characters) ==> text_of(string) == Some(characters@),
{
}

/// `start` and `end` enclose the part of `text` that has no white space at either end
/// and outside of which there is nothing else.
pub open spec fn encloses(text: Seq<char>, start: int, end: int) -> bool {
    &&& 0 <= start <= end <= text.len()
    &&& forall|i: int| 0 <= i < start ==> is_white_space(#[trigger] text[i])
    &&& forall|i: int| end <= i < text.len() ==> is_white_space(#[trigger] text[i])
    &&& start < end ==> !is_white_space(text[start]) && !is_white_space(text[end - 1])
}

proof fn lemma_start_of_trimmed(text: Seq<char>) -> (start: int)
    ensures
        0 <= start <= text.len(),
        trim_start(text) == text.skip(start),
        forall|i: int| 0 <= i < start ==> is_white_space(#[trigger] text[i]),
        start < text.len() ==> !is_white_space(text[start]),
    decreases text.len(),
{
    if text.len() > 0 && is_white_space(text[0]) {
        let rest = text.drop_first();
        let start = lemma_start_of_trimmed(rest);
        assert(rest.skip(start) =~= text.skip(start + 1));
        assert forall|i: int| 0 <= i < start + 1 implies is_white_space(#[trigger] text[i]) by {
            if i > 0 {
                assert(rest[i - 1] == text[i]);
            }
        }
        start + 1
    } else {
        assert(text.skip(0) =~= text);
        0
    }
}

proof fn lemma_end_of_trimmed(text: Seq<char>) -> (end: int)
    ensures
        0 <= end <= text.len(),
        trim_end(text) == text.take(end),
        forall|i: int| end <= i < text.len() ==> is_white_space(#[trigger] text[i]),
        0 < end ==> !is_white_space(text[end - 1]),
    decreases text.len(),
{
    if text.len() > 0 && is_white_space(text.last()) {
        let rest = text.drop_last();
        let end = lemma_end_of_trimmed(rest);
        assert(rest.take(end) =~= text.take(end));
        assert forall|i: int| end <= i < text.len() implies is_white_space(#[trigger] text[i]) by {
            if i < rest.len() {
                assert(rest[i] == text[i]);
            }
        }
        end
    } else {
        assert(text.take(text.len() as int) =~= text);
        text.len() as int
    }
}

/// What is left of a text is one stretch of it, which has no white space at either end
/// and outside of which there is nothing else.
pub proof fn trimming_takes_white_space_alone(text: Seq<char>) -> (ends: (int, int))
    ensures
        encloses(text, ends.0, ends.1),
        trimmed(text) == text.subrange(ends.0, ends.1),
{
    let start = lemma_start_of_trimmed(text);
    let rest = text.skip(start);
    let end = lemma_end_of_trimmed(rest);
    assert(rest.take(end) =~= text.subrange(start, start + end));
    assert forall|i: int| start + end <= i < text.len() implies is_white_space(
        #[trigger] text[i],
    ) by {
        assert(rest[i - start] == text[i]);
    }
    if 0 < end {
        assert(rest[0] == text[start]);
        assert(rest[end - 1] == text[start + end - 1]);
    }
    (start, start + end)
}

/// `part` is what stands between the white space around `text`.
pub open spec fn is_trimmed_from(part: Seq<char>, text: Seq<char>) -> bool {
    exists|start: int, end: int| #[trigger]
        encloses(text, start, end) && part == text.subrange(start, end)
}

/// The characters that count as white space, by their numbers.
pub open spec fn white_space_numbers() -> Set<int> {
    set![
        0x9, 0xa, 0xb, 0xc, 0xd, 0x20, 0x85, 0xa0, 0x1680, 0x2000, 0x2001, 0x2002, 0x2003, 0x2004,
        0x2005, 0x2006, 0x2007, 0x2008, 0x2009, 0x200a, 0x2028, 0x2029, 0x202f, 0x205f, 0x3000
    ]
}

/// White space is tabs, line ends, form feeds and the twenty spaces and separators of
/// Unicode, and no other character.
pub proof fn white_space_is_what_unicode_says(c: char)
    ensures
        is_white_space(c) <==> white_space_numbers().contains(c as int),
{
}

} // verus!

//! Strings as JSON texts.
use vstd::prelude::*;

use crate::decimal::digit;

verus! {

/// The character of a hexadecimal digit.
pub open spec fn hex_digit(n: nat) -> char {
    if n < 10 {
        digit(n)
    } else if n == 10 {
        'a'
    } else if n == 11 {
        'b'
    } else if n == 12 {
        'c'
    } else if n == 13 {
        'd'
    } else if n == 14 {
        'e'
    } else {
        'f'
    }
}

/// A character inside a JSON string: quotes, backslashes and control characters are
/// escaped, and every other character stands for itself.
pub open spec fn escaped_char(c: char) -> Seq<char> {
    if c == '"' {
        seq!['\\', '"']
    } else if c == '\\' {
        seq!['\\', '\\']
    } else if c == '\u{8}' {
        seq!['\\', 'b']
    } else if c == '\u{9}' {
        seq!['\\', 't']
    } else if c == '\u{a}' {
        seq!['\\', 'n']
    } else if c == '\u{c}' {
        seq!['\\', 'f']
    } else if c == '\u{d}' {
        seq!['\\', 'r']
    } else if c <= '\u{1f}' {
        seq!['\\', 'u', '0', '0', hex_digit(c as nat / 16), hex_digit(c as nat % 16)]
    } else {
        seq![c]
    }
}

/// The characters between the quotes of a JSON string.
pub open spec fn escaped(text: Seq<char>) -> Seq<char>
    decreases text.len(),
{
    if text.len() == 0 {
        Seq::empty()
    } else {
        escaped_char(text[0]) + escaped(text.drop_first())
    }
}

/// The JSON text of a string.
pub open spec fn quoted(text: Seq<char>) -> Seq<char> {
    seq!['"'] + escaped(text) + seq!['"']
}

/// The JSON texts of strings, with a comma between each two.
pub open spec fn listed(texts: Seq<Seq<char>>) -> Seq<char>
    decreases texts.len(),
{
    if texts.len() == 0 {
        Seq::empty()
    } else if texts.len() == 1 {
        quoted(texts[0])
    } else {
        quoted(texts[0]) + seq![','] + listed(texts.drop_first())
    }
}

/// The JSON text of an array of strings.
pub open spec fn bracketed(texts: Seq<Seq<char>>) -> Seq<char> {
    seq!['['] + listed(texts) + seq![']']
}

// ---------------------------------------------------------------------------
// Laws

/// Where two texts start with the code of a character, that character is the same, and
/// so is what follows.
proof fn lemma_escaped_char_is_read(a: char, b: char, x: Seq<char>, y: Seq<char>)
    requires
        escaped_char(a) + x == escaped_char(b) + y,
    ensures
        a == b,
        x == y,
{
    let one = escaped_char(a) + x;
    let two = escaped_char(b) + y;
    assert(one[0] == escaped_char(a)[0]);
    assert(two[0] == escaped_char(b)[0]);
    if escaped_char(a).len() > 1 && escaped_char(b).len() > 1 {
        assert(one[1] == escaped_char(a)[1]);
        assert(two[1] == escaped_char(b)[1]);
        if escaped_char(a).len() > 2 && escaped_char(b).len() > 2 {
            assert(one[4] == escaped_char(a)[4]);
            assert(two[4] == escaped_char(b)[4]);
            assert(one[5] == escaped_char(a)[5]);
            assert(two[5] == escaped_char(b)[5]);
            assert(a as nat / 16 == b as nat / 16);
            assert(a as nat % 16 == b as nat % 16);
            assert(a as nat == b as nat);
        }
    }
    assert(a == b);
    assert(x =~= one.skip(escaped_char(a).len() as int));
    assert(y =~= two.skip(escaped_char(b).len() as int));
}

/// A quote ends a JSON string: what stands before and after it is the same in equal
/// texts.
proof fn lemma_escaped_is_read(a: Seq<char>, b: Seq<char>, x: Seq<char>, y: Seq<char>)
    requires
        escaped(a) + seq!['"'] + x == escaped(b) + seq!['"'] + y,
    ensures
        a == b,
        x == y,
    decreases a.len(),
{
    let one = escaped(a) + seq!['"'] + x;
    let two = escaped(b) + seq!['"'] + y;
    if a.len() > 0 && b.len() > 0 {
        let rest_a = escaped(a.drop_first()) + seq!['"'] + x;
        let rest_b = escaped(b.drop_first()) + seq!['"'] + y;
        assert(one =~= escaped_char(a[0]) + rest_a);
        assert(two =~= escaped_char(b[0]) + rest_b);
        lemma_escaped_char_is_read(a[0], b[0], rest_a, rest_b);
        lemma_escaped_is_read(a.drop_first(), b.drop_first(), x, y);
        assert(a =~= seq![a[0]] + a.drop_first());
        assert(b =~= seq![b[0]] + b.drop_first());
    } else if a.len() > 0 {
        assert(one[0] == escaped_char(a[0])[0]);
        assert(two[0] == '"');
    } else if b.len() > 0 {
        assert(two[0] == escaped_char(b[0])[0]);
        assert(one[0] == '"');
    } else {
        assert(a =~= b);
        assert(x =~= one.skip(1));
        assert(y =~= two.skip(1));
    }
}

/// Where two texts start with the JSON text of a string, that string is the same, and
/// so is what follows.
pub proof fn quoted_texts_are_read(a: Seq<char>, b: Seq<char>, x: Seq<char>, y: Seq<char>)
    requires
        quoted(a) + x == quoted(b) + y,
    ensures
        a == b,
        x == y,
{
    let one = quoted(a) + x;
    let two = quoted(b) + y;
    assert(one.skip(1) =~= escaped(a) + seq!['"'] + x);
    assert(two.skip(1) =~= escaped(b) + seq!['"'] + y);
    lemma_escaped_is_read(a, b, x, y);
}

/// Different strings have different JSON texts.
pub proof fn quoted_texts_differ(a: Seq<char>, b: Seq<char>)
    requires
        quoted(a) == quoted(b),
    ensures
        a == b,
{
    quoted_texts_are_read(a, b, Seq::empty(), Seq::empty());
}

proof fn lemma_listed_is_read(a: Seq<Seq<char>>, b: Seq<Seq<char>>)
    requires
        listed(a) + seq![']'] == listed(b) + seq![']'],
    ensures
        a == b,
    decreases a.len(),
{
    let one = listed(a) + seq![']'];
    let two = listed(b) + seq![']'];
    if a.len() == 0 && b.len() == 0 {
        assert(a =~= b);
    } else if a.len() == 0 {
        assert(one[0] == ']');
        assert(two[0] == quoted(b[0])[0]);
    } else if b.len() == 0 {
        assert(two[0] == ']');
        assert(one[0] == quoted(a[0])[0]);
    } else {
        let rest_a = after_first(a);
        let rest_b = after_first(b);
        assert(one =~= quoted(a[0]) + rest_a);
        assert(two =~= quoted(b[0]) + rest_b);
        quoted_texts_are_read(a[0], b[0], rest_a, rest_b);
        assert(rest_a[0] == rest_b[0]);
        if a.len() > 1 {
            assert(rest_a.skip(1) =~= listed(a.drop_first()) + seq![']']);
            assert(rest_b.skip(1) =~= listed(b.drop_first()) + seq![']']);
            lemma_listed_is_read(a.drop_first(), b.drop_first());
            assert(a =~= seq![a[0]] + a.drop_first());
            assert(b =~= seq![b[0]] + b.drop_first());
        } else {
            assert(a =~= b);
        }
    }
}

/// What follows the first string of an array.
spec fn after_first(texts: Seq<Seq<char>>) -> Seq<char> {
    if texts.len() > 1 {
        seq![','] + listed(texts.drop_first()) + seq![']']
    } else {
        seq![']']
    }
}

/// Different arrays of strings have different JSON texts.
pub proof fn bracketed_texts_differ(a: Seq<Seq<char>>, b: Seq<Seq<char>>)
    requires
        bracketed(a) == bracketed(b),
    ensures
        a == b,
{
    assert(bracketed(a).skip(1) =~= listed(a) + seq![']']);
    assert(bracketed(b).skip(1) =~= listed(b) + seq![']']);
    lemma_listed_is_read(a, b);
}

/// The number that a lower-case hexadecimal digit stands for.
pub open spec fn hex_value(c: char) -> int {
    if '0' <= c <= '9' {
        c as int - '0' as int
    } else {
        c as int - 'a' as int + 10
    }
}

/// A character from the space on stands for itself, except that a quote and a backslash
/// have a backslash in front. Any other is a backslash and a letter, of which five have
/// their own and the rest have `u` and four hexadecimal digits that give its number.
pub proof fn codes_tell_the_character(c: char)
    ensures
        ({
            let code = escaped_char(c);
            if c == '"' || c == '\\' {
                code == seq!['\\', c]
            } else if ' ' <= c {
                code == seq![c]
            } else if code.len() == 2 {
                &&& code[0] == '\\'
                &&& (code[1] == 'b' && c == '\u{8}' || code[1] == 't' && c == '\t' || code[1] == 'n'
                    && c == '\n' || code[1] == 'f' && c == '\u{c}' || code[1] == 'r' && c == '\r')
            } else {
                &&& code.len() == 6
                &&& code.take(4) == seq!['\\', 'u', '0', '0']
                &&& hex_value(code[4]) * 16 + hex_value(code[5]) == c as int
                &&& c != '\u{8}' && c != '\t' && c != '\n' && c != '\u{c}' && c != '\r'
            }
        }),
{
    if c <= '\u{1f}' && escaped_char(c).len() == 6 {
        assert(escaped_char(c).take(4) =~= seq!['\\', 'u', '0', '0']);
    }
}

/// The characters of a JSON string are the codes of its characters, one right after the
/// other.
pub proof fn strings_are_their_codes(text: Seq<char>)
    ensures
        quoted(text) == seq!['"'] + text.map_values(|c: char| escaped_char(c)).flatten()
            + seq!['"'],
    decreases text.len(),
{
    let codes = text.map_values(|c: char| escaped_char(c));
    if text.len() > 0 {
        let rest = text.drop_first();
        strings_are_their_codes(rest);
        let others = rest.map_values(|c: char| escaped_char(c));
        assert(codes.drop_first() =~= others);
        assert(quoted(rest).subrange(1, quoted(rest).len() - 1) =~= escaped(rest));
        assert(quoted(rest).subrange(1, quoted(rest).len() - 1) =~= others.flatten());
    }
}

/// The JSON text of each string, with a comma in front of each but the first.
pub open spec fn comma_parts(texts: Seq<String>) -> Seq<Seq<char>> {
    Seq::new(
        texts.len(),
        |i: int|
            if i == 0 {
                quoted(texts[0]@)
            } else {
                seq![','] + quoted(texts[i]@)
            },
    )
}

/// The JSON text of each string, with a comma in front of each.
spec fn later_parts(texts: Seq<Seq<char>>) -> Seq<Seq<char>> {
    texts.map_values(|text: Seq<char>| seq![','] + quoted(text))
}

proof fn lemma_listed_parts(texts: Seq<Seq<char>>)
    requires
        texts.len() > 0,
    ensures
        listed(texts) == quoted(texts[0]) + later_parts(texts.drop_first()).flatten(),
    decreases texts.len(),
{
    let rest = texts.drop_first();
    if texts.len() > 1 {
        lemma_listed_parts(rest);
        assert(later_parts(rest).drop_first() =~= later_parts(rest.drop_first()));
        assert(listed(texts) =~= quoted(texts[0]) + later_parts(rest).flatten());
    } else {
        assert(later_parts(rest).flatten() =~= Seq::empty());
        assert(listed(texts) =~= quoted(texts[0]) + later_parts(rest).flatten());
    }
}

/// An array of strings is written as their texts in their order, the first string first,
/// with commas between them and brackets around.
pub proof fn arrays_are_written_in_order(texts: Seq<String>, model: Seq<Seq<char>>)
    requires
        model.len() == texts.len(),
        forall|i: int| 0 <= i < texts.len() ==> #[trigger] model[i] == texts[i]@,
    ensures
        bracketed(model) == seq!['['] + comma_parts(texts).flatten() + seq![']'],
{
    let parts = comma_parts(texts);
    if texts.len() > 0 {
        lemma_listed_parts(model);
        assert(model[0] == texts[0]@);
        let later = later_parts(model.drop_first());
        assert(parts.drop_first().len() == later.len());
        assert forall|i: int| 0 <= i < later.len() implies parts.drop_first()[i] == later[i] by {
            assert(model[i + 1] == texts[i + 1]@);
        }
        assert(parts.drop_first() =~= later);
    }
}

} // verus!

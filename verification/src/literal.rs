//! Writing a string as a string literal of the emitted code.

use vstd::prelude::*;
use vstd::string::*;

verus! {

/// `String::push` appends one character.
pub assume_specification[ String::push ](text: &mut String, c: char)
    ensures
        final(text)@ == old(text)@.push(c),
;

/// How one character of the string is written between the quotes: the
/// quote, the backslash, and the control characters that have a short
/// escape are written as a backslash and one more character; every other
/// character stands for itself.
pub open spec fn escaped(c: char) -> Seq<char> {
    if c == '"' {
        seq!['\\', '"']
    } else if c == '\\' {
        seq!['\\', '\\']
    } else if c == '\n' {
        seq!['\\', 'n']
    } else if c == '\r' {
        seq!['\\', 'r']
    } else if c == '\t' {
        seq!['\\', 't']
    } else if c == '\0' {
        seq!['\\', '0']
    } else {
        seq![c]
    }
}

/// [`escaped`] as a value, to map with.
pub open spec fn escape_each() -> spec_fn(char) -> Seq<char> {
    |c: char| escaped(c)
}

/// The literal for a string: a quote, each character as [`escaped`] has
/// it, a quote.
pub open spec fn literal_text(text: Seq<char>) -> Seq<char> {
    seq!['"'] + text.flat_map(escape_each()) + seq!['"']
}

/// Appends one character of a string to a literal that is being written.
pub fn push_escaped(out: &mut String, c: char)
    ensures
        final(out)@ == old(out)@ + escaped(c),
{
    if c == '"' {
        out.push('\\');
        out.push('"');
    } else if c == '\\' {
        out.push('\\');
        out.push('\\');
    } else if c == '\n' {
        out.push('\\');
        out.push('n');
    } else if c == '\r' {
        out.push('\\');
        out.push('r');
    } else if c == '\t' {
        out.push('\\');
        out.push('t');
    } else if c == '\0' {
        out.push('\\');
        out.push('0');
    } else {
        out.push(c);
    }
    assert(out@ =~= old(out)@ + escaped(c));
}

/// Writes a string as a string literal.
pub fn string_literal(text: &str) -> (out: String)
    ensures
        out@ == literal_text(text@),
{
    let mut out = String::new();
    out.push('"');
    let ghost chars = text@;
    for c in it: text.chars()
        invariant
            chars == text@,
            it.seq() == chars,
            out@ == seq!['"'] + chars.take(it.index()).flat_map(escape_each()),
    {
        proof {
            chars.lemma_flat_map_take_append(escape_each(), it.index());
        }
        push_escaped(&mut out, c);
    }
    assert(chars.take(chars.len() as int) =~= chars);
    out.push('"');
    out
}

/// The character that a backslash and `c` stand for, for the escapes that
/// [`escaped`] writes.
pub open spec fn escape_value(c: char) -> Option<char> {
    if c == '"' {
        Some('"')
    } else if c == '\\' {
        Some('\\')
    } else if c == 'n' {
        Some('\n')
    } else if c == 'r' {
        Some('\r')
    } else if c == 't' {
        Some('\t')
    } else if c == '0' {
        Some('\0')
    } else {
        None
    }
}

/// The string that the text between the quotes of a literal stands for:
/// none if a quote stands there unescaped, or a backslash without one of
/// the characters of [`escape_value`] behind it.
pub open spec fn unescaped(body: Seq<char>) -> Option<Seq<char>>
    decreases body.len(),
{
    if body.len() == 0 {
        Some(Seq::empty())
    } else if body[0] == '"' {
        None
    } else if body[0] == '\\' {
        if body.len() < 2 {
            None
        } else {
            match (escape_value(body[1]), unescaped(body.skip(2))) {
                (Some(c), Some(rest)) => Some(seq![c] + rest),
                _ => None,
            }
        }
    } else {
        match unescaped(body.skip(1)) {
            Some(rest) => Some(seq![body[0]] + rest),
            None => None,
        }
    }
}

/// The string that a literal stands for.
pub open spec fn denoted(literal: Seq<char>) -> Option<Seq<char>> {
    if literal.len() >= 2 && literal.first() == '"' && literal.last() == '"' {
        unescaped(literal.subrange(1, literal.len() - 1))
    } else {
        None
    }
}

/// The escaped characters of a string, read back, give the string.
pub proof fn lemma_unescaped_inverts_escaping(text: Seq<char>)
    ensures
        unescaped(text.flat_map(escape_each())) == Some(text),
    decreases text.len(),
{
    let body = text.flat_map(escape_each());
    if text.len() == 0 {
        assert(body =~= Seq::<char>::empty());
    } else {
        let head = escaped(text[0]);
        let tail = text.drop_first().flat_map(escape_each());
        assert(text.map_values(escape_each()).drop_first() =~= text.drop_first().map_values(
            escape_each(),
        ));
        assert(body == head + tail);
        lemma_unescaped_inverts_escaping(text.drop_first());
        assert(body.skip(head.len() as int) =~= tail);
        assert(seq![text[0]] + text.drop_first() =~= text);
    }
}

/// A string written as a literal is read back unchanged: the literal
/// stands for the string, whatever characters it holds.
pub proof fn lemma_literal_denotes_its_text(text: Seq<char>)
    ensures
        denoted(literal_text(text)) == Some(text),
{
    let body = text.flat_map(escape_each());
    let literal = literal_text(text);
    assert(literal.subrange(1, literal.len() - 1) =~= body);
    lemma_unescaped_inverts_escaping(text);
}

} // verus!

//! Writing a name as a quoted SQL identifier.
//!
//! The wire protocol has no parameter slot for identifiers, so a table name
//! goes into the statement text. It goes there between double quotes with
//! every double quote of the name doubled, which is how SQL spells a quote
//! inside a quoted identifier. However the name reads, a lexer takes the
//! result as one identifier token.

use vstd::prelude::*;
use crate::postgres::error::QueryError;
use crate::text::push_char;

verus! {

/// The double quote that delimits an identifier.
pub open spec fn quote() -> char {
    '"'
}

/// A name that can be written as an identifier: not empty, and without a
/// NUL character.
pub open spec fn is_identifier(name: Seq<char>) -> bool {
    name.len() > 0 && forall|i: int| 0 <= i < name.len() ==> name[i] != '\0'
}

/// The name with every double quote doubled.
pub open spec fn escaped(name: Seq<char>) -> Seq<char>
    decreases name.len(),
{
    if name.len() == 0 {
        Seq::empty()
    } else if name[0] == quote() {
        seq![quote(), quote()] + escaped(name.drop_first())
    } else {
        seq![name[0]] + escaped(name.drop_first())
    }
}

/// The name as a quoted identifier.
pub open spec fn quoted(name: Seq<char>) -> Seq<char> {
    seq![quote()] + escaped(name) + seq![quote()]
}

/// How a lexer reads a quoted identifier whose opening quote it has passed:
/// from position `at` of `text` it collects characters into `read`, takes
/// two quotes in a row for one quote of the name, and stops at a single
/// quote. The result is the position after that closing quote and the name
/// read, or `None` when the text ends before the identifier does.
pub open spec fn lex_quoted(text: Seq<char>, at: int, read: Seq<char>) -> Option<(int, Seq<char>)>
    decreases text.len() - at,
{
    if at < 0 || at >= text.len() {
        None
    } else if text[at] != quote() {
        lex_quoted(text, at + 1, read.push(text[at]))
    } else if at + 1 < text.len() && text[at + 1] == quote() {
        lex_quoted(text, at + 2, read.push(quote()))
    } else {
        Some((at + 1, read))
    }
}

/// Writes `name` as a quoted identifier. A name that is empty or holds a NUL
/// character is refused.
pub fn quote_identifier(name: &str) -> (result: Result<String, QueryError>)
    ensures
        match result {
            Ok(text) => is_identifier(name@) && text@ == quoted(name@),
            Err(QueryError::InvalidIdentifier(refused)) => !is_identifier(name@) && refused@ == name@,
            Err(_) => false,
        },
{
    let n = name.unicode_len();
    if n == 0 {
        return Err(QueryError::InvalidIdentifier(name.to_owned()));
    }
    let mut text = String::new();
    push_char(&mut text, '"');
    let mut i: usize = 0;
    proof {
        assert(name@.skip(0) =~= name@);
        assert(text@ =~= seq![quote()]);
    }
    while i < n
        invariant
            i <= n,
            n == name@.len(),
            forall|j: int| 0 <= j < i ==> name@[j] != '\0',
            seq![quote()] + escaped(name@) == text@ + escaped(name@.skip(i as int)),
        decreases n - i,
    {
        let c = name.get_char(i);
        if c == '\0' {
            return Err(QueryError::InvalidIdentifier(name.to_owned()));
        }
        proof {
            let rest = name@.skip(i as int);
            assert(rest.drop_first() == name@.skip(i + 1));
            assert(rest[0] == c);
        }
        if c == '"' {
            push_char(&mut text, '"');
            push_char(&mut text, '"');
        } else {
            push_char(&mut text, c);
        }
        i = i + 1;
    }
    proof {
        assert(name@.skip(n as int) =~= Seq::<char>::empty());
    }
    push_char(&mut text, '"');
    Ok(text)
}

/// Reading on from inside a quoted name: where the text from `at` on is the
/// escaped `name`, the closing quote, and then something that does not start
/// with a quote, the lexer stops just after that closing quote and has read
/// `name` after what it had read before.
proof fn lemma_lex_escaped(text: Seq<char>, at: int, read: Seq<char>, name: Seq<char>, rest: Seq<char>)
    requires
        0 <= at <= text.len(),
        text.subrange(at, text.len() as int) == escaped(name) + seq![quote()] + rest,
        rest.len() == 0 || rest[0] != quote(),
    ensures
        lex_quoted(text, at, read) == Some((at + escaped(name).len() + 1, read + name)),
    decreases name.len(),
{
    let tail = text.subrange(at, text.len() as int);
    assert(forall|i: int| 0 <= i < tail.len() ==> tail[i] == text[at + i]);
    if name.len() == 0 {
        assert(tail[0] == quote());
        if rest.len() > 0 {
            assert(tail[1] == rest[0]);
        }
        assert(read + name =~= read);
    } else {
        let shorter = name.drop_first();
        let step: int = if name[0] == quote() {
            2
        } else {
            1
        };
        let next = if name[0] == quote() {
            read.push(quote())
        } else {
            read.push(name[0])
        };
        let piece = if name[0] == quote() {
            seq![quote(), quote()]
        } else {
            seq![name[0]]
        };
        assert(escaped(name) == piece + escaped(shorter));
        assert(tail == piece + (escaped(shorter) + seq![quote()] + rest)) by {
            assert(tail =~= piece + (escaped(shorter) + seq![quote()] + rest));
        }
        assert(tail[0] == name[0]);
        if name[0] == quote() {
            assert(tail[1] == quote());
        }
        assert(text.subrange(at + step, text.len() as int) =~= tail.subrange(
            step,
            tail.len() as int,
        ));
        assert(text.subrange(at + step, text.len() as int) =~= escaped(shorter) + seq![quote()]
            + rest);
        lemma_lex_escaped(text, at + step, next, shorter, rest);
        assert(next + shorter =~= read + name);
    }
}

/// A quoted name is one identifier, whatever the name holds. In a text that
/// has the quoted name after `before` and is followed by `rest`, which does
/// not go on with a quote, a lexer that has passed the opening quote reads
/// exactly the name and stops exactly where the quoted name ends: no part of
/// the name is read as SQL of its own.
pub proof fn lemma_quoted_is_one_identifier(before: Seq<char>, name: Seq<char>, rest: Seq<char>)
    requires
        rest.len() == 0 || rest[0] != quote(),
    ensures
        lex_quoted(before + quoted(name) + rest, before.len() as int + 1, Seq::empty()) == Some(
            ((before.len() + quoted(name).len()) as int, name),
        ),
{
    let text = before + quoted(name) + rest;
    let at = before.len() as int + 1;
    assert(text.subrange(at, text.len() as int) =~= escaped(name) + seq![quote()] + rest);
    lemma_lex_escaped(text, at, Seq::empty(), name, rest);
    assert(Seq::<char>::empty() + name =~= name);
}

} // verus!

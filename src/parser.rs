//! Small parser combinators over string slices. A parser takes the input and
//! returns the rest of it with what it read, or an error naming what it expected.

use vstd::prelude::*;
use vstd::string::*;

use crate::text::{chars_of, is_prefix, owned, starts_with};

verus! {

/// What a parser expected.
#[derive(Debug)]
pub enum Combinator {
    Custom(String),
    Character(char),
    Alpha,
    Num,
    Tag(String),
    Whitespace,
}

/// A failed parse: the input where it failed and what was expected there.
#[derive(Debug)]
pub struct ParseError<'i> {
    pub input: &'i str,
    pub combinator: Combinator,
}

/// The rest of the input and what was read, or the error.
pub type ParseResult<'i, T> = Result<(&'i str, T), ParseError<'i>>;

/// An ASCII letter.
pub open spec fn is_alpha(c: char) -> bool {
    ('a' <= c && c <= 'z') || ('A' <= c && c <= 'Z')
}

/// An ASCII digit.
pub open spec fn is_num(c: char) -> bool {
    '0' <= c && c <= '9'
}

/// Reads `c`.
pub fn character<'i>(c: char, input: &'i str) -> (r: ParseResult<'i, char>)
    ensures
        r is Ok <==> (input@.len() > 0 && input@[0] == c),
        r matches Ok((rest, x)) ==> rest@ == input@.drop_first() && x == c,
        r matches Err(e) ==> e.input@ == input@ && e.combinator == Combinator::Character(c),
{
    let n = input.unicode_len();
    if n > 0 && input.get_char(0) == c {
        Ok((input.substring_char(1, n), c))
    } else {
        Err(ParseError { input, combinator: Combinator::Character(c) })
    }
}

/// Reads one ASCII letter.
pub fn alpha<'i>(input: &'i str) -> (r: ParseResult<'i, char>)
    ensures
        r is Ok <==> (input@.len() > 0 && is_alpha(input@[0])),
        r matches Ok((rest, x)) ==> rest@ == input@.drop_first() && x == input@[0],
        r matches Err(e) ==> e.input@ == input@ && e.combinator == Combinator::Alpha,
{
    let n = input.unicode_len();
    if n > 0 {
        let c = input.get_char(0);
        if ('a' <= c && c <= 'z') || ('A' <= c && c <= 'Z') {
            return Ok((input.substring_char(1, n), c));
        }
    }
    Err(ParseError { input, combinator: Combinator::Alpha })
}

/// Reads one ASCII digit.
pub fn num<'i>(input: &'i str) -> (r: ParseResult<'i, char>)
    ensures
        r is Ok <==> (input@.len() > 0 && is_num(input@[0])),
        r matches Ok((rest, x)) ==> rest@ == input@.drop_first() && x == input@[0],
        r matches Err(e) ==> e.input@ == input@ && e.combinator == Combinator::Num,
{
    let n = input.unicode_len();
    if n > 0 {
        let c = input.get_char(0);
        if '0' <= c && c <= '9' {
            return Ok((input.substring_char(1, n), c));
        }
    }
    Err(ParseError { input, combinator: Combinator::Num })
}

/// Reads one ASCII letter or digit; on failure, the error is the digit's.
pub fn alphanum<'i>(input: &'i str) -> (r: ParseResult<'i, char>)
    ensures
        r is Ok <==> (input@.len() > 0 && (is_alpha(input@[0]) || is_num(input@[0]))),
        r matches Ok((rest, x)) ==> rest@ == input@.drop_first() && x == input@[0],
        r matches Err(e) ==> e.input@ == input@ && e.combinator == Combinator::Num,
{
    let letter = |i: &'i str| -> (r: ParseResult<'i, char>)
        ensures
            r is Ok <==> (i@.len() > 0 && is_alpha(i@[0])),
            r matches Ok((rest, x)) ==> rest@ == i@.drop_first() && x == i@[0],
        { alpha(i) };
    let digit = |i: &'i str| -> (r: ParseResult<'i, char>)
        ensures
            r is Ok <==> (i@.len() > 0 && is_num(i@[0])),
            r matches Ok((rest, x)) ==> rest@ == i@.drop_first() && x == i@[0],
            r matches Err(e) ==> e.input@ == i@ && e.combinator == Combinator::Num,
        { num(i) };
    either(letter, digit, input)
}

/// Reads `text`.
pub fn tag<'i, 't>(text: &'t str, input: &'i str) -> (r: ParseResult<'i, &'t str>)
    ensures
        r is Ok <==> is_prefix(text@, input@),
        r matches Ok((rest, x)) ==> rest@ == input@.subrange(text@.len() as int, input@.len() as int)
            && x == text,
        r matches Err(e) ==> e.input@ == input@ && (e.combinator matches Combinator::Tag(t) && t@
            == text@),
{
    let i = chars_of(input);
    let t = chars_of(text);
    if starts_with(&i, &t) {
        Ok((input.substring_char(text.unicode_len(), input.unicode_len()), text))
    } else {
        Err(ParseError { input, combinator: Combinator::Tag(owned(text)) })
    }
}

/// Reads one space.
pub fn whitespace<'i>(input: &'i str) -> (r: ParseResult<'i, ()>)
    ensures
        r is Ok <==> (input@.len() > 0 && input@[0] == ' '),
        r matches Ok((rest, _)) ==> rest@ == input@.drop_first(),
        r matches Err(e) ==> e.input@ == input@ && e.combinator == Combinator::Whitespace,
{
    let n = input.unicode_len();
    if n > 0 && input.get_char(0) == ' ' {
        Ok((input.substring_char(1, n), ()))
    } else {
        Err(ParseError { input, combinator: Combinator::Whitespace })
    }
}

/// Runs `lp` on `input`, and `rp` on the same input when `lp` fails.
pub fn either<'i, T, L, R>(lp: L, rp: R, input: &'i str) -> (r: ParseResult<'i, T>) where
    L: FnOnce(&'i str) -> ParseResult<'i, T>,
    R: FnOnce(&'i str) -> ParseResult<'i, T>,

    requires
        lp.requires((input,)),
        rp.requires((input,)),
    ensures
        (lp.ensures((input,), r) && r is Ok) || (exists|e: ParseResult<'i, T>|
            lp.ensures((input,), e) && e is Err) && rp.ensures((input,), r),
{
    match lp(input) {
        Ok(res) => Ok(res),
        Err(_) => rp(input),
    }
}

} // verus!

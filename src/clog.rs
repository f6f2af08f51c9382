//! Reading the output of the changelog checker: one line per commit,
//! `Checking <hash>: OK` or `Checking <hash>: FAILED`, between lines of detail.

use vstd::prelude::*;
use vstd::string::*;

use crate::parser::{self, is_alpha, is_num, Combinator, ParseError};
use crate::text::{is_prefix, owned, string_of};

verus! {

/// What the checker said of a commit.
#[derive(Clone, Copy, Debug, PartialEq, Eq, Structural)]
pub enum Status {
    Success,
    Failed,
}

/// One verdict line of the checker.
#[derive(Debug)]
pub struct CheckLine {
    pub hash: String,
    pub status: Status,
}

/// An ASCII letter or digit.
pub open spec fn is_alphanum(c: char) -> bool {
    is_alpha(c) || is_num(c)
}

/// The length of the run of ASCII letters and digits that starts `s`.
pub open spec fn alphanum_run(s: Seq<char>) -> nat
    decreases s.len(),
{
    if s.len() > 0 && is_alphanum(s[0]) {
        1 + alphanum_run(s.drop_first())
    } else {
        0
    }
}

/// A verdict line: `Checking`, a space, a non-empty run of ASCII letters and
/// digits, a colon, a space, then `OK` or `FAILED` (anything may follow).
pub open spec fn checking_line(s: Seq<char>) -> Option<(Seq<char>, Status)> {
    let pre = "Checking "@;
    if !is_prefix(pre, s) {
        None
    } else {
        let a = s.subrange(pre.len() as int, s.len() as int);
        let n = alphanum_run(a);
        let b = a.subrange(n as int, a.len() as int);
        if n == 0 || !is_prefix(": "@, b) {
            None
        } else {
            let c = b.subrange(2, b.len() as int);
            if is_prefix("OK"@, c) {
                Some((a.subrange(0, n as int), Status::Success))
            } else if is_prefix("FAILED"@, c) {
                Some((a.subrange(0, n as int), Status::Failed))
            } else {
                None
            }
        }
    }
}

proof fn lemma_alphanum_run(s: Seq<char>)
    ensures
        alphanum_run(s) <= s.len(),
        forall|j: int| 0 <= j < alphanum_run(s) ==> is_alphanum(#[trigger] s[j]),
        alphanum_run(s) < s.len() ==> !is_alphanum(s[alphanum_run(s) as int]),
    decreases s.len(),
{
    if s.len() > 0 && is_alphanum(s[0]) {
        lemma_alphanum_run(s.drop_first());
        assert forall|j: int| 0 < j < alphanum_run(s) implies is_alphanum(#[trigger] s[j]) by {
            assert(s[j] == s.drop_first()[j - 1]);
        }
    }
}

/// Reads a commit hash: the longest run of ASCII letters and digits, which
/// must not be empty.
pub fn hash<'i>(input: &'i str) -> (r: Result<(&'i str, String), ParseError<'i>>)
    ensures
        r is Ok <==> alphanum_run(input@) > 0,
        r matches Ok((rest, h)) ==> h@ == input@.subrange(0, alphanum_run(input@) as int)
            && rest@ == input@.subrange(alphanum_run(input@) as int, input@.len() as int),
        r matches Err(e) ==> e.input@ == input@ && (e.combinator matches Combinator::Custom(n)
            && n@ == "hash"@),
{
    let mut h: Vec<char> = Vec::new();
    let mut rest = input;
    proof {
        lemma_alphanum_run(input@);
    }
    loop
        invariant
            input@ == h@ + rest@,
            alphanum_run(input@) == h@.len() + alphanum_run(rest@),
        ensures
            input@ == h@ + rest@,
            alphanum_run(input@) == h@.len() + alphanum_run(rest@),
            alphanum_run(rest@) == 0,
        decreases rest@.len(),
    {
        match parser::alphanum(rest) {
            Ok((next, c)) => {
                assert(rest@ == seq![c] + next@);
                assert(rest@.drop_first() == next@);
                h.push(c);
                rest = next;
            },
            Err(_) => {
                assert(alphanum_run(rest@) == 0);
                break;
            },
        }
    }
    assert(input@.subrange(0, h@.len() as int) == h@);
    assert(input@.subrange(h@.len() as int, input@.len() as int) == rest@);
    if h.len() == 0 {
        Err(ParseError { input: rest, combinator: Combinator::Custom(owned("hash")) })
    } else {
        Ok((rest, string_of(&h)))
    }
}

/// Reads a verdict line; see [`checking_line`].
pub fn parse_checking_line<'i>(line: &'i str) -> (r: Result<CheckLine, ParseError<'i>>)
    ensures
        r is Ok <==> checking_line(line@) is Some,
        r matches Ok(cl) ==> (cl.hash@, cl.status) == checking_line(line@)->0,
{
    proof {
        reveal_strlit("Checking");
        reveal_strlit("Checking ");
        reveal_strlit(": ");
        reveal_strlit("OK");
        reveal_strlit("FAILED");
    }
    let ghost s = line@;
    let ghost pre = "Checking "@;
    assert(pre.subrange(0, 8) =~= "Checking"@);
    assert(pre[8] == ' ');
    let (line, _) = match parser::tag("Checking", line) {
        Ok(x) => x,
        Err(e) => {
            assert(!is_prefix(pre, s)) by {
                if is_prefix(pre, s) {
                    assert(s.subrange(0, 8) =~= pre.subrange(0, 8));
                }
            }
            return Err(e);
        },
    };
    assert(line@ == s.subrange(8, s.len() as int));
    assert(s.subrange(0, 8) =~= "Checking"@);
    let (line, _) = match parser::whitespace(line) {
        Ok(x) => x,
        Err(e) => {
            assert(!is_prefix(pre, s)) by {
                if is_prefix(pre, s) {
                    assert(s.subrange(0, 9)[8] == s[8]);
                }
            }
            return Err(e);
        },
    };
    assert(s.subrange(0, 9) =~= pre);
    assert(is_prefix(pre, s));
    let ghost a = s.subrange(pre.len() as int, s.len() as int);
    assert(line@ == a);
    let (line, h) = match hash(line) {
        Ok(x) => x,
        Err(e) => return Err(e),
    };
    proof {
        lemma_alphanum_run(a);
    }
    let ghost b = a.subrange(alphanum_run(a) as int, a.len() as int);
    assert(line@ == b);
    let (line, _) = match parser::character(':', line) {
        Ok(x) => x,
        Err(e) => {
            assert(!is_prefix(": "@, b)) by {
                if is_prefix(": "@, b) {
                    assert(b.subrange(0, 2)[0] == b[0]);
                }
            }
            return Err(e);
        },
    };
    let (line, _) = match parser::whitespace(line) {
        Ok(x) => x,
        Err(e) => {
            assert(!is_prefix(": "@, b)) by {
                if is_prefix(": "@, b) {
                    assert(b.subrange(0, 2)[1] == b[1]);
                }
            }
            return Err(e);
        },
    };
    assert(b.subrange(0, 2) =~= ": "@);
    assert(is_prefix(": "@, b));
    assert(line@ == b.subrange(2, b.len() as int));
    let ok_tag = |i: &'i str| -> (r: Result<(&'i str, &'static str), ParseError<'i>>)
        ensures
            r is Ok <==> is_prefix("OK"@, i@),
            r matches Ok((_, x)) ==> x@ == "OK"@,
        { parser::tag("OK", i) };
    let failed_tag = |i: &'i str| -> (r: Result<(&'i str, &'static str), ParseError<'i>>)
        ensures
            r is Ok <==> is_prefix("FAILED"@, i@),
            r matches Ok((_, x)) ==> x@ == "FAILED"@,
        { parser::tag("FAILED", i) };
    let (_, result) = match parser::either(ok_tag, failed_tag, line) {
        Ok(x) => x,
        Err(e) => return Err(e),
    };
    let status = if result.unicode_len() == 2 {
        Status::Success
    } else {
        Status::Failed
    };
    Ok(CheckLine { hash: h, status })
}

} // verus!

//! The names under which a run is published: the working branch, derived
//! from the time of the run so that repeated runs never collide, and the
//! title of the pull request.

use chrono::Datelike;
use vstd::prelude::*;

use crate::text::{chars_of, decimal, digit, digit_char, push_decimal, push_str, string_of};

verus! {

/// A local date and an instant.
pub struct Timestamp {
    pub year: i32,
    /// From 1 to 12.
    pub month: u32,
    /// From 1 to 31.
    pub day: u32,
    /// Microseconds since the Unix epoch.
    pub micros: i64,
}

/// The local date and time now.
///
/// Relies on chrono's `Local::now`, `DateTime::date_naive`, `Datelike::year`,
/// `Datelike::month` (documented to range from 1 to 12), `Datelike::day`
/// (from 1 to 31) and `DateTime::timestamp_micros`.
#[verifier::external_body]
fn local_now() -> (r: Timestamp)
    ensures
        1 <= r.month <= 12,
        1 <= r.day <= 31,
{
    let now = chrono::Local::now();
    let date = now.date_naive();
    Timestamp { year: date.year(), month: date.month(), day: date.day(), micros: now.timestamp_micros() }
}

/// Two decimal digits of `n`, which is below a hundred.
pub open spec fn two_digits(n: nat) -> Seq<char> {
    seq![digit(n / 10), digit(n % 10)]
}

/// `n` in decimal, with leading zeros up to four digits.
pub open spec fn padded4(n: nat) -> Seq<char> {
    if n < 10000 {
        seq![digit(n / 1000), digit(n / 100 % 10), digit(n / 10 % 10), digit(n % 10)]
    } else {
        decimal(n)
    }
}

/// A year in ISO 8601: four digits, with an explicit sign outside 0 to 9999.
pub open spec fn year_text(y: int) -> Seq<char> {
    if 0 <= y <= 9999 {
        padded4(y as nat)
    } else if y > 9999 {
        seq!['+'] + decimal(y as nat)
    } else {
        seq!['-'] + padded4((-y) as nat)
    }
}

/// The date as `YYYY-MM-DD`.
pub open spec fn date_text(t: Timestamp) -> Seq<char> {
    year_text(t.year as int) + seq!['-'] + two_digits(t.month as nat) + seq!['-'] + two_digits(
        t.day as nat,
    )
}

/// `n` in decimal, with a minus sign when negative.
pub open spec fn signed_decimal(n: int) -> Seq<char> {
    if n < 0 {
        seq!['-'] + decimal((-n) as nat)
    } else {
        decimal(n as nat)
    }
}

/// The working branch's name: `prepare-`, the date, `-`, and the instant.
pub open spec fn branch_name_of(t: Timestamp) -> Seq<char> {
    "prepare-"@ + date_text(t) + seq!['-'] + signed_decimal(t.micros as int)
}

/// The pull request's title.
pub open spec fn title_of(t: Timestamp) -> Seq<char> {
    "[upstream] ["@ + date_text(t) + "] Prepare commits"@
}

/// Appends `n` with leading zeros up to four digits.
fn push_padded4(out: &mut Vec<char>, n: u64)
    ensures
        final(out)@ == old(out)@ + padded4(n as nat),
{
    if n < 10000 {
        out.push(digit_char(n / 1000));
        out.push(digit_char(n / 100 % 10));
        out.push(digit_char(n / 10 % 10));
        out.push(digit_char(n % 10));
    } else {
        push_decimal(out, n);
    }
}

/// Appends the date of `t`.
fn push_date(out: &mut Vec<char>, t: &Timestamp)
    requires
        1 <= t.month <= 12,
        1 <= t.day <= 31,
    ensures
        final(out)@ == old(out)@ + date_text(*t),
{
    let y = t.year as i64;
    if 0 <= y && y <= 9999 {
        push_padded4(out, y as u64);
    } else if y > 9999 {
        out.push('+');
        push_decimal(out, y as u64);
    } else {
        out.push('-');
        push_padded4(out, (0 - y) as u64);
    }
    out.push('-');
    out.push(digit_char((t.month / 10) as u64));
    out.push(digit_char((t.month % 10) as u64));
    out.push('-');
    out.push(digit_char((t.day / 10) as u64));
    out.push(digit_char((t.day % 10) as u64));
    assert(final(out)@ =~= old(out)@ + date_text(*t));
}

/// The working branch's name for a run at `t`.
pub fn branch_name(t: &Timestamp) -> (r: String)
    requires
        1 <= t.month <= 12,
        1 <= t.day <= 31,
    ensures
        r@ == branch_name_of(*t),
{
    let mut out = chars_of("prepare-");
    push_date(&mut out, t);
    out.push('-');
    if t.micros < 0 {
        out.push('-');
        let magnitude = ((0 - (t.micros + 1)) as u64) + 1;
        push_decimal(&mut out, magnitude);
    } else {
        push_decimal(&mut out, t.micros as u64);
    }
    assert(out@ =~= branch_name_of(*t));
    string_of(&out)
}

/// The pull request's title for a run at `t`.
pub fn pull_request_title(t: &Timestamp) -> (r: String)
    requires
        1 <= t.month <= 12,
        1 <= t.day <= 31,
    ensures
        r@ == title_of(*t),
{
    let mut out = chars_of("[upstream] [");
    push_date(&mut out, t);
    push_str(&mut out, "] Prepare commits");
    string_of(&out)
}

/// The names for a run now: the working branch and the pull request's title,
/// both from the same instant.
pub fn names_now() -> (r: (String, String))
    ensures
        exists|t: Timestamp|
            1 <= t.month <= 12 && 1 <= t.day <= 31 && r.0@ == branch_name_of(t) && r.1@ == title_of(
                t,
            ),
{
    let t = local_now();
    (branch_name(&t), pull_request_title(&t))
}

/// The head of a pull request from `branch` on `owner`'s fork.
pub fn head_ref(owner: &str, branch: &str) -> (r: String)
    ensures
        r@ == owner@ + seq![':'] + branch@,
{
    let mut out = chars_of(owner);
    out.push(':');
    push_str(&mut out, branch);
    string_of(&out)
}

} // verus!

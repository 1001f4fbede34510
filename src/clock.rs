//! Clock and calendar texts: the elapsed time shown while a timer runs, the
//! date that scopes the service's lists, and the reading of the service's
//! start timestamps.

use vstd::prelude::*;
use vstd::string::StringExecFns;
use crate::text::{decimal, zero_pad, push_decimal, push_zero_padded, lemma_zero_pad2_small, lemma_zero_pad_len};

verus! {

/// The form of the service's start timestamps.
pub const START_AT_FORMAT: &'static str = "%Y-%m-%d %H:%M:%S";

/// The absolute value of `d`.
pub open spec fn magnitude(d: int) -> nat {
    if d < 0 {
        (-d) as nat
    } else {
        d as nat
    }
}

/// A part of a signed span, written as `{:02}` writes it: at least two
/// digits, or a minus sign before the digits of a non-zero negative part.
pub open spec fn signed_pad2(negative: bool, part: nat) -> Seq<char> {
    if negative && part > 0 {
        seq!['-'] + decimal(part)
    } else {
        zero_pad(part, 2)
    }
}

/// `d` seconds as `HH:MM:SS`: all the whole hours (never reduced modulo a
/// day), then the minutes and the seconds left within the hour. Each part of
/// a negative span is truncated towards zero and keeps the sign.
pub open spec fn clock_text(d: int) -> Seq<char> {
    let a = magnitude(d);
    let negative = d < 0;
    signed_pad2(negative, a / 3600) + seq![':'] + signed_pad2(negative, (a / 60) % 60) + seq![':']
        + signed_pad2(negative, a % 60)
}

/// Year as the `%Y` of a calendar format: four digits for years 0 to 9999,
/// and otherwise a sign before at least four digits.
pub open spec fn year_text(y: int) -> Seq<char> {
    if 0 <= y <= 9999 {
        zero_pad(y as nat, 4)
    } else if y > 9999 {
        seq!['+'] + zero_pad(y as nat, 4)
    } else {
        seq!['-'] + zero_pad((-y) as nat, 4)
    }
}

/// A calendar date as `YYYY-MM-DD`.
pub open spec fn date_text(year: int, month: nat, day: nat) -> Seq<char> {
    year_text(year) + seq!['-'] + zero_pad(month, 2) + seq!['-'] + zero_pad(day, 2)
}

fn push_signed_pad2(out: &mut String, negative: bool, part: u128)
    ensures
        final(out)@ == old(out)@ + signed_pad2(negative, part as nat),
{
    if negative && part > 0 {
        proof { reveal_strlit("-"); }
        out.append("-");
        push_decimal(out, part);
        assert(out@ =~= old(out)@ + signed_pad2(negative, part as nat));
    } else {
        push_zero_padded(out, part, 2);
    }
}

/// Renders a span of `secs` seconds as a clock.
pub fn to_clock_str(secs: i128) -> (r: String)
    ensures
        r@ == clock_text(secs as int),
{
    let negative = secs < 0;
    let a: u128 = if negative {
        ((-(secs + 1)) as u128) + 1
    } else {
        secs as u128
    };
    assert(a as int == magnitude(secs as int));
    let mut out = String::new();
    proof { reveal_strlit(":"); }
    push_signed_pad2(&mut out, negative, a / 3600);
    out.append(":");
    push_signed_pad2(&mut out, negative, (a / 60) % 60);
    out.append(":");
    push_signed_pad2(&mut out, negative, a % 60);
    assert(out@ =~= clock_text(secs as int));
    out
}

/// Renders a calendar date as `YYYY-MM-DD`.
pub fn format_date(year: i32, month: u32, day: u32) -> (r: String)
    ensures
        r@ == date_text(year as int, month as nat, day as nat),
{
    let mut out = String::new();
    if 0 <= year && year <= 9999 {
        push_zero_padded(&mut out, year as u128, 4);
    } else if year > 9999 {
        proof { reveal_strlit("+"); }
        out.append("+");
        push_zero_padded(&mut out, year as u128, 4);
    } else {
        proof { reveal_strlit("-"); }
        out.append("-");
        push_zero_padded(&mut out, (-(year as i64)) as u128, 4);
    }
    assert(out@ =~= year_text(year as int));
    proof { reveal_strlit("-"); }
    out.append("-");
    push_zero_padded(&mut out, month as u128, 2);
    out.append("-");
    push_zero_padded(&mut out, day as u128, 2);
    assert(out@ =~= date_text(year as int, month as nat, day as nat));
    out
}

/// Relies on chrono's `Local::now` with `Datelike`: the date on the local
/// clock, whose month lies in 1..=12 and day in 1..=31.
#[verifier::external_body]
fn local_date_now() -> (r: (i32, u32, u32))
    ensures
        1 <= r.1 <= 12,
        1 <= r.2 <= 31,
{
    let d = chrono::Local::now().date_naive();
    (chrono::Datelike::year(&d), chrono::Datelike::month(&d), chrono::Datelike::day(&d))
}

/// Today's date on the local clock, as `YYYY-MM-DD`.
pub fn today() -> (r: String)
    ensures
        exists|y: i32, m: u32, d: u32|
            1 <= m <= 12 && 1 <= d <= 31 && r@ == date_text(y as int, m as nat, d as nat),
{
    let (y, m, d) = local_date_now();
    format_date(y, m, d)
}

/// The wall-clock reading that `text` names under the chrono format
/// `format`, in seconds from 1970-01-01 00:00:00 on the same wall clock;
/// `None` where it names none.
pub uninterp spec fn naive_timestamp(text: Seq<char>, format: Seq<char>) -> Option<i64>;

/// Relies on chrono's `NaiveDateTime::parse_from_str`, then `and_utc` and
/// `timestamp`, which count the naive reading's seconds from 1970-01-01
/// 00:00:00 with no zone offset: the result depends on the two texts alone.
#[verifier::external_body]
fn parse_naive_timestamp(text: &str, format: &str) -> (r: Option<i64>)
    ensures
        r == naive_timestamp(text@, format@),
{
    chrono::NaiveDateTime::parse_from_str(text, format).ok().map(|t| t.and_utc().timestamp())
}

/// Reads a start timestamp of the service (`YYYY-MM-DD HH:MM:SS`, a local
/// wall-clock reading) as seconds from 1970-01-01 00:00:00 on that clock.
pub fn parse_start_at(text: &str) -> (r: Option<i64>)
    ensures
        r == naive_timestamp(text@, START_AT_FORMAT@),
{
    parse_naive_timestamp(text, START_AT_FORMAT)
}

/// Relies on chrono's `Local::now`, `naive_local`, `and_utc` and
/// `timestamp`: the local wall clock's reading now, in whole seconds from
/// 1970-01-01 00:00:00 on that clock.
#[verifier::external_body]
pub(crate) fn local_wall_seconds() -> (r: i64) {
    chrono::Local::now().naive_local().and_utc().timestamp()
}

/// For every span of zero seconds or more the clock reads `H:MM:SS`: the
/// hours are all the whole hours of the span, at least two digits and never
/// wrapped at 24; minutes and seconds are exactly two digits each, for a
/// value in 0..=59.
pub proof fn lemma_clock_text_nonnegative(d: int)
    requires
        0 <= d,
    ensures
        clock_text(d) == zero_pad((d / 3600) as nat, 2) + seq![':'] + zero_pad(((d / 60) % 60) as nat, 2)
            + seq![':'] + zero_pad((d % 60) as nat, 2),
        0 <= (d / 60) % 60 <= 59,
        0 <= d % 60 <= 59,
        zero_pad((d / 3600) as nat, 2).len() >= 2,
        zero_pad(((d / 60) % 60) as nat, 2).len() == 2,
        zero_pad((d % 60) as nat, 2).len() == 2,
{
    lemma_zero_pad_len((d / 3600) as nat, 2);
    lemma_zero_pad2_small(((d / 60) % 60) as nat);
    lemma_zero_pad2_small((d % 60) as nat);
}

} // verus!

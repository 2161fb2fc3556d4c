//! Calendar times as the store and the log panel write them. Parsing and
//! time-zone conversion are chrono's; the text written is formatted here,
//! the way chrono's `%Y`, `%m`, `%d`, `%H`, `%M` and `%S` write it.

use vstd::prelude::*;
use chrono::{Datelike, Timelike};
use crate::text::{append_chars, decimal, decimal_chars, digit_char, digit_of, string_of};

verus! {

/// Year, month, day, hour, minute and second of a calendar time.
pub type CivilTime = (i32, u32, u32, u32, u32, u32);

/// The fields of chrono's `NaiveDateTime::parse_from_str(s, fmt)`, `None`
/// when parsing fails.
pub uninterp spec fn naive_datetime_fields(s: Seq<char>, fmt: Seq<char>) -> Option<CivilTime>;

/// The ranges chrono documents: years of `NaiveDate::MIN..=NaiveDate::MAX`,
/// months 1 to 12, days 1 to 31, hours 0 to 23, minutes and seconds 0 to
/// 59.
pub open spec fn in_range(f: CivilTime) -> bool {
    &&& -262143 <= f.0 <= 262142
    &&& 1 <= f.1 <= 12
    &&& 1 <= f.2 <= 31
    &&& f.3 < 24
    &&& f.4 < 60
    &&& f.5 < 60
}

/// chrono's `NaiveDateTime::parse_from_str`, read out field by field
/// (`Datelike::year`, `month`, `day`, `Timelike::hour`, `minute`,
/// `second`). The result is named by `naive_datetime_fields` of the
/// arguments; the fields lie in the ranges chrono documents.
#[verifier::external_body]
fn parse_naive_fields(s: &str, fmt: &str) -> (r: Option<CivilTime>)
    ensures
        r == naive_datetime_fields(s@, fmt@),
        r matches Some(f) ==> in_range(f),
{
    match chrono::NaiveDateTime::parse_from_str(s, fmt) {
        Ok(dt) => Some((dt.year(), dt.month(), dt.day(), dt.hour(), dt.minute(), dt.second())),
        Err(_) => None,
    }
}

/// Whether the machine's local time zone has this wall-clock time
/// (chrono's `and_local_timezone(Local).earliest()` is `Some`; a time in a
/// daylight-saving gap has none). It depends on the time zone, so nothing
/// is claimed.
#[verifier::external_body]
fn local_time_exists(f: CivilTime) -> bool {
    match chrono::NaiveDate::from_ymd_opt(f.0, f.1, f.2) {
        Some(d) => match d.and_hms_opt(f.3, f.4, f.5) {
            Some(dt) => dt.and_local_timezone(chrono::Local).earliest().is_some(),
            None => false,
        },
        None => false,
    }
}

/// Whether chrono's `DateTime::parse_from_rfc3339` accepts `token`.
pub uninterp spec fn rfc3339_parses(token: Seq<char>) -> bool;

/// chrono's `DateTime::parse_from_rfc3339`, moved to the local time zone
/// (`with_timezone(&Local)`, which cannot fail) and read out field by field.
/// Whether it parses is named as a function of the token; the fields depend
/// on the time zone, so of them only the documented ranges are claimed.
#[verifier::external_body]
fn rfc3339_local_fields(token: &str) -> (r: Option<CivilTime>)
    ensures
        r is Some <==> rfc3339_parses(token@),
        r matches Some(f) ==> in_range(f),
{
    match chrono::DateTime::parse_from_rfc3339(token) {
        Ok(dt) => {
            let l = dt.with_timezone(&chrono::Local);
            Some((l.year(), l.month(), l.day(), l.hour(), l.minute(), l.second()))
        },
        Err(_) => None,
    }
}

/// Today's local date (`Local::now().date_naive()`), as year, month, day.
/// It comes from the clock, so only the documented ranges are claimed.
#[verifier::external_body]
fn today_local() -> (r: (i32, u32, u32))
    ensures
        1 <= r.1 <= 12,
        1 <= r.2 <= 31,
{
    let d = chrono::Local::now().date_naive();
    (d.year(), d.month(), d.day())
}

// ── formatting ──────────────────────────────────────────────────────────────
/// Two digits, zero-padded (`%m`, `%d`, `%H`, `%M`, `%S`).
pub open spec fn two_digits(v: nat) -> Seq<char> {
    seq![digit_char((v / 10) % 10), digit_char(v % 10)]
}

/// Four digits, zero-padded.
pub open spec fn four_digits(v: nat) -> Seq<char> {
    seq![digit_char((v / 1000) % 10), digit_char((v / 100) % 10), digit_char((v / 10) % 10), digit_char(v % 10)]
}

pub open spec fn abs(y: int) -> nat {
    if y < 0 {
        (-y) as nat
    } else {
        y as nat
    }
}

/// `%Y`: years 0 to 9999 as four digits; other years with a sign and at
/// least four digits.
pub open spec fn year_text(y: int) -> Seq<char> {
    if 0 <= y <= 9999 {
        four_digits(y as nat)
    } else {
        seq![if y < 0 {
            '-'
        } else {
            '+'
        }] + if abs(y) < 10000 {
            four_digits(abs(y))
        } else {
            decimal(abs(y))
        }
    }
}

/// `%Y-%m-%dT%H:%M:%S`.
pub open spec fn iso_text(f: CivilTime) -> Seq<char> {
    year_text(f.0 as int) + seq!['-'] + two_digits(f.1 as nat) + seq!['-'] + two_digits(f.2 as nat)
        + seq!['T'] + two_digits(f.3 as nat) + seq![':'] + two_digits(f.4 as nat) + seq![':']
        + two_digits(f.5 as nat)
}

fn push_two(out: &mut Vec<char>, v: u32)
    ensures
        final(out)@ == old(out)@ + two_digits(v as nat),
{
    out.push(digit_of(((v / 10) % 10) as u64));
    out.push(digit_of((v % 10) as u64));
    proof {
        assert(out@ =~= old(out)@ + two_digits(v as nat));
    }
}

fn push_four(out: &mut Vec<char>, v: u32)
    ensures
        final(out)@ == old(out)@ + four_digits(v as nat),
{
    out.push(digit_of(((v / 1000) % 10) as u64));
    out.push(digit_of(((v / 100) % 10) as u64));
    out.push(digit_of(((v / 10) % 10) as u64));
    out.push(digit_of((v % 10) as u64));
    proof {
        assert(out@ =~= old(out)@ + four_digits(v as nat));
    }
}

fn push_year(out: &mut Vec<char>, y: i32)
    requires
        -262143 <= y <= 262142,
    ensures
        final(out)@ == old(out)@ + year_text(y as int),
{
    if 0 <= y && y <= 9999 {
        push_four(out, y as u32);
    } else {
        let a: u32 = if y < 0 {
            (-y) as u32
        } else {
            y as u32
        };
        let ghost start = out@;
        out.push(if y < 0 {
            '-'
        } else {
            '+'
        });
        if a < 10000 {
            push_four(out, a);
        } else {
            let d = decimal_chars(a as u64);
            append_chars(out, d.as_slice());
        }
        proof {
            assert(a as nat == abs(y as int));
            assert(out@ =~= start + year_text(y as int));
        }
    }
}

/// Formats a time as `%Y-%m-%dT%H:%M:%S`.
pub fn format_iso(f: CivilTime) -> (r: String)
    requires
        in_range(f),
    ensures
        r@ == iso_text(f),
{
    let mut out: Vec<char> = Vec::new();
    push_year(&mut out, f.0);
    out.push('-');
    push_two(&mut out, f.1);
    out.push('-');
    push_two(&mut out, f.2);
    out.push('T');
    push_two(&mut out, f.3);
    out.push(':');
    push_two(&mut out, f.4);
    out.push(':');
    push_two(&mut out, f.5);
    proof {
        assert(out@ =~= iso_text(f));
    }
    string_of(out.as_slice())
}

/// The format of a stored timestamp.
pub const STORE_TIME_FORMAT: &'static str = "%Y-%m-%dT%H:%M:%S";

/// What normalising the stored timestamp text `cell` may give: nothing when
/// it does not parse, and otherwise nothing or its formatted fields.
pub open spec fn stored_time_of(cell: Seq<char>, ts: Option<Seq<char>>) -> bool {
    &&& naive_datetime_fields(cell, STORE_TIME_FORMAT@) is None ==> ts is None
    &&& ts matches Some(t) ==> exists|f: CivilTime|
        naive_datetime_fields(cell, STORE_TIME_FORMAT@) == Some(f) && t == iso_text(f)
}

/// Normalises a stored timestamp the way the store reads one: parsed with
/// `STORE_TIME_FORMAT`, placed in the local time zone, and written back in
/// the same format. Text that does not parse gives `None`; a time the local
/// zone lacks gives `None` too, which depends on the zone.
pub fn stored_time_text(s: &str) -> (r: Option<String>)
    ensures
        stored_time_of(s@, crate::text::opt_view(r)),
{
    match parse_naive_fields(s, STORE_TIME_FORMAT) {
        Some(f) => stored_time_for(f, local_time_exists(f)),
        None => None,
    }
}

/// What a stored timestamp with fields `f` normalises to, given whether
/// the local time zone has that wall-clock time: its fields written back,
/// or `None`.
pub fn stored_time_for(f: CivilTime, exists_locally: bool) -> (r: Option<String>)
    requires
        in_range(f),
    ensures
        crate::text::opt_view(r) == (if exists_locally {
            Some(iso_text(f))
        } else {
            None
        }),
{
    if exists_locally {
        Some(format_iso(f))
    } else {
        None
    }
}

/// Digits, signs and the separators of the formats.
pub open spec fn time_char(c: char) -> bool {
    ('0' <= c && c <= '9') || c == '-' || c == '+' || c == 'T' || c == ':' || c == ' '
}

pub open spec fn time_chars(s: Seq<char>) -> bool {
    forall|i: int| 0 <= i < s.len() ==> time_char(#[trigger] s[i])
}

proof fn lemma_digit_char(d: nat)
    ensures
        '0' <= digit_char(d % 10) <= '9',
{
    let ds = seq!['0', '1', '2', '3', '4', '5', '6', '7', '8', '9'];
    assert(ds[(d % 10) as int] == digit_char(d % 10));
}

proof fn lemma_decimal_chars(n: nat)
    ensures
        time_chars(decimal(n)),
    decreases n,
{
    lemma_digit_char(n);
    if n >= 10 {
        lemma_decimal_chars(n / 10);
    }
}

proof fn lemma_concat(a: Seq<char>, b: Seq<char>)
    requires
        time_chars(a),
        time_chars(b),
    ensures
        time_chars(a + b),
{
    assert forall|i: int| 0 <= i < (a + b).len() implies time_char(#[trigger] (a + b)[i]) by {
        if i < a.len() {
            assert((a + b)[i] == a[i]);
        } else {
            assert((a + b)[i] == b[i - a.len()]);
        }
    }
}

proof fn lemma_two(v: nat)
    ensures
        time_chars(two_digits(v)),
{
    lemma_digit_char(v / 10);
    lemma_digit_char(v);
}

proof fn lemma_four(v: nat)
    ensures
        time_chars(four_digits(v)),
{
    lemma_digit_char(v / 1000);
    lemma_digit_char(v / 100);
    lemma_digit_char(v / 10);
    lemma_digit_char(v);
}

/// The text of a formatted time holds only digits, signs and the formats'
/// separators.
pub proof fn lemma_iso_text_chars(f: CivilTime)
    ensures
        time_chars(iso_text(f)),
{
    let y = f.0 as int;
    lemma_four(y as nat);
    lemma_four(abs(y));
    lemma_decimal_chars(abs(y));
    let sign = seq![if y < 0 {
        '-'
    } else {
        '+'
    }];
    if !(0 <= y <= 9999) {
        if abs(y) < 10000 {
            lemma_concat(sign, four_digits(abs(y)));
        } else {
            lemma_concat(sign, decimal(abs(y)));
        }
    }
    lemma_two(f.1 as nat);
    lemma_two(f.2 as nat);
    lemma_two(f.3 as nat);
    lemma_two(f.4 as nat);
    lemma_two(f.5 as nat);
    let mut acc = year_text(y);
    lemma_concat(acc, seq!['-']);
    acc = acc + seq!['-'];
    lemma_concat(acc, two_digits(f.1 as nat));
    acc = acc + two_digits(f.1 as nat);
    lemma_concat(acc, seq!['-']);
    acc = acc + seq!['-'];
    lemma_concat(acc, two_digits(f.2 as nat));
    acc = acc + two_digits(f.2 as nat);
    lemma_concat(acc, seq!['T']);
    acc = acc + seq!['T'];
    lemma_concat(acc, two_digits(f.3 as nat));
    acc = acc + two_digits(f.3 as nat);
    lemma_concat(acc, seq![':']);
    acc = acc + seq![':'];
    lemma_concat(acc, two_digits(f.4 as nat));
    acc = acc + two_digits(f.4 as nat);
    lemma_concat(acc, seq![':']);
    acc = acc + seq![':'];
    lemma_concat(acc, two_digits(f.5 as nat));
    acc = acc + two_digits(f.5 as nat);
    assert(acc == iso_text(f));
}

// ── log panel times ─────────────────────────────────────────────────────────
/// A log time in the log panel: `%H:%M:%S` when it falls on `today`,
/// `%m-%d %H:%M` otherwise.
pub open spec fn short_time_text(f: CivilTime, today: (i32, u32, u32)) -> Seq<char> {
    if f.0 == today.0 && f.1 == today.1 && f.2 == today.2 {
        two_digits(f.3 as nat) + seq![':'] + two_digits(f.4 as nat) + seq![':'] + two_digits(
            f.5 as nat,
        )
    } else {
        two_digits(f.1 as nat) + seq!['-'] + two_digits(f.2 as nat) + seq![' '] + two_digits(
            f.3 as nat,
        ) + seq![':'] + two_digits(f.4 as nat)
    }
}

/// Formats a log time relative to `today`.
pub fn short_time(f: CivilTime, today: (i32, u32, u32)) -> (r: String)
    ensures
        r@ == short_time_text(f, today),
{
    let mut out: Vec<char> = Vec::new();
    if f.0 == today.0 && f.1 == today.1 && f.2 == today.2 {
        push_two(&mut out, f.3);
        out.push(':');
        push_two(&mut out, f.4);
        out.push(':');
        push_two(&mut out, f.5);
    } else {
        push_two(&mut out, f.1);
        out.push('-');
        push_two(&mut out, f.2);
        out.push(' ');
        push_two(&mut out, f.3);
        out.push(':');
        push_two(&mut out, f.4);
    }
    proof {
        assert(out@ =~= short_time_text(f, today));
    }
    string_of(out.as_slice())
}

// ── ticker times ────────────────────────────────────────────────────────────
/// A time in the ICY ticker: `%H:%M` when it falls on `today`,
/// `%d/%m/%Y %H:%M` otherwise.
pub open spec fn ticker_time_text(f: CivilTime, today: (i32, u32, u32)) -> Seq<char> {
    let hm = two_digits(f.3 as nat) + seq![':'] + two_digits(f.4 as nat);
    if f.0 == today.0 && f.1 == today.1 && f.2 == today.2 {
        hm
    } else {
        two_digits(f.2 as nat) + seq!['/'] + two_digits(f.1 as nat) + seq!['/'] + year_text(f.0 as int)
            + seq![' '] + hm
    }
}

/// Formats the time of an ICY title relative to `today`.
pub fn ticker_time(f: CivilTime, today: (i32, u32, u32)) -> (r: String)
    requires
        in_range(f),
    ensures
        r@ == ticker_time_text(f, today),
{
    let mut out: Vec<char> = Vec::new();
    if !(f.0 == today.0 && f.1 == today.1 && f.2 == today.2) {
        push_two(&mut out, f.2);
        out.push('/');
        push_two(&mut out, f.1);
        out.push('/');
        push_year(&mut out, f.0);
        out.push(' ');
    }
    push_two(&mut out, f.3);
    out.push(':');
    push_two(&mut out, f.4);
    proof {
        assert(out@ =~= ticker_time_text(f, today));
    }
    string_of(out.as_slice())
}

/// Shortens an RFC 3339 timestamp token to local time for the log panel:
/// `Some` exactly when it parses as RFC 3339. Which form it takes and the
/// local time depend on the clock and the time zone.
pub fn compact_timestamp(token: &str) -> (r: Option<String>)
    ensures
        r is Some <==> rfc3339_parses(token@),
        r matches Some(t) ==> exists|f: CivilTime, today: (i32, u32, u32)|
            t@ == short_time_text(f, today),
{
    match rfc3339_local_fields(token) {
        Some(f) => {
            let today = today_local();
            Some(short_time(f, today))
        },
        None => None,
    }
}

// ── clock durations ─────────────────────────────────────────────────────────
/// A number zero-padded to at least two digits (`{:02}`).
pub open spec fn pad2(v: nat) -> Seq<char> {
    if v < 10 {
        seq!['0'] + decimal(v)
    } else {
        decimal(v)
    }
}

/// A duration of whole seconds as `MM:SS`, or `HH:MM:SS` from an hour on.
pub open spec fn clock_text(total: nat) -> Seq<char> {
    let h = total / 3600;
    let m = (total % 3600) / 60;
    let s = total % 60;
    if h > 0 {
        pad2(h) + seq![':'] + pad2(m) + seq![':'] + pad2(s)
    } else {
        pad2(m) + seq![':'] + pad2(s)
    }
}

/// Appends `v` zero-padded to at least two digits.
pub fn push_pad2(out: &mut Vec<char>, v: u64)
    ensures
        final(out)@ == old(out)@ + pad2(v as nat),
{
    if v < 10 {
        out.push('0');
    }
    let d = decimal_chars(v);
    append_chars(out, d.as_slice());
    proof {
        assert(out@ =~= old(out)@ + pad2(v as nat));
    }
}

/// Formats a duration of whole seconds (playback position, length, a
/// chapter's bounds).
pub fn fmt_clock(total_secs: u64) -> (r: String)
    ensures
        r@ == clock_text(total_secs as nat),
{
    let h = total_secs / 3600;
    let m = (total_secs % 3600) / 60;
    let s = total_secs % 60;
    let mut out: Vec<char> = Vec::new();
    if h > 0 {
        push_pad2(&mut out, h);
        out.push(':');
    }
    push_pad2(&mut out, m);
    out.push(':');
    push_pad2(&mut out, s);
    proof {
        assert(out@ =~= clock_text(total_secs as nat));
    }
    string_of(out.as_slice())
}

} // verus!

//! Date and time rendering: the `YYYY/MM/DD , HH:MM:SS` stamp, and the
//! minute-of-day arithmetic on `HH:MM` strings. The clock itself is read
//! through one trusted call into chrono; everything computed from the parts
//! it returns is verified.

use chrono::{Datelike, Timelike};

use vstd::prelude::*;

use crate::strnum::{all_digits, dec_of, digits_val, first_ix, parse_digits, scan_first,
    u64_to_string};

verus! {

/// `s` left-padded with zeros to width `w`.
pub open spec fn pad_left_zeros(s: Seq<char>, w: nat) -> Seq<char> {
    if s.len() >= w {
        s
    } else {
        Seq::new((w - s.len()) as nat, |i: int| '0') + s
    }
}

/// A number in decimal, padded to two places.
pub open spec fn two_text(n: nat) -> Seq<char> {
    pad_left_zeros(dec_of(n), 2)
}

/// A year, padded to four places, with a leading `-` when negative.
pub open spec fn year_text(y: int) -> Seq<char> {
    if y >= 0 {
        pad_left_zeros(dec_of(y as nat), 4)
    } else {
        seq!['-'] + pad_left_zeros(dec_of((-y) as nat), 4)
    }
}

/// The full date-and-time stamp, e.g. `2017/09/09 , 13:12:26`.
pub open spec fn spec_date_text(y: int, mo: nat, d: nat, h: nat, mi: nat, s: nat) -> Seq<char> {
    year_text(y) + "/"@ + two_text(mo) + "/"@ + two_text(d) + " , "@ + two_text(h) + ":"@
        + two_text(mi) + ":"@ + two_text(s)
}

proof fn lemma_dec_len(n: nat)
    ensures
        n < 10 ==> dec_of(n).len() == 1,
        10 <= n < 100 ==> dec_of(n).len() == 2,
        100 <= n < 1000 ==> dec_of(n).len() == 3,
        1000 <= n ==> dec_of(n).len() >= 4,
    decreases n,
{
    if n >= 10 {
        lemma_dec_len(n / 10);
    }
}

/// Two-digit rendering of a value below 100.
fn pad2(n: u64) -> (r: String)
    ensures
        r@ == two_text(n as nat),
{
    proof {
        lemma_dec_len(n as nat);
        reveal_strlit("0");
    }
    if n < 10 {
        let mut r = "0".to_owned();
        let d = u64_to_string(n);
        r.append(d.as_str());
        proof {
            assert(r@ =~= two_text(n as nat));
        }
        r
    } else {
        let r = u64_to_string(n);
        r
    }
}

/// Four-digit rendering.
fn pad4(n: u64) -> (r: String)
    ensures
        r@ == pad_left_zeros(dec_of(n as nat), 4),
{
    proof {
        lemma_dec_len(n as nat);
        reveal_strlit("000");
        reveal_strlit("00");
        reveal_strlit("0");
    }
    if n < 10 {
        let mut r = "000".to_owned();
        let d = u64_to_string(n);
        r.append(d.as_str());
        proof {
            assert(r@ =~= pad_left_zeros(dec_of(n as nat), 4));
        }
        r
    } else if n < 100 {
        let mut r = "00".to_owned();
        let d = u64_to_string(n);
        r.append(d.as_str());
        proof {
            assert(r@ =~= pad_left_zeros(dec_of(n as nat), 4));
        }
        r
    } else if n < 1000 {
        let mut r = "0".to_owned();
        let d = u64_to_string(n);
        r.append(d.as_str());
        proof {
            assert(r@ =~= pad_left_zeros(dec_of(n as nat), 4));
        }
        r
    } else {
        let r = u64_to_string(n);
        r
    }
}

/// Renders calendar parts as `spec_date_text`.
fn format_date(y: i32, mo: u32, d: u32, h: u32, mi: u32, s: u32) -> (r: String)
    ensures
        r@ == spec_date_text(y as int, mo as nat, d as nat, h as nat, mi as nat, s as nat),
{
    let mut r: String;
    if y >= 0 {
        r = pad4(y as u64);
    } else {
        r = "-".to_owned();
        let abs = pad4((-(y as i64)) as u64);
        r.append(abs.as_str());
        proof {
            reveal_strlit("-");
            assert(r@ =~= year_text(y as int));
        }
    }
    r.append("/");
    let t = pad2(mo as u64);
    r.append(t.as_str());
    r.append("/");
    let t = pad2(d as u64);
    r.append(t.as_str());
    r.append(" , ");
    let t = pad2(h as u64);
    r.append(t.as_str());
    r.append(":");
    let t = pad2(mi as u64);
    r.append(t.as_str());
    r.append(":");
    let t = pad2(s as u64);
    r.append(t.as_str());
    proof {
        assert(r@ =~= spec_date_text(y as int, mo as nat, d as nat, h as nat, mi as nat, s as nat));
    }
    r
}

/// Relies on chrono's `Local::now` with the `Datelike` and `Timelike`
/// accessors: month is 1..=12, day is 1..=31, hour is below 24, minute and
/// second below 60. The year carries no documented bound.
#[verifier::external_body]
fn local_now_parts() -> (r: (i32, u32, u32, u32, u32, u32))
    ensures
        1 <= r.1 <= 12,
        1 <= r.2 <= 31,
        r.3 < 24,
        r.4 < 60,
        r.5 < 60,
{
    let now = chrono::Local::now();
    (now.year(), now.month(), now.day(), now.hour(), now.minute(), now.second())
}

/// The current local date and time as `YYYY/MM/DD , HH:MM:SS`, for example
/// `2017/09/09 , 13:12:26`; whatever instant the clock reports, the result
/// is that instant's parts laid out by `spec_date_text`.
pub fn now_date() -> (r: String)
    ensures
        exists|y: int, mo: nat, d: nat, h: nat, mi: nat, s: nat|
            {
                &&& 1 <= mo <= 12
                &&& 1 <= d <= 31
                &&& h < 24 && mi < 60 && s < 60
                &&& r@ == #[trigger] spec_date_text(y, mo, d, h, mi, s)
            },
{
    let (y, mo, d, h, mi, s) = local_now_parts();
    let r = format_date(y, mo, d, h, mi, s);
    proof {
        assert(r@ == spec_date_text(
            y as int,
            mo as nat,
            d as nat,
            h as nat,
            mi as nat,
            s as nat,
        ));
    }
    r
}

/// An `HH:MM` string: a colon with one to four digits on each side.
pub open spec fn wf_hhmm(t: Seq<char>) -> bool {
    let c = first_ix(t, ':');
    &&& 1 <= c
    &&& c + 1 < t.len()
    &&& c <= 4
    &&& t.len() - (c + 1) <= 4
    &&& all_digits(t.subrange(0, c))
    &&& all_digits(t.subrange(c + 1, t.len() as int))
}

/// The minute-of-day value an `HH:MM` string denotes.
pub open spec fn minute_sum(t: Seq<char>) -> nat {
    let c = first_ix(t, ':');
    60 * digits_val(t.subrange(0, c)) + digits_val(t.subrange(c + 1, t.len() as int))
}

/// Reads hours and minutes out of an `HH:MM` string and returns the total in
/// minutes.
pub fn sigma_time(t: &str) -> (r: i32)
    requires
        wf_hhmm(t@),
    ensures
        r == minute_sum(t@),
{
    let n = t.unicode_len();
    let c = scan_first(t, 0, n, ':');
    proof {
        assert(t@.subrange(0, n as int) =~= t@);
    }
    let h = parse_digits(t, 0, c);
    let m = parse_digits(t, c + 1, n);
    proof {
        crate::strnum::lemma_pow10_mono((c - 0) as nat, 4);
        crate::strnum::lemma_pow10_mono((n - (c + 1)) as nat, 4);
        assert(crate::strnum::pow10(4) == 10000) by {
            reveal_with_fuel(crate::strnum::pow10, 6);
        }
    }
    (60 * h + m) as i32
}

/// The current time of day in minutes since midnight.
pub fn now_minute_of_day() -> (r: i32)
    ensures
        0 <= r < 1440,
        exists|h: nat, m: nat| h < 24 && m < 60 && r == #[trigger] minute_val(h, m),
{
    let parts = local_now_parts();
    let h = parts.3;
    let m = parts.4;
    proof {
        assert((h * 60 + m) as int == minute_val(h as nat, m as nat));
    }
    (h * 60 + m) as i32
}

/// Minutes since midnight for an hour and minute pair.
pub open spec fn minute_val(h: nat, m: nat) -> nat {
    h * 60 + m
}

} // verus!

//! Normalization of a user-supplied bandwidth ceiling to the daemon's unit.
//! The daemon's option protocol takes only integral kilobyte values, so a
//! megabyte figure is multiplied by 1024 and every figure is rounded to the
//! nearest whole number of kilobytes.

use vstd::prelude::*;

use crate::strnum::{all_digits, dec_of, digits_val, first_ix, lemma_digits_val_bound,
    lemma_pow10_le_15, lemma_pow10_mono, parse_digits, pow10, scan_first, str_eq, u64_to_string};

verus! {

/// A decimal magnitude: digits, optionally followed by `.` and more digits.
pub open spec fn wf_number(m: Seq<char>) -> bool {
    let d = first_ix(m, '.');
    if d == -1 {
        m.len() >= 1 && all_digits(m)
    } else {
        d >= 1 && all_digits(m.subrange(0, d)) && all_digits(m.subrange(d + 1, m.len() as int))
    }
}

/// The magnitude as a fraction `v / p` with `p` a power of ten.
pub open spec fn number_val_scaled(m: Seq<char>) -> (nat, nat)
    recommends
        wf_number(m),
{
    let d = first_ix(m, '.');
    if d == -1 {
        (digits_val(m), 1)
    } else {
        let k = (m.len() - d - 1) as nat;
        (digits_val(m.subrange(0, d)) * pow10(k) + digits_val(
            m.subrange(d + 1, m.len() as int),
        ), pow10(k))
    }
}

/// `v / p` rounded to the nearest integer, halves rounding up.
pub open spec fn round_half_up(v: nat, p: nat) -> nat
    recommends
        p > 0,
{
    (2 * v + p) / (2 * p)
}

/// An accepted limit string: the no-limit sentinel `0`, or a magnitude of at
/// most fifteen characters followed by one unit letter.
pub open spec fn wf_limit(s: Seq<char>) -> bool {
    s == "0"@ || (2 <= s.len() <= 16 && wf_number(s.subrange(0, s.len() - 1)))
}

/// What the limit becomes: `0` stays, a `K` figure is rounded, any other unit
/// is read as megabytes and converted, and the result always carries `K`.
pub open spec fn spec_normalize_limit(s: Seq<char>) -> Seq<char>
    recommends
        wf_limit(s),
{
    if s == "0"@ {
        "0"@
    } else {
        let m = s.subrange(0, s.len() - 1);
        let vp = number_val_scaled(m);
        let n = if s.last() == 'K' {
            round_half_up(vp.0, vp.1)
        } else {
            round_half_up(1024 * vp.0, vp.1)
        };
        dec_of(n) + "K"@
    }
}

proof fn lemma_pow10_add(a: nat, b: nat)
    ensures
        pow10(a) * pow10(b) == pow10(a + b),
    decreases a,
{
    if a == 0 {
        assert(pow10(0) == 1);
    } else {
        lemma_pow10_add((a - 1) as nat, b);
        assert(pow10(a) == 10 * pow10((a - 1) as nat));
        assert((10 * pow10((a - 1) as nat)) * pow10(b) == 10 * (pow10((a - 1) as nat) * pow10(b)))
            by (nonlinear_arith);
        assert(pow10(a + b) == 10 * pow10((a + b - 1) as nat));
    }
}

/// Converts a limit string to integral kilobytes, as `spec_normalize_limit`
/// states.
pub fn normalize_speed_limit(limit: &str) -> (r: String)
    requires
        wf_limit(limit@),
    ensures
        r@ == spec_normalize_limit(limit@),
{
    if str_eq(limit, "0") {
        return "0".to_owned();
    }
    let n = limit.unicode_len();
    let ghost m = limit@.subrange(0, n - 1);
    let u = limit.get_char(n - 1);
    let dot = scan_first(limit, 0, n - 1, '.');
    proof {
        assert(m == limit@.subrange(0, limit@.len() - 1));
        assert(m =~= limit@.subrange(0, n - 1));
    }
    let v: u64;
    let p: u64;
    let ghost dd = first_ix(m, '.');
    if dot == n - 1 {
        proof {
            assert(dd == -1);
            assert(all_digits(m));
            lemma_digits_val_bound(m);
            lemma_pow10_le_15(m.len());
        }
        v = parse_digits(limit, 0, n - 1);
        p = 1;
        proof {
            assert((v as nat, p as nat) == number_val_scaled(m));
        }
    } else {
        let k = n - 1 - dot - 1;
        proof {
            assert(dd == dot as int);
            assert(m.subrange(0, dd) =~= limit@.subrange(0, dot as int));
            assert(m.subrange(dd + 1, m.len() as int) =~= limit@.subrange(
                dot + 1,
                n - 1,
            ));
        }
        let ipart = parse_digits(limit, 0, dot);
        let fpart = parse_digits(limit, dot + 1, n - 1);
        let mut pw: u64 = 1;
        let mut j: usize = 0;
        while j < k
            invariant
                j <= k <= 15,
                pw == pow10(j as nat),
                pw <= 1000000000000000,
            decreases k - j,
        {
            proof {
                lemma_pow10_le_15((j + 1) as nat);
            }
            pw = pw * 10;
            j += 1;
        }
        proof {
            let a = dot as nat;
            let b = k as nat;
            lemma_pow10_add(a, b);
            lemma_pow10_mono((a + b) as nat, 14);
            lemma_pow10_le_15(14);
            assert(ipart * pw <= (pow10(a) - 1) * pow10(b)) by {
                vstd::arithmetic::mul::lemma_mul_inequality(
                    ipart as int,
                    pow10(a) as int - 1,
                    pow10(b) as int,
                );
            }
            assert((pow10(a) - 1) * pow10(b) == pow10(a) * pow10(b) - pow10(b))
                by (nonlinear_arith);
        }
        v = ipart * pw + fpart;
        p = pw;
        proof {
            assert((v as nat, p as nat) == number_val_scaled(m));
        }
    }
    proof {
        assert(v < 1000000000000001);
        assert(p <= 1000000000000000);
        assert(p >= 1);
    }
    let rounded: u64 = if u == 'K' {
        (2 * v + p) / (2 * p)
    } else {
        proof {
            assert(2048 * (v as int) + p <= 2048000000000002048 + 1000000000000000);
        }
        (2048 * v + p) / (2 * p)
    };
    let mut r = u64_to_string(rounded);
    r.append("K");
    proof {
        assert(limit@.last() == u);
        if u == 'K' {
            assert(rounded as nat == round_half_up(v as nat, p as nat));
        } else {
            assert(2048 * v == 2 * (1024 * (v as nat))) by (nonlinear_arith);
            assert(rounded as nat == round_half_up((1024 * (v as nat)) as nat, p as nat));
        }
        assert(r@ =~= spec_normalize_limit(limit@));
    }
    r
}

} // verus!

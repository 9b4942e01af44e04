//! Rendering of byte counts in binary units (KiB, MiB, GiB), as shown in the
//! size, downloaded and rate columns.

use vstd::prelude::*;

use crate::strnum::{dec_of, u64_to_string};

verus! {

pub const KIB: u64 = 1024;

pub const MIB: u64 = 1048576;

pub const GIB: u64 = 1073741824;

/// `n / unit` rendered with one decimal digit (both parts rounded down).
pub open spec fn one_decimal(n: nat, unit: nat) -> Seq<char>
    recommends
        unit > 0,
{
    let t = n * 10 / unit;
    dec_of(t / 10) + seq!['.'] + dec_of(t % 10)
}

/// A byte count rendered in the largest binary unit that keeps the integer
/// part non-zero: bytes below 1 KiB in plain bytes, then KiB, MiB and GiB with
/// one decimal digit.
pub open spec fn human_size(n: nat) -> Seq<char> {
    if n < KIB {
        dec_of(n) + " B"@
    } else if n < MIB {
        one_decimal(n, KIB as nat) + " KiB"@
    } else if n < GIB {
        one_decimal(n, MIB as nat) + " MiB"@
    } else {
        one_decimal(n, GIB as nat) + " GiB"@
    }
}

/// Renders `n / unit` with one decimal digit.
fn one_decimal_exec(n: u64, unit: u64) -> (r: String)
    requires
        unit >= 1024,
    ensures
        r@ == one_decimal(n as nat, unit as nat),
{
    let t128: u128 = (n as u128) * 10 / (unit as u128);
    proof {
        let nn = n as int;
        let uu = unit as int;
        assert(t128 <= nn) by {
            vstd::arithmetic::div_mod::lemma_div_is_ordered_by_denominator(nn * 10, 1024, uu);
            vstd::arithmetic::div_mod::lemma_div_is_ordered(nn * 10, nn * 1024, 1024);
            vstd::arithmetic::div_mod::lemma_div_by_multiple(nn, 1024);
        }
    }
    let t: u64 = t128 as u64;
    let mut r = u64_to_string(t / 10);
    r.append(".");
    let tail = u64_to_string(t % 10);
    r.append(tail.as_str());
    proof {
        reveal_strlit(".");
        assert(r@ =~= one_decimal(n as nat, unit as nat));
    }
    r
}

/// The display form of a byte count, matching `human_size`.
pub fn human_readable_size(n: u64) -> (r: String)
    ensures
        r@ == human_size(n as nat),
{
    if n < KIB {
        let mut r = u64_to_string(n);
        r.append(" B");
        proof {
            assert(r@ =~= human_size(n as nat));
        }
        r
    } else if n < MIB {
        let mut r = one_decimal_exec(n, KIB);
        r.append(" KiB");
        proof {
            assert(r@ =~= human_size(n as nat));
        }
        r
    } else if n < GIB {
        let mut r = one_decimal_exec(n, MIB);
        r.append(" MiB");
        proof {
            assert(r@ =~= human_size(n as nat));
        }
        r
    } else {
        let mut r = one_decimal_exec(n, GIB);
        r.append(" GiB");
        proof {
            assert(r@ =~= human_size(n as nat));
        }
        r
    }
}

} // verus!

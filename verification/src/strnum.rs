//! Decimal rendering of integers and character-level string utilities used by
//! the display formatters.

use vstd::prelude::*;

verus! {

/// The decimal digit character for a value below ten.
pub open spec fn digit_char(d: nat) -> char {
    if d == 0 {
        '0'
    } else if d == 1 {
        '1'
    } else if d == 2 {
        '2'
    } else if d == 3 {
        '3'
    } else if d == 4 {
        '4'
    } else if d == 5 {
        '5'
    } else if d == 6 {
        '6'
    } else if d == 7 {
        '7'
    } else if d == 8 {
        '8'
    } else {
        '9'
    }
}

/// The usual decimal rendering of a natural number, without sign or padding.
pub open spec fn dec_of(n: nat) -> Seq<char>
    decreases n,
{
    if n < 10 {
        seq![digit_char(n)]
    } else {
        dec_of(n / 10).push(digit_char(n % 10))
    }
}

/// One-character string for a decimal digit.
fn digit_str(d: u64) -> (r: &'static str)
    requires
        d < 10,
    ensures
        r@ =~= seq![digit_char(d as nat)],
{
    proof {
        reveal_strlit("0");
        reveal_strlit("1");
        reveal_strlit("2");
        reveal_strlit("3");
        reveal_strlit("4");
        reveal_strlit("5");
        reveal_strlit("6");
        reveal_strlit("7");
        reveal_strlit("8");
        reveal_strlit("9");
    }
    if d == 0 {
        "0"
    } else if d == 1 {
        "1"
    } else if d == 2 {
        "2"
    } else if d == 3 {
        "3"
    } else if d == 4 {
        "4"
    } else if d == 5 {
        "5"
    } else if d == 6 {
        "6"
    } else if d == 7 {
        "7"
    } else if d == 8 {
        "8"
    } else {
        "9"
    }
}

/// Renders a number in decimal, matching `dec_of`.
pub fn u64_to_string(n: u64) -> (r: String)
    ensures
        r@ == dec_of(n as nat),
    decreases n,
{
    if n < 10 {
        let r = digit_str(n).to_owned();
        proof {
            assert(r@ =~= dec_of(n as nat));
        }
        r
    } else {
        let mut r = u64_to_string(n / 10);
        r.append(digit_str(n % 10));
        proof {
            assert(r@ =~= dec_of(n as nat));
        }
        r
    }
}

/// Index just past the last occurrence of `c` in `s`, or 0 when `c` does not
/// occur.
pub open spec fn after_last(s: Seq<char>, c: char) -> int
    decreases s.len(),
{
    if s.len() == 0 {
        0
    } else if s.last() == c {
        s.len() as int
    } else {
        after_last(s.drop_last(), c)
    }
}

pub proof fn lemma_after_last(s: Seq<char>, c: char)
    ensures
        0 <= after_last(s, c) <= s.len(),
        forall|j: int| after_last(s, c) <= j < s.len() ==> s[j] != c,
        after_last(s, c) > 0 ==> s[after_last(s, c) - 1] == c,
    decreases s.len(),
{
    if s.len() > 0 && s.last() != c {
        lemma_after_last(s.drop_last(), c);
        assert forall|j: int| after_last(s, c) <= j < s.len() implies s[j] != c by {
            if j < s.len() - 1 {
                assert(s.drop_last()[j] == s[j]);
            }
        }
        if after_last(s, c) > 0 {
            assert(s.drop_last()[after_last(s, c) - 1] == s[after_last(s, c) - 1]);
        }
    }
}

/// Index of the first occurrence of `c` in `s`, or -1 when `c` does not occur.
pub open spec fn first_ix(s: Seq<char>, c: char) -> int
    decreases s.len(),
{
    if s.len() == 0 {
        -1
    } else if s[0] == c {
        0
    } else if first_ix(s.drop_first(), c) == -1 {
        -1
    } else {
        1 + first_ix(s.drop_first(), c)
    }
}

pub proof fn lemma_first_ix(s: Seq<char>, c: char)
    ensures
        first_ix(s, c) == -1 ==> forall|j: int| 0 <= j < s.len() ==> s[j] != c,
        first_ix(s, c) != -1 ==> {
            &&& 0 <= first_ix(s, c) < s.len()
            &&& s[first_ix(s, c)] == c
            &&& forall|j: int| 0 <= j < first_ix(s, c) ==> s[j] != c
        },
    decreases s.len(),
{
    if s.len() > 0 && s[0] != c {
        lemma_first_ix(s.drop_first(), c);
        let r = first_ix(s.drop_first(), c);
        if r == -1 {
            assert forall|j: int| 0 <= j < s.len() implies s[j] != c by {
                if j > 0 {
                    assert(s.drop_first()[j - 1] == s[j]);
                }
            }
        } else {
            assert(s.drop_first()[r] == s[r + 1]);
            assert forall|j: int| 0 <= j < first_ix(s, c) implies s[j] != c by {
                if j > 0 {
                    assert(s.drop_first()[j - 1] == s[j]);
                }
            }
        }
    }
}

/// Scans `s[lo..hi]` backwards and returns `lo` plus the index just past the
/// last occurrence of `c` in that range.
pub fn scan_after_last(s: &str, lo: usize, hi: usize, c: char) -> (r: usize)
    requires
        lo <= hi <= s@.len(),
    ensures
        r - lo == after_last(s@.subrange(lo as int, hi as int), c),
        lo <= r <= hi,
{
    let ghost whole = s@.subrange(lo as int, hi as int);
    let mut i: usize = hi;
    proof {
        lemma_after_last(whole, c);
    }
    while i > lo
        invariant
            lo <= i <= hi <= s@.len(),
            whole == s@.subrange(lo as int, hi as int),
            after_last(whole, c) == after_last(s@.subrange(lo as int, i as int), c),
        decreases i,
    {
        let ch = s.get_char(i - 1);
        proof {
            let pre = s@.subrange(lo as int, i as int);
            assert(pre.last() == s@[i - 1]);
            if ch != c {
                assert(pre.drop_last() =~= s@.subrange(lo as int, i - 1));
            }
        }
        if ch == c {
            proof {
                assert(after_last(s@.subrange(lo as int, i as int), c) == i - lo);
            }
            return i;
        }
        i -= 1;
    }
    proof {
        assert(s@.subrange(lo as int, lo as int) =~= Seq::<char>::empty());
    }
    lo
}

/// Scans `s[lo..hi]` forwards for `c`: the index of the first occurrence, or
/// `hi` when there is none.
pub fn scan_first(s: &str, lo: usize, hi: usize, c: char) -> (r: usize)
    requires
        lo <= hi <= s@.len(),
    ensures
        first_ix(s@.subrange(lo as int, hi as int), c) == -1 ==> r == hi,
        first_ix(s@.subrange(lo as int, hi as int), c) != -1 ==> r == lo + first_ix(
            s@.subrange(lo as int, hi as int),
            c,
        ) && lo <= r < hi,
{
    let ghost sub = s@.subrange(lo as int, hi as int);
    let mut i: usize = lo;
    while i < hi
        invariant
            lo <= i <= hi <= s@.len(),
            sub == s@.subrange(lo as int, hi as int),
            forall|j: int| 0 <= j < i - lo ==> sub[j] != c,
        decreases hi - i,
    {
        if s.get_char(i) == c {
            proof {
                assert(sub[i - lo] == s@[i as int]);
                lemma_first_ix(sub, c);
                if first_ix(sub, c) == -1 {
                    assert(false);
                }
            }
            return i;
        }
        i += 1;
    }
    proof {
        lemma_first_ix(sub, c);
        if first_ix(sub, c) != -1 {
            assert(sub[first_ix(sub, c)] == c);
            assert(false);
        }
    }
    hi
}

/// Digit characters and their values.
pub open spec fn is_digit(c: char) -> bool {
    '0' <= c && c <= '9'
}

pub open spec fn digit_val(c: char) -> nat
    recommends
        is_digit(c),
{
    (c as nat - '0' as nat) as nat
}

pub open spec fn all_digits(s: Seq<char>) -> bool {
    forall|i: int| 0 <= i < s.len() ==> is_digit(#[trigger] s[i])
}

/// Value of a digit string read in base ten.
pub open spec fn digits_val(s: Seq<char>) -> nat
    decreases s.len(),
{
    if s.len() == 0 {
        0
    } else {
        digits_val(s.drop_last()) * 10 + digit_val(s.last())
    }
}

pub open spec fn pow10(k: nat) -> nat
    decreases k,
{
    if k == 0 {
        1
    } else {
        10 * pow10((k - 1) as nat)
    }
}

pub proof fn lemma_digits_val_bound(s: Seq<char>)
    requires
        all_digits(s),
    ensures
        digits_val(s) < pow10(s.len()),
    decreases s.len(),
{
    if s.len() > 0 {
        assert(all_digits(s.drop_last())) by {
            assert(forall|i: int|
                0 <= i < s.len() - 1 ==> #[trigger] s.drop_last()[i] == s[i]);
        }
        lemma_digits_val_bound(s.drop_last());
        assert(digit_val(s.last()) <= 9);
    }
}

/// Parses the decimal digits in `s[lo..hi]`.
pub fn parse_digits(s: &str, lo: usize, hi: usize) -> (r: u64)
    requires
        lo <= hi <= s@.len(),
        hi - lo <= 15,
        all_digits(s@.subrange(lo as int, hi as int)),
    ensures
        r == digits_val(s@.subrange(lo as int, hi as int)),
        r < pow10((hi - lo) as nat),
{
    let ghost whole = s@.subrange(lo as int, hi as int);
    proof {
        lemma_digits_val_bound(whole);
        lemma_pow10_le_15((hi - lo) as nat);
    }
    let mut acc: u64 = 0;
    let mut i: usize = lo;
    while i < hi
        invariant
            lo <= i <= hi <= s@.len(),
            hi - lo <= 15,
            whole == s@.subrange(lo as int, hi as int),
            all_digits(whole),
            acc == digits_val(s@.subrange(lo as int, i as int)),
            acc < pow10((i - lo) as nat),
        decreases hi - i,
    {
        let c = s.get_char(i);
        proof {
            assert(whole[i - lo] == s@[i as int]);
            let pre = s@.subrange(lo as int, (i + 1) as int);
            assert(pre.drop_last() =~= s@.subrange(lo as int, i as int));
            assert(pre.last() == s@[i as int]);
            lemma_pow10_le_15((i + 1 - lo) as nat);
        }
        let d: u64 = (c as u32 - 48) as u64;
        acc = acc * 10 + d;
        i += 1;
    }
    proof {
        lemma_digits_val_bound(whole);
    }
    acc
}

pub proof fn lemma_pow10_le_15(k: nat)
    requires
        k <= 15,
    ensures
        pow10(k) <= 1000000000000000,
{
    lemma_pow10_mono(k, 15);
    assert(pow10(15) == 1000000000000000) by {
        reveal_with_fuel(pow10, 17);
    }
}

pub proof fn lemma_pow10_mono(a: nat, b: nat)
    requires
        a <= b,
    ensures
        pow10(a) <= pow10(b),
    decreases b,
{
    if a < b {
        lemma_pow10_mono(a, (b - 1) as nat);
        assert(pow10(b) == 10 * pow10((b - 1) as nat));
    }
}

/// Character-wise equality of two string slices.
pub fn str_eq(a: &str, b: &str) -> (r: bool)
    ensures
        r == (a@ == b@),
{
    let na = a.unicode_len();
    let nb = b.unicode_len();
    if na != nb {
        proof {
            assert(a@ != b@);
        }
        return false;
    }
    let mut i: usize = 0;
    while i < na
        invariant
            na == a@.len(),
            na == b@.len(),
            i <= na,
            forall|j: int| 0 <= j < i ==> a@[j] == b@[j],
        decreases na - i,
    {
        if a.get_char(i) != b.get_char(i) {
            proof {
                assert(a@ != b@);
            }
            return false;
        }
        i += 1;
    }
    proof {
        assert(a@ =~= b@);
    }
    true
}

} // verus!

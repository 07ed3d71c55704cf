//! The load that the program puts on the cluster: each worker stores
//! numbered keys, one after the other.

use vstd::prelude::*;
use vstd::string::{StrSliceExecFns, StringSliceAdditionalSpecFns};

verus! {

/// The count at which a worker stops: it stores the counts from 1 up to
/// the one before.
pub const WORKLOAD_END: u64 = 10000000;

/// How often, in counts, the first worker reports its progress.
pub const PROGRESS_EVERY: u64 = 10000;

/// The decimal digits of `n`, as ASCII bytes.
pub open spec fn decimal_digits(n: nat) -> Seq<u8>
    decreases n,
{
    if n < 10 {
        seq![(48 + n) as u8]
    } else {
        decimal_digits(n / 10).push((48 + n % 10) as u8)
    }
}

/// The number that a string of decimal digits stands for, most
/// significant digit first.
pub open spec fn digits_value(s: Seq<u8>) -> int
    decreases s.len(),
{
    if s.len() == 0 {
        0
    } else {
        digits_value(s.drop_last()) * 10 + (s.last() - 48)
    }
}

/// The decimal rendering of `n` is made of digit bytes (`'0'` to `'9'`),
/// reads back as `n`, and has no leading zero; a number below ten is its
/// single digit.
pub proof fn law_decimal_digits_render_the_number(n: nat)
    ensures
        decimal_digits(n).len() > 0,
        forall|i: int| 0 <= i < decimal_digits(n).len() ==> 48 <= #[trigger] decimal_digits(n)[i] <= 57,
        digits_value(decimal_digits(n)) == n,
        decimal_digits(n).len() > 1 ==> decimal_digits(n)[0] != 48,
        n < 10 ==> decimal_digits(n) == seq![(48 + n) as u8],
    decreases n,
{
    let s = decimal_digits(n);
    if n >= 10 {
        law_decimal_digits_render_the_number(n / 10);
        let p = decimal_digits(n / 10);
        assert(s.drop_last() == p);
        assert(s.last() == (48 + n % 10) as u8);
        assert(s.last() - 48 == n % 10);
        assert(digits_value(s) == digits_value(p) * 10 + (s.last() - 48));
        assert(digits_value(p) * 10 + (n % 10) == n) by (nonlinear_arith)
            requires
                digits_value(p) == n / 10,
        ;
        assert forall|i: int| 0 <= i < s.len() implies 48 <= #[trigger] s[i] <= 57 by {
            if i < p.len() {
                assert(s[i] == p[i]);
            }
        }
        if p.len() == 1 {
            assert(n / 10 < 10) by {
                if n / 10 >= 10 {
                    law_decimal_digits_render_the_number(n / 10 / 10);
                }
            }
            assert(s[0] == p[0]);
        } else {
            assert(s[0] == p[0]);
        }
    } else {
        assert(s.drop_last() =~= Seq::<u8>::empty());
        assert(digits_value(s) == digits_value(s.drop_last()) * 10 + (s.last() - 48));
    }
}

/// Distinct counts have distinct decimal renderings, so distinct counts
/// give distinct keys and values.
pub proof fn law_decimal_digits_injective(a: nat, b: nat)
    ensures
        decimal_digits(a) == decimal_digits(b) ==> a == b,
{
    law_decimal_digits_render_the_number(a);
    law_decimal_digits_render_the_number(b);
}

/// Distinct counts give distinct keys, so no put overwrites another.
pub proof fn law_distinct_counts_distinct_keys(prefix: Seq<u8>, a: nat, b: nat)
    ensures
        prefix + decimal_digits(a) == prefix + decimal_digits(b) ==> a == b,
{
    if prefix + decimal_digits(a) == prefix + decimal_digits(b) {
        let sa = prefix + decimal_digits(a);
        assert(sa.subrange(prefix.len() as int, sa.len() as int) =~= decimal_digits(a));
        assert((prefix + decimal_digits(b)).subrange(prefix.len() as int, sa.len() as int)
            =~= decimal_digits(b));
        law_decimal_digits_injective(a, b);
    }
}

/// Appends the decimal digits of `n` to `out`.
pub fn push_decimal(out: &mut Vec<u8>, n: u64)
    ensures
        final(out)@ == old(out)@ + decimal_digits(n as nat),
    decreases n,
{
    if n >= 10 {
        push_decimal(out, n / 10);
    }
    let d: u8 = (n % 10) as u8;
    out.push(48 + d);
    assert(final(out)@ =~= old(out)@ + decimal_digits(n as nat));
}

/// The key of the `count`th put: the head `abczyh` as `{:?}` writes it
/// (quoted), a dash, and the count.
pub fn workload_key(count: u64) -> (k: Vec<u8>)
    ensures
        k@ == "\"abczyh\"-".spec_bytes() + decimal_digits(count as nat),
{
    let mut k = "\"abczyh\"-".as_bytes_vec();
    push_decimal(&mut k, count);
    k
}

/// The value of the `count`th put: a fixed text, a dash, and the count.
pub fn workload_value(count: u64) -> (v: Vec<u8>)
    ensures
        v@ == "zyhzyhzyhzyhzyzhyzhzyzhyzhyzhzyzhyzh-".spec_bytes() + decimal_digits(count as nat),
{
    let mut v = "zyhzyhzyhzyhzyzhyzhzyzhyzhyzhzyzhyzh-".as_bytes_vec();
    push_decimal(&mut v, count);
    v
}

/// Whether a worker goes on after its count has grown to `count`.
pub fn workload_continues(count: u64) -> (r: bool)
    ensures
        r == (count != WORKLOAD_END),
{
    count != WORKLOAD_END
}

/// Whether worker `worker` reports its progress at `count`: only the first
/// one, every `PROGRESS_EVERY` counts.
pub fn reports_progress(worker: u64, count: u64) -> (r: bool)
    ensures
        r == (worker == 0 && count % PROGRESS_EVERY == 0),
{
    worker == 0 && count % PROGRESS_EVERY == 0
}

} // verus!

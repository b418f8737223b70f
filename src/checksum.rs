//! The IPv4 header checksum: one's-complement sum of 16-bit big-endian words.
use vstd::prelude::*;
use vstd::arithmetic::div_mod::lemma_mod_multiples_vanish;
use crate::bytes::{be16, read_be16};

verus! {

/// Sum of the `n` big-endian words starting at byte `start`.
pub open spec fn word_sum(f: Seq<u8>, start: int, n: nat) -> int
    decreases n,
{
    if n == 0 {
        0
    } else {
        word_sum(f, start, (n - 1) as nat) + be16(f, start + 2 * (n - 1))
    }
}

/// Folds the carries above bit 16 back into the low 16 bits until none remain.
pub open spec fn fold16(x: int) -> int
    decreases x,
    when x >= 0
    via fold16_decreases
{
    if x < 65536 {
        x
    } else {
        fold16(x % 65536 + x / 65536)
    }
}

#[via_fn]
proof fn fold16_decreases(x: int) {
    if x >= 65536 {
        assert(x % 65536 + x / 65536 < x) by (nonlinear_arith)
            requires
                x >= 65536,
        ;
    }
}

/// The one's-complement sum of a header's words.
pub open spec fn sum16(f: Seq<u8>, start: int, n: nat) -> int {
    fold16(word_sum(f, start, n))
}

/// The checksum value for a header whose word sum (checksum field zero) is `s`.
pub open spec fn checksum_of_sum(s: int) -> int {
    65535 - fold16(s)
}

pub proof fn lemma_word_sum_bounds(f: Seq<u8>, start: int, n: nat)
    requires
        0 <= start,
        start + 2 * n <= f.len(),
    ensures
        0 <= word_sum(f, start, n) <= 65535 * n,
    decreases n,
{
    if n > 0 {
        lemma_word_sum_bounds(f, start, (n - 1) as nat);
    }
}

pub proof fn lemma_fold16(x: int)
    requires
        x >= 0,
    ensures
        0 <= fold16(x) <= 65535,
        fold16(x) <= x,
        fold16(x) % 65535 == x % 65535,
        x > 0 ==> fold16(x) > 0,
    decreases x,
{
    if x >= 65536 {
        let q = x / 65536;
        let r = x % 65536;
        let y = r + q;
        assert(x == 65536 * q + r && 0 <= r < 65536 && q >= 1 && y < x) by (nonlinear_arith)
            requires
                x >= 65536,
                q == x / 65536,
                r == x % 65536,
                y == r + q,
        ;
        lemma_fold16(y);
        lemma_mod_multiples_vanish(q, y, 65535);
        assert(x == 65535 * q + y);
    }
}

/// Words that do not cover bytes `start + 10` and `start + 11` keep their
/// sum when only those two bytes change; covering them, the sum moves by the
/// change of that word.
pub proof fn lemma_word_sum_one_word(f: Seq<u8>, g: Seq<u8>, start: int, n: nat)
    requires
        0 <= start,
        start + 2 * n <= f.len(),
        f.len() == g.len(),
        forall|j: int| start <= j < start + 2 * n && j != start + 10 && j != start + 11 ==> f[j] == g[j],
    ensures
        n <= 5 ==> word_sum(g, start, n) == word_sum(f, start, n),
        n > 5 ==> word_sum(g, start, n) == word_sum(f, start, n) - be16(f, start + 10) + be16(g, start + 10),
    decreases n,
{
    if n > 0 {
        lemma_word_sum_one_word(f, g, start, (n - 1) as nat);
        if n - 1 != 5 {
            assert(f[start + 2 * (n - 1)] == g[start + 2 * (n - 1)]);
            assert(f[start + 2 * (n - 1) + 1] == g[start + 2 * (n - 1) + 1]);
        }
    }
}

/// Once the checksum written from the zero-field sum stands in its field, the
/// one's-complement sum of the header is 0xFFFF.
pub proof fn lemma_checksum_verifies(s: int, t: int)
    requires
        s >= 0,
        t == s + checksum_of_sum(s),
    ensures
        fold16(t) == 65535,
{
    lemma_fold16(s);
    let c = checksum_of_sum(s);
    assert(t >= 65535);
    lemma_mod_multiples_vanish(1, t - 65535, 65535);
    assert((s - fold16(s)) % 65535 == 0) by {
        let k = s / 65535;
        let m = s % 65535;
        assert(s == 65535 * k + m) by (nonlinear_arith)
            requires
                k == s / 65535,
                m == s % 65535,
        ;
        assert(fold16(s) % 65535 == m);
        let k2 = fold16(s) / 65535;
        assert(fold16(s) == 65535 * k2 + m) by (nonlinear_arith)
            requires
                k2 == fold16(s) / 65535,
                m == fold16(s) % 65535,
        ;
        lemma_mod_multiples_vanish(k - k2, 0, 65535);
        assert(s - fold16(s) == 65535 * (k - k2) + 0) by (nonlinear_arith)
            requires
                s == 65535 * k + m,
                fold16(s) == 65535 * k2 + m,
        ;
    }
    assert(t % 65535 == 0);
    lemma_fold16(t);
    assert(fold16(t) == 65535);
}

/// Computes the IPv4 header checksum of the `nbytes` bytes at `start` in
/// place: the field at `start + 10` is zeroed, the words are summed, the
/// carries folded, and the complement written big-endian into the field.
pub fn write_header_checksum(f: &mut [u8], start: usize, nbytes: usize)
    requires
        nbytes % 2 == 0,
        nbytes <= 60,
        start + 12 <= old(f)@.len(),
        start + nbytes <= old(f)@.len(),
    ensures
        final(f)@.len() == old(f)@.len(),
        forall|j: int| 0 <= j < old(f)@.len() && j != start + 10 && j != start + 11 ==> final(f)@[j] == old(f)@[j],
        be16(final(f)@, start + 10) == checksum_of_sum(
            word_sum(old(f)@.update(start + 10, 0u8).update(start + 11, 0u8), start as int, (nbytes / 2) as nat),
        ),
        nbytes >= 12 ==> sum16(final(f)@, start as int, (nbytes / 2) as nat) == 65535,
{
    f[start + 10] = 0;
    f[start + 11] = 0;
    let ghost zeroed = f@;
    assert(zeroed == old(f)@.update(start + 10, 0u8).update(start + 11, 0u8));
    let len = f.len();
    let nwords: usize = nbytes / 2;
    assert(nbytes == 2 * nwords);
    let mut sum: u32 = 0;
    let mut k: usize = 0;
    while k < nwords
        invariant
            k <= nwords <= 30,
            start + 2 * nwords <= len,
            len == f@.len(),
            f@ == zeroed,
            sum as int == word_sum(zeroed, start as int, k as nat),
            sum <= 65535 * k,
        decreases nwords - k,
    {
        let w = read_be16(f, start + 2 * k);
        assert(word_sum(zeroed, start as int, (k + 1) as nat) == sum + w);
        sum = sum + w as u32;
        k = k + 1;
    }
    let ghost total = sum as int;
    proof {
        lemma_fold16(total);
    }
    while sum >= 65536
        invariant
            fold16(sum as int) == fold16(total),
            total >= 0,
        decreases sum,
    {
        proof {
            lemma_fold16(sum as int);
            assert(sum % 65536 + sum / 65536 < sum) by (nonlinear_arith)
                requires
                    sum >= 65536,
            ;
        }
        sum = sum % 65536 + sum / 65536;
    }
    let c: u16 = 65535 - (sum as u16);
    assert(c as int == checksum_of_sum(total));
    f[start + 10] = (c / 256) as u8;
    f[start + 11] = (c % 256) as u8;
    proof {
        assert(be16(f@, start + 10) == c as int);
        if nbytes >= 12 {
            lemma_word_sum_one_word(zeroed, f@, start as int, (nbytes / 2) as nat);
            assert(be16(zeroed, start + 10) == 0);
            lemma_checksum_verifies(total, word_sum(f@, start as int, (nbytes / 2) as nat));
        }
    }
}

} // verus!

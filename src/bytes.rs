//! Big-endian field reads from frame bytes.
use vstd::prelude::*;
use crate::types::InetAddr;

verus! {

/// The big-endian 16-bit value of bytes `i` and `i + 1`.
pub open spec fn be16(f: Seq<u8>, i: int) -> int {
    f[i] as int * 256 + f[i + 1] as int
}

/// The big-endian value of the `n` bytes starting at `start`.
pub open spec fn be_uint(f: Seq<u8>, start: int, n: nat) -> int
    decreases n,
{
    if n == 0 {
        0
    } else {
        be_uint(f, start, (n - 1) as nat) * 256 + f[start + n - 1] as int
    }
}

/// 256 to the power `n`.
pub open spec fn pow256(n: nat) -> int
    decreases n,
{
    if n == 0 {
        1
    } else {
        pow256((n - 1) as nat) * 256
    }
}

/// The IPv4 address held in the four bytes at `i`.
pub open spec fn ipv4_at(f: Seq<u8>, i: int) -> InetAddr {
    InetAddr::V4(be_uint(f, i, 4) as u32)
}

/// The IPv6 address held in the sixteen bytes at `i`.
pub open spec fn ipv6_at(f: Seq<u8>, i: int) -> InetAddr {
    InetAddr::V6(be_uint(f, i, 16) as u128)
}

pub proof fn lemma_be_uint_bounds(f: Seq<u8>, start: int, n: nat)
    ensures
        0 <= be_uint(f, start, n) < pow256(n),
    decreases n,
{
    if n > 0 {
        lemma_be_uint_bounds(f, start, (n - 1) as nat);
        let p = be_uint(f, start, (n - 1) as nat);
        let q = pow256((n - 1) as nat);
        let b = f[start + n - 1] as int;
        assert(0 <= p * 256 + b < q * 256) by (nonlinear_arith)
            requires
                0 <= p < q,
                0 <= b < 256,
        ;
    }
}

/// Reads a big-endian 16-bit field.
pub fn read_be16(f: &[u8], i: usize) -> (r: u16)
    requires
        i + 1 < f@.len(),
    ensures
        r as int == be16(f@, i as int),
{
    (f[i] as u16) * 256 + (f[i + 1] as u16)
}

/// Reads the big-endian value of `n` bytes, `n` at most 16.
pub fn read_be_uint(f: &[u8], start: usize, n: usize) -> (r: u128)
    requires
        n <= 16,
        start + n <= f@.len(),
    ensures
        r as int == be_uint(f@, start as int, n as nat),
{
    let len = f.len();
    let mut v: u128 = 0;
    let mut k: usize = 0;
    proof {
        lemma_pow256_values();
    }
    while k < n
        invariant
            k <= n <= 16,
            start + n <= f@.len(),
            len == f@.len(),
            v as int == be_uint(f@, start as int, k as nat),
            pow256(16) == 0x1_0000_0000_0000_0000_0000_0000_0000_0000,
        decreases n - k,
    {
        proof {
            lemma_be_uint_bounds(f@, start as int, (k + 1) as nat);
            lemma_pow256_monotone((k + 1) as nat, 16);
            assert(be_uint(f@, start as int, (k + 1) as nat) == v as int * 256 + f@[start + k] as int);
        }
        assert(start + k < start + n);
        let b = f[start + k];
        v = v * 256 + (b as u128);
        k = k + 1;
    }
    v
}

pub proof fn lemma_pow256_values()
    ensures
        pow256(2) == 0x1_0000,
        pow256(4) == 0x1_0000_0000,
        pow256(16) == 0x1_0000_0000_0000_0000_0000_0000_0000_0000,
{
    reveal_with_fuel(pow256, 17);
}

pub proof fn lemma_pow256_monotone(a: nat, b: nat)
    requires
        a <= b,
    ensures
        1 <= pow256(a) <= pow256(b),
    decreases b,
{
    if a < b {
        lemma_pow256_monotone(a, (b - 1) as nat);
    } else if b > 0 {
        lemma_pow256_monotone((b - 1) as nat, (b - 1) as nat);
    }
}

/// Reads the IPv4 address at `i`.
pub fn read_ipv4(f: &[u8], i: usize) -> (r: InetAddr)
    requires
        i + 4 <= f@.len(),
    ensures
        r == ipv4_at(f@, i as int),
{
    proof {
        lemma_be_uint_bounds(f@, i as int, 4);
        lemma_pow256_values();
    }
    let v = read_be_uint(f, i, 4);
    InetAddr::V4(v as u32)
}

/// Reads the IPv6 address at `i`.
pub fn read_ipv6(f: &[u8], i: usize) -> (r: InetAddr)
    requires
        i + 16 <= f@.len(),
    ensures
        r == ipv6_at(f@, i as int),
{
    proof {
        lemma_be_uint_bounds(f@, i as int, 16);
        lemma_pow256_values();
    }
    let v = read_be_uint(f, i, 16);
    InetAddr::V6(v)
}

/// Copies the bytes from `start` to the end.
pub fn copy_from(f: &[u8], start: usize) -> (r: Vec<u8>)
    requires
        start <= f@.len(),
    ensures
        r@ == f@.subrange(start as int, f@.len() as int),
{
    let mut r: Vec<u8> = Vec::new();
    let mut i: usize = start;
    while i < f.len()
        invariant
            start <= i <= f@.len(),
            r@ == f@.subrange(start as int, i as int),
        decreases f@.len() - i,
    {
        r.push(f[i]);
        i = i + 1;
        assert(r@ =~= f@.subrange(start as int, i as int));
    }
    r
}

} // verus!

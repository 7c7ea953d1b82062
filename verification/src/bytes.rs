//! Fixed-size byte strings: copying into and out of arrays, and the
//! little-endian form of a 64-bit integer.

use vstd::prelude::*;
use crate::field::{le_nat, lemma_le_nat_of_nat_to_le, lemma_nat_to_le_of_le_nat, nat_to_le, pow256};

verus! {

/// Writes `src` into `dst` starting at `at`, leaving the other bytes alone.
pub fn copy_into<const N: usize>(dst: &mut [u8; N], at: usize, src: &[u8])
    requires
        at + src@.len() <= N,
    ensures
        final(dst)@ == old(dst)@.take(at as int) + src@ + old(dst)@.skip(at + src@.len()),
{
    let ghost d0 = dst@;
    let mut i: usize = 0;
    while i < src.len()
        invariant
            at + src@.len() <= N,
            i <= src@.len(),
            dst@.len() == N,
            d0.len() == N,
            forall|k: int| 0 <= k < at ==> #[trigger] dst@[k] == d0[k],
            forall|k: int| at + src@.len() <= k < N ==> #[trigger] dst@[k] == d0[k],
            forall|k: int| at + i <= k < at + src@.len() ==> #[trigger] dst@[k] == d0[k],
            forall|k: int| 0 <= k < i ==> #[trigger] dst@[at + k] == src@[k],
        decreases src@.len() - i,
    {
        dst[at + i] = src[i];
        i = i + 1;
    }
    let ghost rhs = d0.take(at as int) + src@ + d0.skip(at + src@.len());
    assert forall|k: int| 0 <= k < N implies #[trigger] dst@[k] == rhs[k] by {
        if k < at {
        } else if k < at + src@.len() {
            assert(dst@[at + (k - at)] == src@[k - at]);
        } else {
        }
    }
    assert(dst@ =~= rhs);
}

/// The `N` bytes of `src` that start at `at`.
pub fn read_array<const N: usize>(src: &[u8], at: usize) -> (r: [u8; N])
    requires
        at + N <= src@.len(),
    ensures
        r@ == src@.subrange(at as int, at + N),
{
    let mut out = [0u8; N];
    let len = src.len();
    let mut i: usize = 0;
    while i < N
        invariant
            at + N <= src@.len(),
            len == src@.len(),
            i <= N,
            out@.len() == N,
            forall|k: int| 0 <= k < i ==> #[trigger] out@[k] == src@[at + k],
        decreases N - i,
    {
        out[i] = src[at + i];
        i = i + 1;
    }
    assert(out@ =~= src@.subrange(at as int, at + N));
    out
}

/// Whether two byte strings of the same length are equal.
pub fn bytes_eq(a: &[u8], b: &[u8]) -> (r: bool)
    ensures
        r == (a@ == b@),
{
    if a.len() != b.len() {
        return false;
    }
    let mut i: usize = 0;
    while i < a.len()
        invariant
            a@.len() == b@.len(),
            i <= a@.len(),
            forall|k: int| 0 <= k < i ==> a@[k] == b@[k],
        decreases a@.len() - i,
    {
        if a[i] != b[i] {
            return false;
        }
        i = i + 1;
    }
    assert(a@ =~= b@);
    true
}

/// The eight bytes of `v`, least significant first.
pub open spec fn u64_le_bytes(v: u64) -> Seq<u8> {
    nat_to_le(v as nat, 8)
}

/// The 64-bit integer whose eight bytes, least significant first, are `b`.
pub open spec fn u64_from_le_bytes(b: Seq<u8>) -> u64
    recommends
        b.len() == 8,
{
    le_nat(b) as u64
}

/// The eight bytes of `v`, as the shifts that compute them.
proof fn lemma_u64_le_bytes_shifts(v: u64)
    ensures
        u64_le_bytes(v) == seq![
            v as u8,
            (v >> 8u64) as u8,
            (v >> 16u64) as u8,
            (v >> 24u64) as u8,
            (v >> 32u64) as u8,
            (v >> 40u64) as u8,
            (v >> 48u64) as u8,
            (v >> 56u64) as u8,
        ],
{
    let q1: u64 = v >> 8u64;
    let q2: u64 = v >> 16u64;
    let q3: u64 = v >> 24u64;
    let q4: u64 = v >> 32u64;
    let q5: u64 = v >> 40u64;
    let q6: u64 = v >> 48u64;
    let q7: u64 = v >> 56u64;
    assert(q1 == v / 256 && q2 == q1 / 256 && q3 == q2 / 256 && q4 == q3 / 256 && q5 == q4 / 256
        && q6 == q5 / 256 && q7 == q6 / 256) by (bit_vector)
        requires
            q1 == v >> 8u64,
            q2 == v >> 16u64,
            q3 == v >> 24u64,
            q4 == v >> 32u64,
            q5 == v >> 40u64,
            q6 == v >> 48u64,
            q7 == v >> 56u64,
    ;
    assert(v as u8 == v % 256 && q1 as u8 == q1 % 256 && q2 as u8 == q2 % 256 && q3 as u8 == q3
        % 256 && q4 as u8 == q4 % 256 && q5 as u8 == q5 % 256 && q6 as u8 == q6 % 256 && q7 as u8
        == q7 % 256) by (bit_vector);
    reveal_with_fuel(nat_to_le, 9);
    assert(u64_le_bytes(v) =~= seq![
        v as u8,
        q1 as u8,
        q2 as u8,
        q3 as u8,
        q4 as u8,
        q5 as u8,
        q6 as u8,
        q7 as u8,
    ]);
}

/// The value of eight bytes, as the shifts that compute it.
proof fn lemma_le_nat_8_shifts(b: Seq<u8>)
    requires
        b.len() == 8,
    ensures
        le_nat(b) == (b[0] as u64) | ((b[1] as u64) << 8u64) | ((b[2] as u64) << 16u64) | ((
        b[3] as u64) << 24u64) | ((b[4] as u64) << 32u64) | ((b[5] as u64) << 40u64) | ((
        b[6] as u64) << 48u64) | ((b[7] as u64) << 56u64),
{
    let (b0, b1, b2, b3, b4, b5, b6, b7) = (b[0], b[1], b[2], b[3], b[4], b[5], b[6], b[7]);
    assert((b0 as u64) | ((b1 as u64) << 8u64) | ((b2 as u64) << 16u64) | ((b3 as u64) << 24u64)
        | ((b4 as u64) << 32u64) | ((b5 as u64) << 40u64) | ((b6 as u64) << 48u64) | ((
    b7 as u64) << 56u64) == b0 + 256 * (b1 + 256 * (b2 + 256 * (b3 + 256 * (b4 + 256 * (b5 + 256
        * (b6 + 256 * b7))))))) by (bit_vector);
    reveal_with_fuel(le_nat, 9);
    assert(b.drop_first().drop_first().drop_first().drop_first().drop_first().drop_first().drop_first().drop_first()
        =~= Seq::<u8>::empty());
}

/// Writes `v` little-endian.
pub fn u64_to_le_bytes(v: u64) -> (r: [u8; 8])
    ensures
        r@ == u64_le_bytes(v),
{
    let r = [
        v as u8,
        (v >> 8u64) as u8,
        (v >> 16u64) as u8,
        (v >> 24u64) as u8,
        (v >> 32u64) as u8,
        (v >> 40u64) as u8,
        (v >> 48u64) as u8,
        (v >> 56u64) as u8,
    ];
    proof {
        lemma_u64_le_bytes_shifts(v);
    }
    assert(r@ =~= u64_le_bytes(v));
    r
}

/// Reads a 64-bit integer written little-endian.
pub fn u64_from_le(b: [u8; 8]) -> (v: u64)
    ensures
        v == u64_from_le_bytes(b@),
{
    proof {
        lemma_le_nat_8_shifts(b@);
    }
    (b[0] as u64) | ((b[1] as u64) << 8u64) | ((b[2] as u64) << 16u64) | ((b[3] as u64) << 24u64)
        | ((b[4] as u64) << 32u64) | ((b[5] as u64) << 40u64) | ((b[6] as u64) << 48u64) | ((
    b[7] as u64) << 56u64)
}

/// Reading back the bytes of `v` gives `v`.
pub proof fn lemma_u64_le_roundtrip(v: u64)
    ensures
        u64_le_bytes(v).len() == 8,
        u64_from_le_bytes(u64_le_bytes(v)) == v,
{
    reveal_with_fuel(pow256, 9);
    lemma_le_nat_of_nat_to_le(v as nat, 8);
}

/// Every eight bytes are the little-endian form of the integer read from them.
pub proof fn lemma_u64_le_bytes_of_read(b: Seq<u8>)
    requires
        b.len() == 8,
    ensures
        u64_le_bytes(u64_from_le_bytes(b)) == b,
{
    lemma_le_nat_8_shifts(b);
    lemma_nat_to_le_of_le_nat(b);
}

} // verus!

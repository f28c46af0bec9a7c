//! Fixed-width unsigned integers as byte sequences, in either byte order.

use vstd::prelude::*;

verus! {

/// Byte order of multi-byte values in an emitted table.
#[derive(Clone, Copy, Debug, PartialEq, Eq, Structural)]
pub enum Endian {
    Little,
    Big,
}

/// `256` raised to `n`: the number of values that fit in `n` bytes.
pub open spec fn pow256(n: nat) -> nat
    decreases n,
{
    if n == 0 {
        1
    } else {
        256 * pow256((n - 1) as nat)
    }
}

/// The low `n` bytes of `v`, least significant first.
pub open spec fn le_bytes(v: nat, n: nat) -> Seq<u8>
    decreases n,
{
    if n == 0 {
        seq![]
    } else {
        seq![(v % 256) as u8] + le_bytes(v / 256, (n - 1) as nat)
    }
}

/// The low `n` bytes of `v`, most significant first.
pub open spec fn be_bytes(v: nat, n: nat) -> Seq<u8>
    decreases n,
{
    if n == 0 {
        seq![]
    } else {
        be_bytes(v / 256, (n - 1) as nat) + seq![(v % 256) as u8]
    }
}

/// The value of a byte sequence read least significant byte first.
pub open spec fn le_value(b: Seq<u8>) -> nat
    decreases b.len(),
{
    if b.len() == 0 {
        0
    } else {
        b[0] as nat + 256 * le_value(b.drop_first())
    }
}

/// The value of a byte sequence read most significant byte first.
pub open spec fn be_value(b: Seq<u8>) -> nat
    decreases b.len(),
{
    if b.len() == 0 {
        0
    } else {
        b.last() as nat + 256 * be_value(b.drop_last())
    }
}

/// The `n`-byte encoding of `v` in byte order `e`.
pub open spec fn uint_bytes(v: nat, n: nat, e: Endian) -> Seq<u8> {
    match e {
        Endian::Little => le_bytes(v, n),
        Endian::Big => be_bytes(v, n),
    }
}

/// The value that the bytes `b` encode in byte order `e`.
pub open spec fn uint_value(b: Seq<u8>, e: Endian) -> nat {
    match e {
        Endian::Little => le_value(b),
        Endian::Big => be_value(b),
    }
}

pub proof fn lemma_pow256_positive(n: nat)
    ensures
        pow256(n) > 0,
    decreases n,
{
    if n > 0 {
        lemma_pow256_positive((n - 1) as nat);
    }
}

pub proof fn lemma_pow256_values()
    ensures
        pow256(1) == 0x100,
        pow256(2) == 0x1_0000,
        pow256(3) == 0x100_0000,
        pow256(4) == 0x1_0000_0000,
        pow256(7) == 0x100_0000_0000_0000,
        pow256(8) == 0x1_0000_0000_0000_0000,
{
    reveal_with_fuel(pow256, 9);
}

pub proof fn lemma_uint_bytes_len(v: nat, n: nat, e: Endian)
    ensures
        uint_bytes(v, n, e).len() == n,
    decreases n,
{
    if n > 0 {
        lemma_uint_bytes_len(v / 256, (n - 1) as nat, e);
    }
}

/// Reading back `n` encoded bytes gives the value modulo `256^n`.
pub proof fn lemma_uint_round_trip(v: nat, n: nat, e: Endian)
    ensures
        uint_value(uint_bytes(v, n, e), e) == v % pow256(n),
    decreases n,
{
    if n == 0 {
        assert(v % 1 == 0);
    } else {
        let m = (n - 1) as nat;
        lemma_uint_round_trip(v / 256, m, e);
        lemma_pow256_positive(m);
        vstd::arithmetic::div_mod::lemma_mod_breakdown(v as int, 256, pow256(m) as int);
        match e {
            Endian::Little => {
                let s = le_bytes(v, n);
                assert(s.drop_first() =~= le_bytes(v / 256, m));
            },
            Endian::Big => {
                let s = be_bytes(v, n);
                assert(s.drop_last() =~= be_bytes(v / 256, m));
            },
        }
    }
}

/// The value of `n` bytes is below `256^n`.
pub proof fn lemma_uint_value_bound(b: Seq<u8>, e: Endian)
    ensures
        uint_value(b, e) < pow256(b.len()),
    decreases b.len(),
{
    if b.len() > 0 {
        match e {
            Endian::Little => lemma_uint_value_bound(b.drop_first(), e),
            Endian::Big => lemma_uint_value_bound(b.drop_last(), e),
        }
    }
}

/// Encodes the low `n` bytes of `v` in byte order `e`.
pub fn encode_uint(v: u64, n: usize, e: Endian) -> (r: Vec<u8>)
    requires
        n <= 8,
    ensures
        r@ == uint_bytes(v as nat, n as nat, e),
{
    let mut out: Vec<u8> = Vec::new();
    let mut cur: u64 = v;
    let mut i: usize = 0;
    match e {
        Endian::Little => {
            while i < n
                invariant
                    i <= n,
                    out@ + le_bytes(cur as nat, (n - i) as nat) == le_bytes(v as nat, n as nat),
                decreases n - i,
            {
                let ghost rest = le_bytes(cur as nat / 256, (n - i - 1) as nat);
                assert(le_bytes(cur as nat, (n - i) as nat) == seq![(cur as nat % 256) as u8] + rest);
                out.push((cur % 256) as u8);
                cur = cur / 256;
                i = i + 1;
            }
            assert(out@ =~= out@ + le_bytes(cur as nat, 0));
        },
        Endian::Big => {
            let mut k: usize = 0;
            while k < n
                invariant
                    k <= n,
                    out@.len() == k,
                    forall|j: int| 0 <= j < k ==> out@[j] == 0,
                decreases n - k,
            {
                out.push(0);
                k = k + 1;
            }
            while i < n
                invariant
                    i <= n,
                    out@.len() == n,
                    be_bytes(cur as nat, (n - i) as nat) + out@.subrange((n - i) as int, n as int)
                        == be_bytes(v as nat, n as nat),
                decreases n - i,
            {
                let ghost before = out@;
                let ghost head = be_bytes(cur as nat / 256, (n - i - 1) as nat);
                assert(be_bytes(cur as nat, (n - i) as nat) == head + seq![(cur as nat % 256) as u8]);
                out.set(n - i - 1, (cur % 256) as u8);
                assert(out@.subrange((n - i - 1) as int, n as int) =~= seq![(cur as nat % 256) as u8]
                    + before.subrange((n - i) as int, n as int));
                assert(head + out@.subrange((n - i - 1) as int, n as int) =~= head + seq![(cur as nat % 256) as u8]
                    + before.subrange((n - i) as int, n as int));
                cur = cur / 256;
                i = i + 1;
            }
            assert(out@.subrange(0, n as int) =~= out@);
            assert(be_bytes(cur as nat, 0) + out@ =~= out@);
        },
    }
    out
}

/// Reads the `n`-byte value at `pos` in byte order `e`.
pub fn decode_uint(b: &[u8], pos: usize, n: usize, e: Endian) -> (r: u64)
    requires
        n <= 8,
        pos + n <= b@.len(),
    ensures
        r as nat == uint_value(b@.subrange(pos as int, pos + n), e),
{
    proof {
        lemma_pow256_values();
    }
    let ghost s = b@.subrange(pos as int, pos + n);
    let len = b.len();
    let mut v: u64 = 0;
    match e {
        Endian::Little => {
            let mut k: usize = n;
            while k > 0
                invariant
                    k <= n,
                    n <= 8,
                    pos + n <= b@.len(),
                    pow256(7) == 0x100_0000_0000_0000,
                    len == b@.len(),
                    s == b@.subrange(pos as int, pos + n),
                    v as nat == le_value(s.subrange(k as int, n as int)),
                decreases k,
            {
                let ghost tail = s.subrange(k as int, n as int);
                proof {
                    lemma_uint_value_bound(tail, Endian::Little);
                    lemma_pow_monotone(tail.len(), 7);
                    assert(s.subrange(k - 1, n as int).drop_first() =~= tail);
                }
                v = (b[pos + k - 1] as u64) + 256 * v;
                k = k - 1;
            }
            assert(s.subrange(0, n as int) =~= s);
        },
        Endian::Big => {
            let mut k: usize = 0;
            while k < n
                invariant
                    k <= n,
                    n <= 8,
                    pos + n <= b@.len(),
                    pow256(7) == 0x100_0000_0000_0000,
                    len == b@.len(),
                    s == b@.subrange(pos as int, pos + n),
                    v as nat == be_value(s.subrange(0, k as int)),
                decreases n - k,
            {
                let ghost head = s.subrange(0, k as int);
                proof {
                    lemma_uint_value_bound(head, Endian::Big);
                    lemma_pow_monotone(head.len(), 7);
                    assert(s.subrange(0, k + 1).drop_last() =~= head);
                }
                v = 256 * v + (b[pos + k] as u64);
                k = k + 1;
            }
            assert(s.subrange(0, n as int) =~= s);
        },
    }
    v
}

proof fn lemma_pow_monotone(a: nat, b: nat)
    requires
        a <= b,
    ensures
        pow256(a) <= pow256(b),
    decreases b,
{
    if a < b {
        lemma_pow_monotone(a, (b - 1) as nat);
        lemma_pow256_positive((b - 1) as nat);
    }
}

} // verus!

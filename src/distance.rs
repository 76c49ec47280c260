//! Hamming distance between two fingerprints, counted in bits.
use vstd::prelude::*;

verus! {

/// Number of bits set in a byte.
pub open spec fn bits_set(b: u8) -> nat
    decreases b,
{
    if b == 0 {
        0
    } else {
        (b % 2) as nat + bits_set(b / 2)
    }
}

/// Number of bit positions in which two byte sequences differ. Bytes are
/// paired up by position; the longer sequence's surplus is not looked at.
pub open spec fn hamming(a: Seq<u8>, b: Seq<u8>) -> nat
    decreases a.len(),
{
    if a.len() == 0 || b.len() == 0 {
        0
    } else {
        bits_set(a[0] ^ b[0]) + hamming(a.drop_first(), b.drop_first())
    }
}

proof fn lemma_bits_set_small(b: u8, k: nat)
    requires
        b < vstd::arithmetic::power2::pow2(k),
    ensures
        bits_set(b) <= k,
    decreases b,
{
    if b != 0 {
        if k == 0 {
            vstd::arithmetic::power2::lemma2_to64();
        } else {
            vstd::arithmetic::power2::lemma_pow2_unfold(k);
            lemma_bits_set_small(b / 2, (k - 1) as nat);
        }
    }
}

/// A byte has no bit set exactly when it is zero.
pub proof fn lemma_bits_set_zero(b: u8)
    ensures
        bits_set(b) == 0 <==> b == 0,
    decreases b,
{
    if b != 0 {
        lemma_bits_set_zero(b / 2);
    }
}

/// Two bytes agree in every bit exactly when they are equal.
pub proof fn lemma_xor_zero(x: u8, y: u8)
    ensures
        (x ^ y == 0) <==> x == y,
{
    assert((x ^ y == 0) <==> x == y) by (bit_vector);
}

fn count_bits(b: u8) -> (r: u32)
    ensures
        r as nat == bits_set(b),
        r <= 8,
{
    let mut x: u8 = b;
    let mut c: u32 = 0;
    while x != 0
        invariant
            c as nat + bits_set(x) == bits_set(b),
            c as int + x as int <= b as int,
        decreases x,
    {
        c = c + (x % 2) as u32;
        x = x / 2;
    }
    proof {
        vstd::arithmetic::power2::lemma2_to64();
        lemma_bits_set_small(b, 8);
    }
    c
}

/// Number of bit positions in which `a` and `b` differ, pairing bytes by
/// position up to the shorter of the two.
pub fn distance(a: &[u8], b: &[u8]) -> (r: u32)
    requires
        a@.len() <= u32::MAX / 8,
    ensures
        r as nat == hamming(a@, b@),
{
    let n: usize = if a.len() < b.len() { a.len() } else { b.len() };
    let mut i: usize = n;
    let mut total: u32 = 0;
    // Count from the back so that the remaining prefix is what is left to add.
    while i > 0
        invariant
            n <= a@.len(),
            n <= b@.len(),
            n == a@.len() || n == b@.len(),
            i <= n,
            a@.len() <= u32::MAX / 8,
            total as nat + hamming(a@.subrange(0, i as int), b@.subrange(0, i as int)) == hamming(
                a@.subrange(0, n as int),
                b@.subrange(0, n as int),
            ),
            total as nat <= 8 * (n - i),
        decreases i,
    {
        i = i - 1;
        let c = count_bits(a[i] ^ b[i]);
        proof {
            lemma_hamming_snoc(a@.subrange(0, i as int + 1), b@.subrange(0, i as int + 1));
            assert(a@.subrange(0, i as int + 1).drop_last() =~= a@.subrange(0, i as int));
            assert(b@.subrange(0, i as int + 1).drop_last() =~= b@.subrange(0, i as int));
        }
        total = total + c;
    }
    proof {
        lemma_hamming_prefix(a@, b@);
        assert(a@.subrange(0, 0) =~= Seq::<u8>::empty());
    }
    total
}

/// The distance only looks at the first `min(|a|, |b|)` bytes of each side.
proof fn lemma_hamming_prefix(a: Seq<u8>, b: Seq<u8>)
    ensures
        ({
            let n = if a.len() < b.len() { a.len() } else { b.len() };
            hamming(a, b) == hamming(a.subrange(0, n as int), b.subrange(0, n as int))
        }),
    decreases a.len(),
{
    let n = if a.len() < b.len() { a.len() } else { b.len() };
    if a.len() != 0 && b.len() != 0 {
        lemma_hamming_prefix(a.drop_first(), b.drop_first());
        assert(a.subrange(0, n as int).drop_first() =~= a.drop_first().subrange(0, n - 1));
        assert(b.subrange(0, n as int).drop_first() =~= b.drop_first().subrange(0, n - 1));
    }
}

/// For two sequences of one length, the distance is that of the sequences
/// without their last bytes plus the bits in which the last bytes differ.
proof fn lemma_hamming_snoc(a: Seq<u8>, b: Seq<u8>)
    requires
        a.len() == b.len(),
        a.len() > 0,
    ensures
        hamming(a, b) == hamming(a.drop_last(), b.drop_last()) + bits_set(
            a.last() ^ b.last(),
        ),
    decreases a.len(),
{
    if a.len() > 1 {
        lemma_hamming_snoc(a.drop_first(), b.drop_first());
        assert(a.drop_first().drop_last() =~= a.drop_last().drop_first());
        assert(b.drop_first().drop_last() =~= b.drop_last().drop_first());
        assert(a.drop_last()[0] == a[0]);
        assert(b.drop_last()[0] == b[0]);
        assert(a.drop_first().last() == a.last());
        assert(b.drop_first().last() == b.last());
    } else {
        assert(a.drop_first().len() == 0);
        assert(hamming(a.drop_first(), b.drop_first()) == 0);
        assert(a.drop_last().len() == 0);
    }
}

/// A fingerprint is at distance zero from itself.
pub proof fn lemma_distance_self(a: Seq<u8>)
    ensures
        hamming(a, a) == 0,
    decreases a.len(),
{
    if a.len() > 0 {
        lemma_xor_zero(a[0], a[0]);
        lemma_distance_self(a.drop_first());
    }
}

/// Two fingerprints of one length are at distance zero exactly when they are
/// equal: any differing bit counts.
pub proof fn lemma_distance_zero_iff_equal(a: Seq<u8>, b: Seq<u8>)
    requires
        a.len() == b.len(),
    ensures
        hamming(a, b) == 0 <==> a == b,
    decreases a.len(),
{
    if a.len() == 0 {
        assert(a =~= b);
    } else {
        lemma_xor_zero(a[0], b[0]);
        lemma_bits_set_zero(a[0] ^ b[0]);
        lemma_distance_zero_iff_equal(a.drop_first(), b.drop_first());
        if a[0] == b[0] && a.drop_first() == b.drop_first() {
            assert forall|i: int| 0 <= i < a.len() implies a[i] == b[i] by {
                if i > 0 {
                    assert(a[i] == a.drop_first()[i - 1]);
                    assert(b[i] == b.drop_first()[i - 1]);
                }
            }
            assert(a =~= b);
        }
    }
}

} // verus!

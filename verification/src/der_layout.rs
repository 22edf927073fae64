use vstd::prelude::*;

verus! {

/// The two big-endian bytes of a `u16`.
pub open spec fn be2(x: u16) -> Seq<u8> {
    seq![(x >> 8) as u8, x as u8]
}

/// The eight big-endian bytes of a `u64`.
pub open spec fn be8(x: u64) -> Seq<u8> {
    seq![
        (x >> 56) as u8,
        (x >> 48) as u8,
        (x >> 40) as u8,
        (x >> 32) as u8,
        (x >> 24) as u8,
        (x >> 16) as u8,
        (x >> 8) as u8,
        x as u8,
    ]
}

/// The minimal big-endian byte representation of an unsigned value: no
/// leading zero bytes, and a single zero byte for the value zero.
pub open spec fn min_be_bytes(x: nat) -> Seq<u8>
    decreases x,
{
    if x < 0x100 {
        seq![x as u8]
    } else {
        min_be_bytes(x / 0x100) + seq![(x % 0x100) as u8]
    }
}

/// The content octets of a DER INTEGER holding an unsigned value: the minimal
/// big-endian bytes, with one leading zero byte where the top bit would
/// otherwise read as a sign bit.
pub open spec fn der_uint_content(x: nat) -> Seq<u8> {
    if min_be_bytes(x)[0] >= 0x80 {
        seq![0u8] + min_be_bytes(x)
    } else {
        min_be_bytes(x)
    }
}

/// The DER length octets for a content of `n` bytes (definite form, stated
/// for contents under 65536 bytes).
pub open spec fn der_len(n: nat) -> Seq<u8> {
    if n < 0x80 {
        seq![n as u8]
    } else if n < 0x100 {
        seq![0x81u8, n as u8]
    } else {
        seq![0x82u8, (n / 0x100) as u8, (n % 0x100) as u8]
    }
}

/// A complete DER value: tag octet, length octets, then the content octets.
pub open spec fn der_tlv(tag: u8, content: Seq<u8>) -> Seq<u8> {
    seq![tag] + der_len(content.len() as nat) + content
}

/// The DER encoding of an unsigned INTEGER (tag `0x02`).
pub open spec fn der_uint(x: nat) -> Seq<u8> {
    der_tlv(0x02, der_uint_content(x))
}

/// The DER encoding of a BIT STRING (tag `0x03`): the count of unused
/// low-order bits in the final octet, then the raw octets.
pub open spec fn der_bit_string(unused_bits: u8, octets: Seq<u8>) -> Seq<u8> {
    der_tlv(0x03, seq![unused_bits] + octets)
}

/// 256 to the power `n`: the number of values a string of `n` bytes can take.
pub open spec fn pow256(n: nat) -> nat
    decreases n,
{
    if n == 0 {
        1
    } else {
        0x100 * pow256((n - 1) as nat)
    }
}

/// A value below `pow256(n)` needs at most `n` bytes.
pub proof fn lemma_min_be_bytes_len(x: nat, n: nat)
    requires
        1 <= n,
        x < pow256(n),
    ensures
        1 <= min_be_bytes(x).len() <= n,
    decreases n,
{
    if x < 0x100 {
    } else {
        assert(pow256(n) == 0x100 * pow256((n - 1) as nat));
        assert(x / 0x100 < pow256((n - 1) as nat)) by (nonlinear_arith)
            requires
                x < 0x100 * pow256((n - 1) as nat),
        ;
        assert(n >= 2) by {
            if n == 1 {
                assert(pow256(1) == 0x100 * pow256(0));
                assert(pow256(0) == 1);
            }
        }
        lemma_min_be_bytes_len(x / 0x100, (n - 1) as nat);
    }
}

/// The powers of 256 that bound the integer fields of the projection.
pub proof fn lemma_pow256_values()
    ensures
        pow256(1) == 0x100,
        pow256(8) == 0x1_0000_0000_0000_0000,
{
    assert(pow256(0) == 1);
    assert(pow256(1) == 0x100);
    assert(pow256(2) == 0x1_0000);
    assert(pow256(3) == 0x100_0000);
    assert(pow256(4) == 0x1_0000_0000);
    assert(pow256(5) == 0x100_0000_0000);
    assert(pow256(6) == 0x1_0000_0000_0000);
    assert(pow256(7) == 0x100_0000_0000_0000);
    assert(pow256(8) == 0x1_0000_0000_0000_0000);
}

/// The DER INTEGER encoding of a `u64` takes at most 11 octets in all.
pub proof fn lemma_der_uint_u64_len(x: u64)
    ensures
        der_uint_content(x as nat).len() <= 9,
        der_uint(x as nat).len() == 2 + der_uint_content(x as nat).len(),
        1 <= der_uint_content(x as nat).len(),
{
    lemma_pow256_values();
    lemma_min_be_bytes_len(x as nat, 8);
}

/// The DER INTEGER encoding of a `u8` takes at most 4 octets in all.
pub proof fn lemma_der_uint_u8_len(x: u8)
    ensures
        der_uint_content(x as nat).len() <= 2,
        der_uint(x as nat).len() == 2 + der_uint_content(x as nat).len(),
        1 <= der_uint_content(x as nat).len(),
{
    lemma_pow256_values();
    lemma_min_be_bytes_len(x as nat, 1);
}

} // verus!

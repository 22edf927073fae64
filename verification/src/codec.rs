use vstd::prelude::*;

verus! {

/// The 48-bit millisecond timestamp: bits 80..=127 of a packed UUIDv7.
pub open spec fn spec_unix_ts_ms(bits: u128) -> u64 {
    (bits >> 80) as u64
}

/// The 4-bit version field: bits 76..=79 of a packed UUIDv7.
pub open spec fn spec_version(bits: u128) -> u8 {
    ((bits >> 76) & 0x0F) as u8
}

/// The 12-bit `rand_a` field: bits 64..=75 of a packed UUIDv7.
pub open spec fn spec_rand_a(bits: u128) -> u16 {
    ((bits >> 64) & 0x0FFF) as u16
}

/// The 2-bit variant field: bits 62..=63 of a packed UUIDv7.
pub open spec fn spec_variant(bits: u128) -> u8 {
    ((bits >> 62) & 0x03) as u8
}

/// The 62-bit `rand_b` field: bits 0..=61 of a packed UUIDv7.
pub open spec fn spec_rand_b(bits: u128) -> u64 {
    (bits & 0x3FFF_FFFF_FFFF_FFFF) as u64
}

/// The packed UUIDv7 layout as a function of the seeds: the supplied
/// randomness with the timestamp, version and variant fields overwritten
/// in place.
pub open spec fn spec_pack(unix_ts_ms: u64, random_bytes: u128) -> u128 {
    (((random_bytes & 0x0000_0000_0000_FFFF_FFFF_FFFF_FFFF_FFFF)
        | ((unix_ts_ms as u128) << 80))
        & 0xFFFF_FFFF_FFFF_0FFF_FFFF_FFFF_FFFF_FFFF
        | (7u128 << 76))
        & 0xFFFF_FFFF_FFFF_FFFF_3FFF_FFFF_FFFF_FFFF
        | (2u128 << 62)
}

/// The seeds for generating a UUIDv7: a Unix timestamp in milliseconds and a
/// 128-bit source of randomness.
#[derive(Debug, PartialEq, Eq, Structural)]
pub struct UuidV7Seeds {
    /// 48-bit Unix timestamp in milliseconds.
    pub unix_ts_ms: u64,
    /// A 128-bit value, typically from a UUIDv4 or other random source,
    /// used to provide random data for the UUIDv7.
    pub random_bytes: u128,
}

impl UuidV7Seeds {
    /// Packs the seeds into the canonical UUIDv7 bit layout: the top 48 bits
    /// carry the timestamp, bits 76..=79 the version (7), bits 62..=63 the
    /// variant (2), and all other bits keep the supplied randomness.
    ///
    /// A timestamp wider than 48 bits is silently truncated by the shift.
    pub fn to_u128(&self) -> (r: u128)
        ensures
            r == spec_pack(self.unix_ts_ms, self.random_bytes),
            spec_unix_ts_ms(r) == self.unix_ts_ms & 0xFFFF_FFFF_FFFF,
            spec_version(r) == 7,
            spec_variant(r) == 2,
            spec_rand_a(r) == spec_rand_a(self.random_bytes),
            spec_rand_b(r) == spec_rand_b(self.random_bytes),
    {
        proof {
            lemma_pack_unpack_roundtrip(self.unix_ts_ms, self.random_bytes);
        }
        let mut uuid = self.random_bytes;

        uuid &= 0x0000_0000_0000_FFFF_FFFF_FFFF_FFFF_FFFF;
        uuid |= (self.unix_ts_ms as u128) << 80;

        uuid &= 0xFFFF_FFFF_FFFF_0FFF_FFFF_FFFF_FFFF_FFFF;
        uuid |= 7u128 << 76;

        uuid &= 0xFFFF_FFFF_FFFF_FFFF_3FFF_FFFF_FFFF_FFFF;
        uuid |= 2u128 << 62;

        uuid
    }
}

impl From<UuidV7Seeds> for u128 {
    /// Converts the seeds into their packed `u128` UUID representation.
    fn from(seeds: UuidV7Seeds) -> (r: u128)
        ensures
            r == spec_pack(seeds.unix_ts_ms, seeds.random_bytes),
    {
        seeds.to_u128()
    }
}

impl vstd::std_specs::convert::FromSpecImpl<UuidV7Seeds> for u128 {
    open spec fn obeys_from_spec() -> bool {
        true
    }

    open spec fn from_spec(seeds: UuidV7Seeds) -> u128 {
        spec_pack(seeds.unix_ts_ms, seeds.random_bytes)
    }
}

/// Wraps a `u128` value and provides methods to extract UUIDv7 fields
/// without validation, so that malformed or foreign UUIDs can still be
/// inspected.
#[derive(Debug, Clone, Copy, PartialEq, Eq, Structural)]
pub struct UnverifiedUuidV7(pub u128);

impl UnverifiedUuidV7 {
    /// Extracts the 48-bit Unix timestamp in milliseconds.
    pub fn unix_ts_ms(&self) -> (r: u64)
        ensures
            r == spec_unix_ts_ms(self.0),
    {
        (self.0 >> 80) as u64
    }

    /// Extracts the 4-bit version field.
    pub fn version(&self) -> (r: u8)
        ensures
            r == spec_version(self.0),
    {
        ((self.0 >> 76) & 0x0F) as u8
    }

    /// Extracts the 12-bit `rand_a` part.
    pub fn rand_a(&self) -> (r: u16)
        ensures
            r == spec_rand_a(self.0),
    {
        ((self.0 >> 64) & 0x0FFF) as u16
    }

    /// Extracts the 2-bit variant field.
    pub fn variant(&self) -> (r: u8)
        ensures
            r == spec_variant(self.0),
    {
        ((self.0 >> 62) & 0x03) as u8
    }

    /// Extracts the 62-bit `rand_b` part.
    pub fn rand_b(&self) -> (r: u64)
        ensures
            r == spec_rand_b(self.0),
    {
        (self.0 & 0x3FFF_FFFF_FFFF_FFFF) as u64
    }
}

/// Round trip of packing and unpacking: for every timestamp `t` and random
/// seed `r`, the packed value carries the low 48 bits of `t` in its top 48
/// bits (all of `t`, when `t` fits 48 bits), version 7, variant 2, and the
/// `rand_a` / `rand_b` bits of `r` unchanged.
pub proof fn lemma_pack_unpack_roundtrip(t: u64, r: u128)
    ensures
        spec_unix_ts_ms(spec_pack(t, r)) == t & 0xFFFF_FFFF_FFFF,
        t < 0x1_0000_0000_0000 ==> spec_unix_ts_ms(spec_pack(t, r)) == t,
        spec_version(spec_pack(t, r)) == 7,
        spec_variant(spec_pack(t, r)) == 2,
        spec_rand_a(spec_pack(t, r)) == spec_rand_a(r),
        spec_rand_b(spec_pack(t, r)) == spec_rand_b(r),
{
    assert(spec_unix_ts_ms(spec_pack(t, r)) == t & 0xFFFF_FFFF_FFFF) by (bit_vector);
    assert(t < 0x1_0000_0000_0000 ==> t & 0xFFFF_FFFF_FFFF == t) by (bit_vector);
    assert(spec_version(spec_pack(t, r)) == 7) by (bit_vector);
    assert(spec_variant(spec_pack(t, r)) == 2) by (bit_vector);
    assert(spec_rand_a(spec_pack(t, r)) == spec_rand_a(r)) by (bit_vector);
    assert(spec_rand_b(spec_pack(t, r)) == spec_rand_b(r)) by (bit_vector);
}

/// Each extracted field fits its declared bit width, whatever the input.
pub proof fn lemma_unpack_field_widths(bits: u128)
    by (bit_vector)
    ensures
        spec_unix_ts_ms(bits) < 0x1_0000_0000_0000,
        spec_version(bits) < 0x10,
        spec_rand_a(bits) < 0x1000,
        spec_variant(bits) < 4,
        spec_rand_b(bits) < 0x4000_0000_0000_0000,
{
}

} // verus!

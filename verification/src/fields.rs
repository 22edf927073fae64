use vstd::prelude::*;

use crate::codec::spec_rand_a;
use crate::codec::spec_rand_b;
use crate::codec::spec_unix_ts_ms;
use crate::codec::spec_variant;
use crate::codec::spec_version;
use crate::codec::UnverifiedUuidV7;

verus! {

/// The raw, parsed components of a UUIDv7: a structured view of its
/// constituent parts, as extracted from a `u128` value. It carries no
/// validity invariant of its own.
#[derive(Debug, Clone, Copy, PartialEq, Eq, Structural)]
pub struct RawUuidV7 {
    /// The 48-bit Unix timestamp in milliseconds.
    pub unix_ts_ms: u64,
    /// The 4-bit version field.
    pub version: u8,
    /// The 12-bit `rand_a` part.
    pub rand_a: u16,
    /// The 62-bit `rand_b` part.
    pub rand_b: u64,
    /// The 2-bit variant field.
    pub variant: u8,
}

/// The named-field view of a 128-bit value: each field read at its fixed bit
/// offset, with no validation.
pub open spec fn spec_raw_of(bits: u128) -> RawUuidV7 {
    RawUuidV7 {
        unix_ts_ms: spec_unix_ts_ms(bits),
        version: spec_version(bits),
        rand_a: spec_rand_a(bits),
        rand_b: spec_rand_b(bits),
        variant: spec_variant(bits),
    }
}

impl RawUuidV7 {
    /// Converts an [`UnverifiedUuidV7`] into a [`RawUuidV7`] by extracting
    /// each of its components once.
    pub fn from(unverified_uuid: UnverifiedUuidV7) -> (r: RawUuidV7)
        ensures
            r == spec_raw_of(unverified_uuid.0),
    {
        RawUuidV7 {
            unix_ts_ms: unverified_uuid.unix_ts_ms(),
            version: unverified_uuid.version(),
            rand_a: unverified_uuid.rand_a(),
            rand_b: unverified_uuid.rand_b(),
            variant: unverified_uuid.variant(),
        }
    }
}

} // verus!

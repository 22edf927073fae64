use vstd::prelude::*;

use crate::codec::spec_variant;
use crate::codec::spec_version;
use crate::codec::UnverifiedUuidV7;

verus! {

/// Error type for UUIDv7 validation failures.
#[derive(Debug, PartialEq, Eq, Structural)]
pub enum UuidV7Error {
    /// The version bits are not `0b0111` (7); holds the actual version field.
    InvalidVersion(u8),
    /// The variant bits are not `0b10` (2); holds the actual variant field.
    InvalidVariant(u8),
}

/// A validated UUIDv7: a 128-bit value whose version field is 7 and whose
/// variant field is 2. The only way to construct one is the fallible
/// conversion from [`UnverifiedUuidV7`].
#[derive(Debug, Clone, Copy, PartialEq, Eq, Structural)]
pub struct UuidV7(u128);

impl UuidV7 {
    /// The wrapped 128-bit value.
    pub closed spec fn spec_bits(self) -> u128 {
        self.0
    }

    /// The validity guarantee every constructed value carries: version 7 and
    /// variant 2.
    pub open spec fn wf(self) -> bool {
        spec_version(self.spec_bits()) == 7 && spec_variant(self.spec_bits()) == 2
    }

    /// Returns the inner `u128` value of the validated UUIDv7.
    pub fn as_u128(&self) -> (r: u128)
        ensures
            r == self.spec_bits(),
    {
        self.0
    }

    /// Validates an unverified value: succeeds exactly when the version field
    /// is 7 and the variant field is 2, returning a wrapper around the
    /// bit-identical input. A wrong version is reported before a wrong
    /// variant; the two are never aggregated.
    pub fn try_from(unverified_uuid: UnverifiedUuidV7) -> (r: Result<UuidV7, UuidV7Error>)
        ensures
            r is Ok <==> (spec_version(unverified_uuid.0) == 7 && spec_variant(unverified_uuid.0)
                == 2),
            r matches Ok(u) ==> u.spec_bits() == unverified_uuid.0 && u.wf(),
            spec_version(unverified_uuid.0) != 7 ==> r == Err::<UuidV7, UuidV7Error>(
                UuidV7Error::InvalidVersion(spec_version(unverified_uuid.0)),
            ),
            spec_version(unverified_uuid.0) == 7 && spec_variant(unverified_uuid.0) != 2 ==> r
                == Err::<UuidV7, UuidV7Error>(
                UuidV7Error::InvalidVariant(spec_variant(unverified_uuid.0)),
            ),
    {
        let version = unverified_uuid.version();
        if version != 7 {
            return Err(UuidV7Error::InvalidVersion(version));
        }
        let variant = unverified_uuid.variant();
        if variant != 2 {
            return Err(UuidV7Error::InvalidVariant(variant));
        }
        Ok(UuidV7(unverified_uuid.0))
    }
}

} // verus!

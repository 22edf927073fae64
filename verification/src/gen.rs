use vstd::prelude::*;

use crate::asn1::bit_string_octets;
use crate::asn1::RawUuidV7Asn1;
use crate::codec::lemma_unpack_field_widths;
use crate::codec::spec_rand_a;
use crate::codec::spec_unix_ts_ms;
use crate::codec::spec_variant;
use crate::codec::spec_version;

verus! {

#[verifier::external_type_specification]
#[verifier::external_body]
pub struct ExTimestamp(uuid::Timestamp);

/// The millisecond value a [`uuid::Timestamp`] denotes: its seconds scaled to
/// milliseconds plus its nanosecond remainder, saturating in 64 bits. It is a
/// function of the timestamp's own fields alone.
pub uninterp spec fn timestamp_millis(ts: uuid::Timestamp) -> u64;

/// Relies on uuid::Uuid::new_v7: it builds the value from the timestamp, a
/// counter and fresh randomness; the top 48 bits carry the low 48 bits of
/// the timestamp's millisecond value, the version nibble is always 7 and the
/// variant bits are always `10`.
#[verifier::external_body]
fn uuid_new_v7_bits(now: uuid::Timestamp) -> (r: u128)
    ensures
        spec_unix_ts_ms(r) == timestamp_millis(now) & 0xFFFF_FFFF_FFFF,
        spec_version(r) == 7,
        spec_variant(r) == 2,
{
    uuid::Uuid::new_v7(now).as_u128()
}

/// Relies on uuid::Uuid::now_v7: it reads the system clock, and always
/// stamps the version nibble with 7 and the variant bits with `10`.
#[verifier::external_body]
fn uuid_now_v7_bits() -> (r: u128)
    ensures
        spec_version(r) == 7,
        spec_variant(r) == 2,
{
    uuid::Uuid::now_v7().as_u128()
}

/// Generates a fresh UUIDv7 from the supplied timestamp and projects it into
/// the ASN.1 record: the timestamp field carries the supplied milliseconds
/// (their low 48 bits), the version integer is 7, and the variant bit string
/// holds the two bits `10` as the byte 0x02.
pub fn new_raw_uuid_v7_asn1(now: uuid::Timestamp) -> (r: Result<RawUuidV7Asn1, std::io::Error>)
    ensures
        r is Ok,
        r matches Ok(a) ==> a.wf() && a.version == 7 && bit_string_octets(a.variant) == seq![2u8],
        r matches Ok(a) ==> a.unix_ts_ms == timestamp_millis(now) & 0xFFFF_FFFF_FFFF,
        r matches Ok(a) ==> a.unix_ts_ms < 0x1_0000_0000_0000 && bit_string_octets(a.rand_a)[0]
            < 0x10,
{
    let bits = uuid_new_v7_bits(now);
    match RawUuidV7Asn1::try_from_u128(bits) {
        Ok(a) => {
            proof {
                lemma_unpack_field_widths(bits);
                let ra = spec_rand_a(bits);
                assert(ra < 0x1000 ==> ((ra >> 8) as u8) < 0x10) by (bit_vector);
                assert(bit_string_octets(a.variant) =~= seq![2u8]);
            }
            Ok(a)
        },
        Err(e) => Err(crate::asn1::io_error_from_der(e)),
    }
}

/// Generates a fresh UUIDv7 from the system clock and projects it into the
/// ASN.1 record: the version integer is 7 and the variant bit string holds
/// the two bits `10` as the byte 0x02.
pub fn new_raw_uuid_v7_asn1_now() -> (r: Result<RawUuidV7Asn1, std::io::Error>)
    ensures
        r is Ok,
        r matches Ok(a) ==> a.wf() && a.version == 7 && bit_string_octets(a.variant) == seq![2u8],
        r matches Ok(a) ==> a.unix_ts_ms < 0x1_0000_0000_0000 && bit_string_octets(a.rand_a)[0]
            < 0x10,
{
    let bits = uuid_now_v7_bits();
    match RawUuidV7Asn1::try_from_u128(bits) {
        Ok(a) => {
            proof {
                lemma_unpack_field_widths(bits);
                let ra = spec_rand_a(bits);
                assert(ra < 0x1000 ==> ((ra >> 8) as u8) < 0x10) by (bit_vector);
                assert(bit_string_octets(a.variant) =~= seq![2u8]);
            }
            Ok(a)
        },
        Err(e) => Err(crate::asn1::io_error_from_der(e)),
    }
}

} // verus!

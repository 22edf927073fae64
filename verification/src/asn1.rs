use vstd::prelude::*;

use crate::codec::UnverifiedUuidV7;
use crate::der_layout::be2;
use crate::der_layout::be8;
use crate::der_layout::der_bit_string;
use crate::der_layout::der_tlv;
use crate::der_layout::der_uint;
use crate::der_layout::lemma_der_uint_u64_len;
use crate::der_layout::lemma_der_uint_u8_len;
use crate::fields::spec_raw_of;
use crate::fields::RawUuidV7;

verus! {

#[verifier::external_type_specification]
#[verifier::external_body]
pub struct ExBitString(der::asn1::BitString);

#[verifier::external_type_specification]
#[verifier::external_body]
pub struct ExDerError(der::Error);

#[verifier::external_type_specification]
#[verifier::external_body]
pub struct ExIoError(std::io::Error);

/// The byte buffer a [`der::asn1::BitString`] was made with and stores.
pub uninterp spec fn bit_string_octets(bs: der::asn1::BitString) -> Seq<u8>;

/// The count of unused low-order bits a [`der::asn1::BitString`] was made
/// with and stores.
pub uninterp spec fn bit_string_unused(bs: der::asn1::BitString) -> u8;

/// Relies on der's derived `Clone` for `BitString`, which copies the stored
/// bytes and unused-bit count unchanged.
pub assume_specification[ <der::asn1::BitString as Clone>::clone ](
    bs: &der::asn1::BitString,
) -> (r: der::asn1::BitString)
    ensures
        bit_string_octets(r) == bit_string_octets(*bs),
        bit_string_unused(r) == bit_string_unused(*bs),
;

/// Relies on der::asn1::BitString::new: it succeeds exactly when the
/// unused-bit count is at most 7 and is zero whenever the buffer is empty,
/// and it stores the bytes and the count unchanged.
#[verifier::external_body]
fn bit_string_new(unused_bits: u8, bytes: &[u8]) -> (r: Result<
    der::asn1::BitString,
    der::Error,
>)
    requires
        bytes@.len() < 0xFFFF,
    ensures
        r is Ok <==> (unused_bits <= 7 && (unused_bits == 0 || bytes@.len() > 0)),
        r matches Ok(bs) ==> bit_string_unused(bs) == unused_bits && bit_string_octets(bs)
            == bytes@,
{
    der::asn1::BitString::new(unused_bits, bytes)
}

/// Relies on der's `Encode` impl for `BitString`: the DER image is the `0x03`
/// tag, the definite length, the unused-bit count, then the stored bytes. The
/// encoder cannot fail on a buffer this short: the length arithmetic stays
/// far below its overflow bound and the output buffer is sized exactly.
#[verifier::external_body]
fn bit_string_to_der(bs: &der::asn1::BitString) -> (r: Result<Vec<u8>, der::Error>)
    requires
        bit_string_octets(*bs).len() < 0xFFFF,
    ensures
        r is Ok,
        r matches Ok(v) ==> v@ == der_bit_string(bit_string_unused(*bs), bit_string_octets(*bs)),
{
    der::Encode::to_der(bs)
}

/// Relies on der's `Encode` impl for `u64`: the DER image is an INTEGER whose
/// content is the minimal big-endian bytes, with one leading zero byte where
/// the first bit would otherwise read as a sign bit. Encoding an integer this
/// small cannot fail.
#[verifier::external_body]
fn u64_to_der(x: u64) -> (r: Result<Vec<u8>, der::Error>)
    ensures
        r is Ok,
        r matches Ok(v) ==> v@ == der_uint(x as nat),
{
    der::Encode::to_der(&x)
}

/// Relies on der's `Encode` impl for `u8`, which encodes an INTEGER exactly
/// as the impl for `u64` does, and cannot fail either.
#[verifier::external_body]
fn u8_to_der(x: u8) -> (r: Result<Vec<u8>, der::Error>)
    ensures
        r is Ok,
        r matches Ok(v) ==> v@ == der_uint(x as nat),
{
    der::Encode::to_der(&x)
}

/// Relies on std::io::Error::other: wraps the printed form of a DER error as
/// an I/O-domain error.
#[verifier::external_body]
pub(crate) fn io_error_from_der(e: der::Error) -> (r: std::io::Error) {
    std::io::Error::other(format!("{}", e))
}

/// The ASN.1 structure of a raw UUIDv7: ordinary integers for the timestamp
/// and version, bit strings for the three sub-byte-width fields.
#[derive(Debug, Clone, PartialEq, Eq)]
pub struct RawUuidV7Asn1 {
    /// The 48-bit Unix timestamp in milliseconds.
    pub unix_ts_ms: u64,
    /// The 4-bit version field.
    pub version: u8,
    /// The 12-bit `rand_a` part as an ASN.1 bit string.
    pub rand_a: der::asn1::BitString,
    /// The 2-bit variant field as an ASN.1 bit string.
    pub variant: der::asn1::BitString,
    /// The 62-bit `rand_b` part as an ASN.1 bit string.
    pub rand_b: der::asn1::BitString,
}

/// The record `a` is the projection of the raw field record `raw`: integer
/// fields copied, each bit string holding the field's big-endian bytes with
/// the fixed unused-bit count (4 for rand_a, 6 for variant, 2 for rand_b).
pub open spec fn is_projection_of(a: RawUuidV7Asn1, raw: RawUuidV7) -> bool {
    &&& a.unix_ts_ms == raw.unix_ts_ms
    &&& a.version == raw.version
    &&& bit_string_unused(a.rand_a) == 4
    &&& bit_string_octets(a.rand_a) == be2(raw.rand_a)
    &&& bit_string_unused(a.variant) == 6
    &&& bit_string_octets(a.variant) == seq![raw.variant]
    &&& bit_string_unused(a.rand_b) == 2
    &&& bit_string_octets(a.rand_b) == be8(raw.rand_b)
}

/// The DER image of the projection of a raw field record: a SEQUENCE of the
/// timestamp INTEGER, the version INTEGER, and the three BIT STRINGs, in
/// that fixed order.
pub open spec fn spec_der_of_raw(raw: RawUuidV7) -> Seq<u8> {
    der_tlv(
        0x30,
        der_uint(raw.unix_ts_ms as nat) + der_uint(raw.version as nat) + der_bit_string(
            4,
            be2(raw.rand_a),
        ) + der_bit_string(6, seq![raw.variant]) + der_bit_string(2, be8(raw.rand_b)),
    )
}

impl RawUuidV7Asn1 {
    /// The canonical wire shape: buffers of 2, 1 and 8 octets with 4, 6 and 2
    /// unused bits for rand_a, variant and rand_b.
    pub open spec fn wf(self) -> bool {
        &&& bit_string_unused(self.rand_a) == 4
        &&& bit_string_octets(self.rand_a).len() == 2
        &&& bit_string_unused(self.variant) == 6
        &&& bit_string_octets(self.variant).len() == 1
        &&& bit_string_unused(self.rand_b) == 2
        &&& bit_string_octets(self.rand_b).len() == 8
    }

    /// The DER image of this record.
    pub open spec fn spec_der(self) -> Seq<u8> {
        der_tlv(
            0x30,
            der_uint(self.unix_ts_ms as nat) + der_uint(self.version as nat) + der_bit_string(
                bit_string_unused(self.rand_a),
                bit_string_octets(self.rand_a),
            ) + der_bit_string(bit_string_unused(self.variant), bit_string_octets(self.variant))
                + der_bit_string(bit_string_unused(self.rand_b), bit_string_octets(self.rand_b)),
        )
    }

    /// Projects a raw field record into its ASN.1 shape. The widths are fixed
    /// constants that the bit-string constructor accepts, so this always
    /// succeeds.
    pub fn try_from(raw_uuid: RawUuidV7) -> (r: Result<RawUuidV7Asn1, der::Error>)
        ensures
            r is Ok,
            r matches Ok(a) ==> a.wf() && is_projection_of(a, raw_uuid),
    {
        let mut ra_bytes: Vec<u8> = Vec::new();
        ra_bytes.push((raw_uuid.rand_a >> 8) as u8);
        ra_bytes.push(raw_uuid.rand_a as u8);
        assert(ra_bytes@ =~= be2(raw_uuid.rand_a));
        let rand_a_bitstring = bit_string_new(4, ra_bytes.as_slice())?;

        let mut va_bytes: Vec<u8> = Vec::new();
        va_bytes.push(raw_uuid.variant);
        assert(va_bytes@ =~= seq![raw_uuid.variant]);
        let variant_bitstring = bit_string_new(6, va_bytes.as_slice())?;

        let mut rb_bytes: Vec<u8> = Vec::new();
        rb_bytes.push((raw_uuid.rand_b >> 56) as u8);
        rb_bytes.push((raw_uuid.rand_b >> 48) as u8);
        rb_bytes.push((raw_uuid.rand_b >> 40) as u8);
        rb_bytes.push((raw_uuid.rand_b >> 32) as u8);
        rb_bytes.push((raw_uuid.rand_b >> 24) as u8);
        rb_bytes.push((raw_uuid.rand_b >> 16) as u8);
        rb_bytes.push((raw_uuid.rand_b >> 8) as u8);
        rb_bytes.push(raw_uuid.rand_b as u8);
        assert(rb_bytes@ =~= be8(raw_uuid.rand_b));
        let rand_b_bitstring = bit_string_new(2, rb_bytes.as_slice())?;

        Ok(
            RawUuidV7Asn1 {
                unix_ts_ms: raw_uuid.unix_ts_ms,
                version: raw_uuid.version,
                rand_a: rand_a_bitstring,
                variant: variant_bitstring,
                rand_b: rand_b_bitstring,
            },
        )
    }

    /// Projects an arbitrary 128-bit value: unpack its five fields, then
    /// build the ASN.1 record from them.
    pub fn try_from_u128(uuid_u128: u128) -> (r: Result<RawUuidV7Asn1, der::Error>)
        ensures
            r is Ok,
            r matches Ok(a) ==> a.wf() && is_projection_of(a, spec_raw_of(uuid_u128)),
    {
        let unverified_uuid = UnverifiedUuidV7(uuid_u128);
        let raw_uuid = RawUuidV7::from(unverified_uuid);
        RawUuidV7Asn1::try_from(raw_uuid)
    }

    /// Serializes the record to its canonical DER byte sequence. On a
    /// well-formed record the encoder cannot fail, so the result is always
    /// the DER image; the error arm only surfaces an encoder failure as an
    /// I/O-domain error.
    pub fn to_der_bytes(&self) -> (r: Result<Vec<u8>, std::io::Error>)
        requires
            self.wf(),
        ensures
            r is Ok,
            r matches Ok(v) ==> v@ == self.spec_der(),
    {
        match self.to_der_vec() {
            Ok(v) => Ok(v),
            Err(e) => Err(io_error_from_der(e)),
        }
    }

    /// Encodes each field through the DER encoder and frames the results as
    /// a SEQUENCE; the body is short enough for the single-octet length form.
    fn to_der_vec(&self) -> (r: Result<Vec<u8>, der::Error>)
        requires
            self.wf(),
        ensures
            r is Ok,
            r matches Ok(v) ==> v@ == self.spec_der(),
    {
        proof {
            lemma_der_uint_u64_len(self.unix_ts_ms);
            lemma_der_uint_u8_len(self.version);
        }
        let mut body = u64_to_der(self.unix_ts_ms)?;
        let mut ver = u8_to_der(self.version)?;
        body.append(&mut ver);
        let mut ra = bit_string_to_der(&self.rand_a)?;
        body.append(&mut ra);
        let mut va = bit_string_to_der(&self.variant)?;
        body.append(&mut va);
        let mut rb = bit_string_to_der(&self.rand_b)?;
        body.append(&mut rb);

        let mut out: Vec<u8> = Vec::new();
        out.push(0x30);
        out.push(body.len() as u8);
        out.append(&mut body);
        proof {
            assert(out@ =~= self.spec_der());
        }
        Ok(out)
    }
}

/// The projection of a raw field record has the DER image that
/// [`spec_der_of_raw`] gives that record.
pub proof fn lemma_projection_image(a: RawUuidV7Asn1, raw: RawUuidV7)
    requires
        is_projection_of(a, raw),
    ensures
        a.spec_der() == spec_der_of_raw(raw),
{
}

/// Projection determinism: the DER image is a function of the raw field
/// record alone, so two projections of the same record serialize to
/// byte-identical output.
pub proof fn lemma_projection_deterministic(a: RawUuidV7Asn1, b: RawUuidV7Asn1, raw: RawUuidV7)
    requires
        is_projection_of(a, raw),
        is_projection_of(b, raw),
    ensures
        a.spec_der() == b.spec_der(),
{
    lemma_projection_image(a, raw);
    lemma_projection_image(b, raw);
}

/// Field width preservation: a projection always stores rand_a, variant and
/// rand_b in buffers of exactly 2, 1 and 8 octets with exactly 4, 6 and 2
/// unused low-order bits. When a field's low-order bits (the ones that land
/// in the padding region) are zero, the padding bits of its buffer are zero.
pub proof fn lemma_field_widths(a: RawUuidV7Asn1, raw: RawUuidV7)
    requires
        is_projection_of(a, raw),
    ensures
        bit_string_unused(a.rand_a) == 4 && bit_string_octets(a.rand_a).len() == 2,
        bit_string_unused(a.variant) == 6 && bit_string_octets(a.variant).len() == 1,
        bit_string_unused(a.rand_b) == 2 && bit_string_octets(a.rand_b).len() == 8,
        raw.rand_a % 0x10 == 0 ==> bit_string_octets(a.rand_a)[1] % 0x10 == 0,
        raw.variant % 0x40 == 0 ==> bit_string_octets(a.variant)[0] % 0x40 == 0,
        raw.rand_b % 4 == 0 ==> bit_string_octets(a.rand_b)[7] % 4 == 0,
{
    let ra = raw.rand_a;
    let rb = raw.rand_b;
    assert(ra % 0x10 == 0 ==> (ra as u8) % 0x10 == 0) by (bit_vector);
    assert(rb % 4 == 0 ==> (rb as u8) % 4 == 0) by (bit_vector);
}

} // verus!

use der::Reader;

use rs_asn1der2uuid7::new_raw_uuid_v7_asn1;
use rs_asn1der2uuid7::new_raw_uuid_v7_asn1_now;
use rs_asn1der2uuid7::RawUuidV7;
use rs_asn1der2uuid7::RawUuidV7Asn1;
use rs_asn1der2uuid7::UnverifiedUuidV7;
use rs_asn1der2uuid7::UuidV7;
use rs_asn1der2uuid7::UuidV7Error;
use rs_asn1der2uuid7::UuidV7Seeds;

fn unix_millis_now() -> u64 {
    std::time::SystemTime::now()
        .duration_since(std::time::UNIX_EPOCH)
        .unwrap()
        .as_millis() as u64
}

fn decode_integer_fields(der_bytes: &[u8]) -> (u64, u8) {
    let mut reader = der::SliceReader::new(der_bytes).unwrap();
    let fields = reader
        .sequence(|r| {
            let ts: u64 = r.decode()?;
            let ver: u8 = r.decode()?;
            let _rand_a: der::asn1::BitString = r.decode()?;
            let _variant: der::asn1::BitString = r.decode()?;
            let _rand_b: der::asn1::BitString = r.decode()?;
            Ok((ts, ver))
        })
        .unwrap();
    fields
}

#[test]
fn pack_concrete_scenario() {
    let seeds = UuidV7Seeds {
        unix_ts_ms: 0x0001_8E2C_1A2B,
        random_bytes: 0,
    };
    let v = seeds.to_u128();
    assert_eq!(v >> 80, 0x0001_8E2C_1A2B);
    assert_eq!(
        v,
        (0x0001_8E2C_1A2Bu128 << 80) | (7u128 << 76) | (2u128 << 62)
    );
    let u = UnverifiedUuidV7(v);
    assert_eq!(u.unix_ts_ms(), 0x0001_8E2C_1A2B);
    assert_eq!(u.version(), 7);
    assert_eq!(u.variant(), 2);
    assert_eq!(u.rand_a(), 0);
    assert_eq!(u.rand_b(), 0);
}

#[test]
fn pack_unpack_roundtrip_values() {
    let r: u128 = 0x0123_4567_89AB_CDEF_0123_4567_89AB_CDEF;
    let t: u64 = 0x0000_ABCD_EF01_2345;
    let seeds = UuidV7Seeds {
        unix_ts_ms: t,
        random_bytes: r,
    };
    let u = UnverifiedUuidV7(seeds.to_u128());
    assert_eq!(u.unix_ts_ms(), t);
    assert_eq!(u.version(), 7);
    assert_eq!(u.variant(), 2);
    assert_eq!(u.rand_a(), ((r >> 64) & 0x0FFF) as u16);
    assert_eq!(u.rand_b(), (r & 0x3FFF_FFFF_FFFF_FFFF) as u64);
}

#[test]
fn validate_accepts_packed_value() {
    let seeds = UuidV7Seeds {
        unix_ts_ms: 1234,
        random_bytes: 0xFFFF_FFFF_FFFF_FFFF_FFFF_FFFF_FFFF_FFFF,
    };
    let v = seeds.to_u128();
    let validated = UuidV7::try_from(UnverifiedUuidV7(v)).unwrap();
    assert_eq!(validated.as_u128(), v);
}

#[test]
fn validate_rejects_version_4() {
    let seeds = UuidV7Seeds {
        unix_ts_ms: 123,
        random_bytes: 0,
    };
    let mut v = seeds.to_u128();
    v = (v & !(0x0Fu128 << 76)) | (4u128 << 76);
    assert_eq!(
        UuidV7::try_from(UnverifiedUuidV7(v)),
        Err(UuidV7Error::InvalidVersion(4))
    );
    // Even with the variant bits also wrong, the version error wins.
    let v_both_wrong = v & !(0x03u128 << 62);
    assert_eq!(
        UuidV7::try_from(UnverifiedUuidV7(v_both_wrong)),
        Err(UuidV7Error::InvalidVersion(4))
    );
}

#[test]
fn validate_rejects_bad_variant() {
    let seeds = UuidV7Seeds {
        unix_ts_ms: 123,
        random_bytes: 0,
    };
    let v = seeds.to_u128();
    let v_variant0 = v & !(0x03u128 << 62);
    assert_eq!(
        UuidV7::try_from(UnverifiedUuidV7(v_variant0)),
        Err(UuidV7Error::InvalidVariant(0))
    );
    let v_variant3 = v | (0x03u128 << 62);
    assert_eq!(
        UuidV7::try_from(UnverifiedUuidV7(v_variant3)),
        Err(UuidV7Error::InvalidVariant(3))
    );
}

#[test]
fn raw_fields_extracted() {
    let bits: u128 = (0x0001_8E2C_1A2Bu128 << 80)
        | (7u128 << 76)
        | (0x0ABCu128 << 64)
        | (2u128 << 62)
        | 0x1FFF_FFFF_FFFF_FFFF;
    let raw = RawUuidV7::from(UnverifiedUuidV7(bits));
    assert_eq!(raw.unix_ts_ms, 0x0001_8E2C_1A2B);
    assert_eq!(raw.version, 7);
    assert_eq!(raw.rand_a, 0x0ABC);
    assert_eq!(raw.variant, 2);
    assert_eq!(raw.rand_b, 0x1FFF_FFFF_FFFF_FFFF);
}

#[test]
fn der_exact_bytes() {
    let raw = RawUuidV7 {
        unix_ts_ms: 0x0001_8E2C_1A2B,
        version: 7,
        rand_a: 0x0ABC,
        rand_b: 0x3FFF_FFFF_FFFF_FFFF,
        variant: 2,
    };
    let asn1 = RawUuidV7Asn1::try_from(raw).unwrap();
    let der_bytes = asn1.to_der_bytes().unwrap();
    let expected: Vec<u8> = vec![
        0x30, 0x1E, // SEQUENCE, 30 content bytes
        0x02, 0x05, 0x01, 0x8E, 0x2C, 0x1A, 0x2B, // unix_ts_ms INTEGER
        0x02, 0x01, 0x07, // version INTEGER
        0x03, 0x03, 0x04, 0x0A, 0xBC, // rand_a BIT STRING, 4 unused bits
        0x03, 0x02, 0x06, 0x02, // variant BIT STRING, 6 unused bits
        0x03, 0x09, 0x02, 0x3F, 0xFF, 0xFF, 0xFF, 0xFF, 0xFF, 0xFF,
        0xFF, // rand_b BIT STRING, 2 unused bits
    ];
    assert_eq!(der_bytes, expected);
}

#[test]
fn der_integer_edge_values() {
    // A zero timestamp takes one zero content byte; a version byte with its
    // top bit set takes a leading zero byte so it reads as unsigned.
    let raw = RawUuidV7 {
        unix_ts_ms: 0,
        version: 0x80,
        rand_a: 0,
        rand_b: 0,
        variant: 0,
    };
    let asn1 = RawUuidV7Asn1::try_from(raw).unwrap();
    let der_bytes = asn1.to_der_bytes().unwrap();
    let expected: Vec<u8> = vec![
        0x30, 0x1B, // SEQUENCE, 27 content bytes
        0x02, 0x01, 0x00, // unix_ts_ms INTEGER 0
        0x02, 0x02, 0x00, 0x80, // version INTEGER 128, leading zero kept
        0x03, 0x03, 0x04, 0x00, 0x00, // rand_a BIT STRING
        0x03, 0x02, 0x06, 0x00, // variant BIT STRING
        0x03, 0x09, 0x02, 0x00, 0x00, 0x00, 0x00, 0x00, 0x00, 0x00,
        0x00, // rand_b BIT STRING
    ];
    assert_eq!(der_bytes, expected);
}

#[test]
fn pack_via_from_matches_to_u128() {
    let a = UuidV7Seeds {
        unix_ts_ms: 42,
        random_bytes: 7,
    };
    let b = UuidV7Seeds {
        unix_ts_ms: 42,
        random_bytes: 7,
    };
    let v: u128 = a.into();
    assert_eq!(v, b.to_u128());
}

#[test]
fn bit_string_widths_preserved() {
    let raw = RawUuidV7 {
        unix_ts_ms: 1,
        version: 7,
        rand_a: 0x0FF0,
        rand_b: 0x0123_4567_89AB_CDEC,
        variant: 2,
    };
    let der_bytes = RawUuidV7Asn1::try_from(raw)
        .unwrap()
        .to_der_bytes()
        .unwrap();
    let mut reader = der::SliceReader::new(&der_bytes).unwrap();
    reader
        .sequence(|r| {
            let _ts: u64 = r.decode()?;
            let _ver: u8 = r.decode()?;
            let rand_a: der::asn1::BitString = r.decode()?;
            let variant: der::asn1::BitString = r.decode()?;
            let rand_b: der::asn1::BitString = r.decode()?;
            assert_eq!(rand_a.unused_bits(), 4);
            assert_eq!(rand_a.bit_len(), 12);
            assert_eq!(rand_a.raw_bytes(), &[0x0F, 0xF0]);
            assert_eq!(variant.unused_bits(), 6);
            assert_eq!(variant.bit_len(), 2);
            assert_eq!(variant.raw_bytes(), &[0x02]);
            assert_eq!(rand_b.unused_bits(), 2);
            assert_eq!(rand_b.bit_len(), 62);
            assert_eq!(
                rand_b.raw_bytes(),
                0x0123_4567_89AB_CDECu64.to_be_bytes().as_slice()
            );
            Ok(())
        })
        .unwrap();
}

#[test]
fn der_projection_deterministic() {
    let raw = RawUuidV7 {
        unix_ts_ms: 0x0000_1234_5678_9ABC,
        version: 7,
        rand_a: 0x0123,
        rand_b: 0x2AAA_AAAA_AAAA_AAAA,
        variant: 2,
    };
    let first = RawUuidV7Asn1::try_from(raw).unwrap().to_der_bytes().unwrap();
    let second = RawUuidV7Asn1::try_from(raw).unwrap().to_der_bytes().unwrap();
    assert_eq!(first, second);
}

#[test]
fn der_from_u128_matches_field_path() {
    let bits: u128 = (0x0001_8E2C_1A2Bu128 << 80)
        | (7u128 << 76)
        | (0x0ABCu128 << 64)
        | (2u128 << 62)
        | 0x2FFF_0000_FFFF_1234;
    let via_u128 = RawUuidV7Asn1::try_from_u128(bits)
        .unwrap()
        .to_der_bytes()
        .unwrap();
    let via_fields = RawUuidV7Asn1::try_from(RawUuidV7::from(UnverifiedUuidV7(bits)))
        .unwrap()
        .to_der_bytes()
        .unwrap();
    assert_eq!(via_u128, via_fields);
    let (ts, ver) = decode_integer_fields(&via_u128);
    assert_eq!(ts, 0x0001_8E2C_1A2B);
    assert_eq!(ver, 7);
}

#[test]
fn generate_with_timestamp_roundtrips() {
    let ts = uuid::Timestamp::from_unix(uuid::NoContext, 1_700_000_000, 5_000_000);
    let asn1 = new_raw_uuid_v7_asn1(ts).unwrap();
    let der_bytes = asn1.to_der_bytes().unwrap();
    let (millis, ver) = decode_integer_fields(&der_bytes);
    assert_eq!(ver, 7);
    assert_eq!(millis, 1_700_000_000_000 + 5);
}

#[test]
fn end_to_end_generate_and_decode() {
    let before = unix_millis_now();
    let asn1 = new_raw_uuid_v7_asn1_now().unwrap();
    let der_bytes = asn1.to_der_bytes().unwrap();
    let after = unix_millis_now();
    let (millis, ver) = decode_integer_fields(&der_bytes);
    assert_eq!(ver, 7);
    assert!(millis >= before && millis <= after);
}

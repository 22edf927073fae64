use vstd::prelude::*;

pub mod asn1;
pub mod codec;
pub mod der_layout;
pub mod fields;
pub mod gen;
pub mod validate;

pub use asn1::RawUuidV7Asn1;
pub use gen::new_raw_uuid_v7_asn1;
pub use gen::new_raw_uuid_v7_asn1_now;
pub use codec::UnverifiedUuidV7;
pub use codec::UuidV7Seeds;
pub use fields::RawUuidV7;
pub use validate::UuidV7;
pub use validate::UuidV7Error;

verus! {

} // verus!

//! Registration endpoint for omnichain applications (OApps).
//!
//! An OApp is registered once. Its registration record lives at an address
//! that is derived from a fixed domain tag and the OApp's own public key, so
//! that the record's location is bound to the identity it describes.
//!
//! `endpoint::register_oapp` is the one instruction: it derives the address,
//! checks the accounts it was handed against it, and creates the record if
//! none exists there yet.

use vstd::prelude::*;

pub mod endpoint;
pub mod errors;
pub mod instructions;
pub mod pda;
pub mod pubkey;
pub mod state;

verus! {

/// The identifier under which the endpoint is deployed,
/// `8Hx7JEnnA1oQWMKPPeMcku8bd76BGD8m6v1KSBMUR9Zz` in base 58.
pub const ID: [u8; 32] = [
    0x6c, 0x59, 0x69, 0xb3, 0x3c, 0xcb, 0x9a, 0x9e, 0x4e, 0xb5, 0x9f, 0xb1, 0x47, 0x66, 0x15, 0x4e,
    0xe0, 0x26, 0x97, 0x77, 0x35, 0xb5, 0x52, 0x4e, 0x6f, 0x68, 0x3f, 0xa7, 0x23, 0x07, 0x28, 0x89,
];

/// Domain tag of registration records: the ASCII bytes of `OApp`.
pub const OAPP_SEED: [u8; 4] = [0x4f, 0x41, 0x70, 0x70];

/// The identifier under which the endpoint is deployed, as a key.
pub fn id() -> (key: pubkey::Pubkey)
    ensures
        key.bytes == ID,
{
    pubkey::Pubkey { bytes: ID }
}

} // verus!

//! Constants shared by the Sapling hash-to-curve construction.
use vstd::prelude::*;

verus! {

/// The first 64-byte block of the BLAKE2s input of the group hash.
///
/// It is the ASCII text of the hexadecimal string
/// `096b36a5804bfacef1691e173c366a47ff5ba84a44f26ddd7e8d9f79d5b42df0`,
/// a value that could not have been anticipated when the construction was
/// designed, so that no generator can have been chosen with a known discrete
/// logarithm.
pub const GH_FIRST_BLOCK: [u8; 64] = [
    0x30, 0x39, 0x36, 0x62, 0x33, 0x36, 0x61, 0x35, 0x38, 0x30, 0x34, 0x62, 0x66, 0x61, 0x63, 0x65,
    0x66, 0x31, 0x36, 0x39, 0x31, 0x65, 0x31, 0x37, 0x33, 0x63, 0x33, 0x36, 0x36, 0x61, 0x34, 0x37,
    0x66, 0x66, 0x35, 0x62, 0x61, 0x38, 0x34, 0x61, 0x34, 0x34, 0x66, 0x32, 0x36, 0x64, 0x64, 0x64,
    0x37, 0x65, 0x38, 0x64, 0x39, 0x66, 0x37, 0x39, 0x64, 0x35, 0x62, 0x34, 0x32, 0x64, 0x66, 0x30,
];

} // verus!

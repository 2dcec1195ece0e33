//! Hashing byte strings to points of the prime-order subgroup of the Jubjub
//! curve, as used by the Sapling protocol.
pub mod constants;
pub mod blake2s;
pub mod point;
pub mod group_hash;

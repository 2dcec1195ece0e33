//! The BLAKE2s hashing context of the `blake2_rfc` crate, as seen by the
//! verified code.
//!
//! A context is described by two values: the eight-word BLAKE2 parameter
//! block it was created from, and the bytes fed to it so far. The digest is a
//! function of these two values alone; it is named here and not computed.
use blake2_rfc::blake2s::Blake2s;
use vstd::prelude::*;

verus! {

#[verifier::external_type_specification]
#[verifier::external_body]
pub struct ExBlake2s(Blake2s);

/// The BLAKE2 parameter block (eight little-endian words) that the context
/// was created from.
pub uninterp spec fn blake2s_parameters(state: Blake2s) -> Seq<u32>;

/// The bytes fed to the context since it was created, in order.
pub uninterp spec fn blake2s_absorbed(state: Blake2s) -> Seq<u8>;

/// The unkeyed BLAKE2s digest of `input` under the given parameter block
/// (digest length, salt and personalization are read from the block).
pub uninterp spec fn blake2s_digest(parameters: Seq<u32>, input: Seq<u8>) -> Seq<u8>;

/// The digest length that a parameter block asks for: its lowest byte.
pub open spec fn parameter_digest_length(parameters: Seq<u32>) -> nat {
    (parameters[0] % 256) as nat
}

/// The key length that a parameter block announces: its second byte.
pub open spec fn parameter_key_length(parameters: Seq<u32>) -> nat {
    ((parameters[0] / 256) % 256) as nat
}

/// Calls `Blake2s::with_parameter_block`.
///
/// Trusted: the new context holds the given parameter block and has absorbed
/// nothing. The crate asserts (and panics otherwise) that the digest length
/// lies in `1..=32` and the announced key length is at most 32; `requires`
/// leaves those blocks out.
#[verifier::external_body]
pub(crate) fn blake2s_with_parameter_block(parameters: &[u32; 8]) -> (state: Blake2s)
    requires
        1 <= parameter_digest_length(parameters@) <= 32,
        parameter_key_length(parameters@) <= 32,
    ensures
        blake2s_parameters(state) == parameters@,
        blake2s_absorbed(state) == Seq::<u8>::empty(),
{
    Blake2s::with_parameter_block(parameters)
}

/// Calls `Blake2s::update`.
///
/// Trusted: the context keeps its parameter block and appends `data` to what
/// it has absorbed. The crate counts the absorbed bytes in a `u64` and panics
/// when the count would overflow; `requires` leaves that case out.
#[verifier::external_body]
pub(crate) fn blake2s_update(state: &mut Blake2s, data: &[u8])
    requires
        blake2s_absorbed(*old(state)).len() + data@.len() <= u64::MAX,
    ensures
        blake2s_parameters(*final(state)) == blake2s_parameters(*old(state)),
        blake2s_absorbed(*final(state)) == blake2s_absorbed(*old(state)) + data@,
{
    state.update(data)
}

/// Calls `Blake2s::finalize` and copies the result's bytes (`as_bytes`) into
/// a vector.
///
/// Trusted: the bytes are the digest of everything absorbed under the
/// context's parameter block, and there are as many of them as the block's
/// digest length.
#[verifier::external_body]
pub(crate) fn blake2s_finalize(state: Blake2s) -> (digest: Vec<u8>)
    requires
        blake2s_parameters(state).len() == 8,
    ensures
        digest@ == blake2s_digest(blake2s_parameters(state), blake2s_absorbed(state)),
        digest@.len() == parameter_digest_length(blake2s_parameters(state)),
{
    state.finalize().as_bytes().to_vec()
}

} // verus!

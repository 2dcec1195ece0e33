//! Hashing a tag to a point of prime order on the Jubjub curve.
//!
//! The tag is hashed with BLAKE2s-256, personalized, after the fixed block
//! `GH_FIRST_BLOCK`; the digest is read as a curve point, which is multiplied
//! by the cofactor 8. Where the digest encodes no point, or the product is the
//! identity, there is no result.
use crate::blake2s::{
    blake2s_absorbed,
    blake2s_digest,
    blake2s_finalize,
    blake2s_update,
    blake2s_with_parameter_block,
};
use crate::constants::GH_FIRST_BLOCK;
use crate::point::{
    base_field_bits,
    decode_point,
    identity_encoding,
    identity_point,
    is_point_encoding,
    jubjub_decode,
    jubjub_mul_by_cofactor,
    mul_by_cofactor,
    same_point,
    Point,
};
use vstd::prelude::*;

verus! {

/// The little-endian 32-bit word held by `bytes[at..at + 4]`.
pub open spec fn le_word(bytes: Seq<u8>, at: int) -> int {
    bytes[at] + 256 * bytes[at + 1] + 65536 * bytes[at + 2] + 16777216 * bytes[at + 3]
}

/// The BLAKE2s parameter block of an unkeyed, sequential hash with a 32-byte
/// digest, an empty salt and the given 8-byte personalization: digest length
/// 32, key length 0, fanout 1, depth 1 in the first word; the
/// personalization in the last two words.
pub open spec fn personalized_parameters(personalization: Seq<u8>) -> Seq<u32> {
    seq![
        0x0101_0020u32,
        0u32,
        0u32,
        0u32,
        0u32,
        0u32,
        le_word(personalization, 0) as u32,
        le_word(personalization, 4) as u32,
    ]
}

/// The 32-byte BLAKE2s digest that the group hash reads as a point.
pub open spec fn group_hash_digest(tag: Seq<u8>, personalization: Seq<u8>) -> Seq<u8> {
    blake2s_digest(personalized_parameters(personalization), GH_FIRST_BLOCK@ + tag)
}

/// `q`, unless it is the identity.
pub open spec fn without_identity(q: Seq<u8>) -> Option<Seq<u8>> {
    if q == identity_encoding() {
        None
    } else {
        Some(q)
    }
}

/// The cofactor multiple `[8]P` of the point encoded by `p`, unless it is the
/// identity.
pub open spec fn prime_order_part(p: Seq<u8>) -> Option<Seq<u8>> {
    without_identity(jubjub_mul_by_cofactor(p))
}

/// The point of prime order that a 32-byte digest yields, if any.
pub open spec fn digest_to_point(digest: Seq<u8>) -> Option<Seq<u8>> {
    match jubjub_decode(digest) {
        Some(p) => prime_order_part(p),
        None => None,
    }
}

/// The point that the group hash gives `tag` under `personalization`, if any.
pub open spec fn group_hash_result(tag: Seq<u8>, personalization: Seq<u8>) -> Option<Seq<u8>> {
    digest_to_point(group_hash_digest(tag, personalization))
}

/// The encodings of an optional point.
pub open spec fn point_option_view(point: Option<Point>) -> Option<Seq<u8>> {
    match point {
        Some(p) => Some(p@),
        None => None,
    }
}

/// Whether `e` encodes a point of the prime-order subgroup: a multiple by the
/// cofactor 8 of some point of the curve. The curve has `8 * r` points with
/// `r` prime, so these multiples are exactly the points whose order divides
/// `r`.
pub open spec fn in_prime_order_subgroup(e: Seq<u8>) -> bool {
    exists|x: Seq<u8>|
        #![trigger jubjub_decode(x)]
        jubjub_decode(x) is Some && jubjub_mul_by_cofactor(jubjub_decode(x)->0) == e
}

/// Whether `e` encodes a point of order exactly `r`: one of the prime-order
/// subgroup other than the identity.
pub open spec fn is_prime_order_point(e: Seq<u8>) -> bool {
    in_prime_order_subgroup(e) && e != identity_encoding()
}

/// An optional point is seen as the encoding of the point it holds, and
/// no point as nothing.
pub proof fn lemma_point_option_view(point: Option<Point>)
    ensures
        point_option_view(point) is None <==> point is None,
        point matches Some(p) ==> point_option_view(point) == Some(p@),
{
}

/// The identity's encoding is 32 bytes: 1, then 31 zeros.
pub proof fn lemma_identity_encoding()
    ensures
        identity_encoding().len() == 32,
        identity_encoding()[0] == 1u8,
        forall|i: int| 1 <= i < 32 ==> identity_encoding()[i] == 0u8,
{
}

/// The parameter block of the group hash: digest length 32, no key, fanout
/// and depth 1, no leaf length, node offset, inner length or salt, and the
/// eight personalization bytes read as two little-endian words.
pub proof fn lemma_personalized_parameters(personalization: Seq<u8>)
    requires
        personalization.len() == 8,
    ensures
        personalized_parameters(personalization).len() == 8,
        personalized_parameters(personalization)[0] == 32 + 256 * 0 + 65536 * 1 + 16777216 * 1,
        forall|i: int| 1 <= i < 6 ==> personalized_parameters(personalization)[i] == 0u32,
        personalized_parameters(personalization)[6] == personalization[0] + 256 * personalization[1]
            + 65536 * personalization[2] + 16777216 * personalization[3],
        personalized_parameters(personalization)[7] == personalization[4] + 256 * personalization[5]
            + 65536 * personalization[6] + 16777216 * personalization[7],
{
}

/// Only the identity is dropped: a point other than the identity is kept
/// unchanged, and the identity gives nothing.
pub proof fn lemma_without_identity(q: Seq<u8>)
    ensures
        without_identity(q) is None <==> q == identity_encoding(),
        q != identity_encoding() ==> without_identity(q) == Some(q),
{
}

/// The prime-order part of a point is its multiple by the cofactor, and is
/// missing exactly when that multiple is the identity.
pub proof fn lemma_prime_order_part(p: Seq<u8>)
    ensures
        prime_order_part(p) is None <==> jubjub_mul_by_cofactor(p) == identity_encoding(),
        jubjub_mul_by_cofactor(p) != identity_encoding() ==> prime_order_part(p) == Some(
            jubjub_mul_by_cofactor(p),
        ),
{
}

/// A digest is read exactly as given: where its bytes encode no point there
/// is no result; where they encode the point `p`, the result is `[8]p`
/// unless that is the identity.
pub proof fn lemma_digest_to_point(digest: Seq<u8>)
    ensures
        jubjub_decode(digest) is None ==> digest_to_point(digest) is None,
        forall|p: Seq<u8>|
            #![trigger jubjub_mul_by_cofactor(p)]
            jubjub_decode(digest) == Some(p) ==> {
                &&& (digest_to_point(digest) is None <==> jubjub_mul_by_cofactor(p)
                    == identity_encoding())
                &&& (jubjub_mul_by_cofactor(p) != identity_encoding() ==> digest_to_point(digest)
                    == Some(jubjub_mul_by_cofactor(p)))
            },
{
}

/// The digest the group hash reads is BLAKE2s under the personalized
/// parameter block of the whole of `GH_FIRST_BLOCK` followed by the whole
/// tag, for tags of every length: two tags are hashed as the same input only
/// when they are equal.
pub proof fn lemma_group_hash_digest(tag: Seq<u8>, personalization: Seq<u8>)
    ensures
        group_hash_digest(tag, personalization) == blake2s_digest(
            personalized_parameters(personalization),
            GH_FIRST_BLOCK@ + tag,
        ),
        forall|tag2: Seq<u8>|
            (GH_FIRST_BLOCK@ + tag == #[trigger] (GH_FIRST_BLOCK@ + tag2)) <==> tag == tag2,
{
    assert forall|tag2: Seq<u8>|
        (GH_FIRST_BLOCK@ + tag == #[trigger] (GH_FIRST_BLOCK@ + tag2)) implies tag == tag2 by {
        assert(GH_FIRST_BLOCK@.len() == 64);
        let a = GH_FIRST_BLOCK@ + tag;
        let b = GH_FIRST_BLOCK@ + tag2;
        assert(tag =~= a.subrange(64, a.len() as int));
        assert(tag2 =~= b.subrange(64, b.len() as int));
    }
}

/// The whole group hash, in terms of the outside results alone: the digest
/// of `GH_FIRST_BLOCK` followed by the tag is read as a point `p`; there is
/// no result where it encodes no point or where `[8]p` is the identity, and
/// otherwise the result is `[8]p`.
pub proof fn lemma_group_hash_result(tag: Seq<u8>, personalization: Seq<u8>)
    ensures
        ({
            let digest = blake2s_digest(
                personalized_parameters(personalization),
                GH_FIRST_BLOCK@ + tag,
            );
            &&& jubjub_decode(digest) is None ==> group_hash_result(tag, personalization) is None
            &&& forall|p: Seq<u8>|
                #![trigger jubjub_mul_by_cofactor(p)]
                jubjub_decode(digest) == Some(p) ==> {
                    &&& (group_hash_result(tag, personalization) is None
                        <==> jubjub_mul_by_cofactor(p) == identity_encoding())
                    &&& (jubjub_mul_by_cofactor(p) != identity_encoding() ==> group_hash_result(
                        tag,
                        personalization,
                    ) == Some(jubjub_mul_by_cofactor(p)))
                }
        }),
{
    lemma_group_hash_digest(tag, personalization);
    lemma_digest_to_point(group_hash_digest(tag, personalization));
}

/// The point a digest yields is of prime order and not the identity.
pub proof fn lemma_digest_point_prime_order(digest: Seq<u8>)
    ensures
        digest_to_point(digest) matches Some(p) ==> is_prime_order_point(p),
{
    if let Some(p) = digest_to_point(digest) {
        assert(jubjub_decode(digest) is Some);
    }
}

/// Every point the group hash produces is of prime order and not the
/// identity.
pub proof fn lemma_group_hash_prime_order(tag: Seq<u8>, personalization: Seq<u8>)
    ensures
        group_hash_result(tag, personalization) matches Some(p) ==> is_prime_order_point(p),
{
    lemma_digest_point_prime_order(group_hash_digest(tag, personalization));
}

/// The group hash is a function of its inputs: equal tags under equal
/// personalizations give equal results, with no randomness and no hidden
/// state.
pub proof fn lemma_group_hash_deterministic(
    tag1: Seq<u8>,
    personalization1: Seq<u8>,
    tag2: Seq<u8>,
    personalization2: Seq<u8>,
)
    requires
        tag1 == tag2,
        personalization1 == personalization2,
    ensures
        group_hash_result(tag1, personalization1) == group_hash_result(tag2, personalization2),
{
}

/// Returns `q` unless it is the identity.
pub fn reject_identity(q: Point) -> (point: Option<Point>)
    ensures
        point_option_view(point) == without_identity(q@),
        point matches Some(p) ==> p == q,
{
    let identity = identity_point();
    if same_point(&q, &identity) {
        None
    } else {
        Some(q)
    }
}

/// Multiplies the point `p` by the cofactor and returns the product unless
/// it is the identity.
pub fn prime_order_point(p: &Point) -> (point: Option<Point>)
    requires
        jubjub_decode(p@) is Some,
    ensures
        point_option_view(point) == prime_order_part(p@),
        point matches Some(q) ==> is_point_encoding(q@),
{
    let q = mul_by_cofactor(p);
    reject_identity(q)
}

/// Reads a 32-byte digest as a curve point and returns its cofactor
/// multiple, unless the digest encodes no point or the multiple is the
/// identity.
pub fn point_from_digest(digest: &[u8; 32]) -> (point: Option<Point>)
    ensures
        point_option_view(point) == digest_to_point(digest@),
        point matches Some(q) ==> is_prime_order_point(q@),
        point matches Some(q) ==> is_point_encoding(q@),
{
    proof {
        lemma_digest_point_prime_order(digest@);
    }
    match decode_point(*digest) {
        Some(p) => prime_order_point(&p),
        None => None,
    }
}

/// The little-endian word held by `bytes[at..at + 4]`.
fn le_word_at(bytes: &[u8], at: usize) -> (word: u32)
    requires
        at + 4 <= bytes@.len(),
    ensures
        word == le_word(bytes@, at as int),
{
    let b0 = bytes[at] as u32;
    let b1 = bytes[at + 1] as u32;
    let b2 = bytes[at + 2] as u32;
    let b3 = bytes[at + 3] as u32;
    b0 + 256 * b1 + 65536 * b2 + 16777216 * b3
}

/// The BLAKE2s parameter block for a 32-byte personalized digest.
fn personalized_parameter_block(personalization: &[u8]) -> (parameters: [u32; 8])
    requires
        personalization@.len() == 8,
    ensures
        parameters@ == personalized_parameters(personalization@),
{
    let low = le_word_at(personalization, 0);
    let high = le_word_at(personalization, 4);
    let parameters: [u32; 8] = [0x0101_0020u32, 0, 0, 0, 0, 0, low, high];
    assert(parameters@ =~= personalized_parameters(personalization@));
    parameters
}

/// Copies a 32-byte digest into an array.
fn digest_array(digest: &Vec<u8>) -> (bytes: [u8; 32])
    requires
        digest@.len() == 32,
    ensures
        bytes@ == digest@,
{
    let mut bytes = [0u8; 32];
    let mut i: usize = 0;
    while i < 32
        invariant
            i <= 32,
            digest@.len() == 32,
            forall|j: int| 0 <= j < i ==> bytes@[j] == digest@[j],
        decreases 32 - i,
    {
        bytes[i] = digest[i];
        i = i + 1;
    }
    assert(bytes@ =~= digest@);
    bytes
}

/// Hashes `tag` to a point of prime order on the Jubjub curve.
///
/// The digest is BLAKE2s-256 of `GH_FIRST_BLOCK` followed by `tag`, with the
/// 8-byte `personalization`. It is read as a point and multiplied by the
/// cofactor; the result is that multiple, or `None` where the digest encodes
/// no point or the multiple is the identity. A point returned is of prime
/// order and is not the identity.
pub fn group_hash(tag: &[u8], personalization: &[u8]) -> (point: Option<Point>)
    requires
        personalization@.len() == 8,
        tag@.len() + GH_FIRST_BLOCK@.len() <= u64::MAX,
    ensures
        point_option_view(point) == group_hash_result(tag@, personalization@),
        point matches Some(q) ==> is_prime_order_point(q@),
        point matches Some(q) ==> is_point_encoding(q@),
{
    // A `v`-coordinate takes 255 bits, leaving the top bit for the sign of `u`.
    let bits = base_field_bits();
    assert(bits == 255);

    let parameters = personalized_parameter_block(personalization);
    let mut state = blake2s_with_parameter_block(&parameters);
    blake2s_update(&mut state, GH_FIRST_BLOCK.as_slice());
    blake2s_update(&mut state, tag);
    assert(blake2s_absorbed(state) =~= GH_FIRST_BLOCK@ + tag@);
    let digest = blake2s_finalize(state);
    let bytes = digest_array(&digest);
    point_from_digest(&bytes)
}

} // verus!

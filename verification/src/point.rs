//! Points of the Jubjub curve, held by their 32-byte encoding.
//!
//! The curve arithmetic is done by the `jubjub` crate. A point travels through
//! the verified code as the canonical encoding that `AffinePoint::to_bytes`
//! gives it: the little-endian `v`-coordinate with the parity of the
//! `u`-coordinate in the top bit. That encoding is one-to-one, so two points
//! are equal exactly when their encodings are.
use jubjub::AffinePoint;
use vstd::prelude::*;

verus! {

/// A point of the Jubjub curve, by its canonical 32-byte encoding.
#[derive(Clone, Copy, Debug, PartialEq, Eq)]
pub struct Point {
    pub bytes: [u8; 32],
}

impl View for Point {
    type V = Seq<u8>;

    open spec fn view(&self) -> Seq<u8> {
        self.bytes@
    }
}

/// What `AffinePoint::from_bytes_pre_zip216_compatibility` reads from
/// `bytes`: `None` where they encode no point of the curve, else the
/// canonical encoding (`to_bytes`) of the point they encode.
pub uninterp spec fn jubjub_decode(bytes: Seq<u8>) -> Option<Seq<u8>>;

/// The canonical encoding of `[8]P` (`mul_by_cofactor`), where `P` is the
/// point that `encoding` decodes to.
pub uninterp spec fn jubjub_mul_by_cofactor(encoding: Seq<u8>) -> Seq<u8>;

/// The canonical encoding of the identity `(0, 1)`: the byte 1, then 31 zero
/// bytes.
pub open spec fn identity_encoding() -> Seq<u8> {
    seq![1u8].add(Seq::new(31, |i: int| 0u8))
}

/// Whether `bytes` hold the canonical encoding of a point of the curve.
pub open spec fn is_point_encoding(bytes: Seq<u8>) -> bool {
    jubjub_decode(bytes) == Some(bytes)
}

/// Reads a point with `AffinePoint::from_bytes_pre_zip216_compatibility`
/// and re-encodes it with `AffinePoint::to_bytes`.
///
/// Trusted: the result is what `jubjub_decode` names, and a point that comes
/// out decodes to itself, since `to_bytes` gives canonical encodings.
#[verifier::external_body]
pub(crate) fn decode_point(bytes: [u8; 32]) -> (point: Option<Point>)
    ensures
        match point {
            Some(p) => jubjub_decode(bytes@) == Some(p@) && is_point_encoding(p@),
            None => jubjub_decode(bytes@) is None,
        },
{
    match Option::<AffinePoint>::from(AffinePoint::from_bytes_pre_zip216_compatibility(bytes)) {
        Some(p) => Some(Point { bytes: p.to_bytes() }),
        None => None,
    }
}

/// Calls `AffinePoint::mul_by_cofactor` on the point that `p` encodes, and
/// encodes the product with `AffinePoint::to_bytes`.
///
/// Trusted: the result is what `jubjub_mul_by_cofactor` names, and, being
/// `to_bytes` of a point of the curve, it decodes to itself. Reading `p`
/// back panics unless it encodes a point; `requires` leaves that out.
#[verifier::external_body]
pub(crate) fn mul_by_cofactor(p: &Point) -> (product: Point)
    requires
        jubjub_decode(p@) is Some,
    ensures
        product@ == jubjub_mul_by_cofactor(p@),
        is_point_encoding(product@),
{
    let point = AffinePoint::from_bytes_pre_zip216_compatibility(p.bytes).unwrap();
    Point { bytes: AffinePoint::from(point.mul_by_cofactor()).to_bytes() }
}

/// The identity `(0, 1)`: the byte 1 (`v = 1`), then zero bytes, the sign
/// bit of `u = 0` being clear.
pub(crate) fn identity_point() -> (identity: Point)
    ensures
        identity@ == identity_encoding(),
{
    let identity = Point {
        bytes: [
            1u8, 0, 0, 0, 0, 0, 0, 0, 0, 0, 0, 0, 0, 0, 0, 0,
            0, 0, 0, 0, 0, 0, 0, 0, 0, 0, 0, 0, 0, 0, 0, 0,
        ],
    };
    assert(identity@ =~= identity_encoding());
    identity
}

/// Calls `PrimeField::NUM_BITS` on the base field of Jubjub (the scalar
/// field of BLS12-381).
///
/// Trusted: `bls12_381` sets it to 255, so that a `v`-coordinate leaves the
/// top bit of its 32-byte encoding free for the sign of `u`.
#[verifier::external_body]
pub(crate) fn base_field_bits() -> (bits: u32)
    ensures
        bits == 255,
{
    <jubjub::Base as ff::PrimeField>::NUM_BITS
}

/// Whether two points are the same point, by their encodings.
pub(crate) fn same_point(a: &Point, b: &Point) -> (same: bool)
    ensures
        same == (a@ == b@),
{
    let mut i: usize = 0;
    while i < 32
        invariant
            i <= 32,
            forall|j: int| 0 <= j < i ==> a.bytes@[j] == b.bytes@[j],
        decreases 32 - i,
    {
        if a.bytes[i] != b.bytes[i] {
            return false;
        }
        i = i + 1;
    }
    assert(a@ =~= b@);
    true
}

} // verus!

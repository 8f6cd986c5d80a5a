//! Group elements of Curve25519's prime-order subgroup.
//!
//! `Point` wraps `curve25519_dalek::edwards::SubgroupPoint`. Contracts speak
//! of a point through `point_bytes`, its canonical compressed encoding (the
//! `y` coordinate with a sign bit), which determines the point: the wrapped
//! library compares points exactly as their encodings compare.

use vstd::prelude::*;
use vstd::std_specs::cmp::PartialEqSpec;

verus! {

#[verifier::external_type_specification]
#[verifier::external_body]
pub struct ExSubgroupPoint(curve25519_dalek::edwards::SubgroupPoint);

/// The canonical compressed encoding of a subgroup point, as
/// `group::GroupEncoding::to_bytes` returns it: a function of the point
/// alone.
pub uninterp spec fn point_bytes(p: curve25519_dalek::edwards::SubgroupPoint) -> Seq<u8>;

/// The encoding of the sum of the points with the given encodings, as the
/// group addition of `curve25519_dalek::edwards::SubgroupPoint` computes it.
pub uninterp spec fn point_sum(a: Seq<u8>, b: Seq<u8>) -> Seq<u8>;

/// Encoding of the canonical base point of the prime-order subgroup: the
/// little-endian bytes of the `y` coordinate `4/5 mod p`, with sign bit zero.
pub open spec fn generator_enc() -> Seq<u8> {
    seq![
        0x58u8, 0x66, 0x66, 0x66, 0x66, 0x66, 0x66, 0x66,
        0x66, 0x66, 0x66, 0x66, 0x66, 0x66, 0x66, 0x66,
        0x66, 0x66, 0x66, 0x66, 0x66, 0x66, 0x66, 0x66,
        0x66, 0x66, 0x66, 0x66, 0x66, 0x66, 0x66, 0x66,
    ]
}

/// Encoding of the group's neutral element: the little-endian bytes of
/// `y == 1`, with sign bit zero.
pub open spec fn identity_enc() -> Seq<u8> {
    seq![
        0x01u8, 0x00, 0x00, 0x00, 0x00, 0x00, 0x00, 0x00,
        0x00, 0x00, 0x00, 0x00, 0x00, 0x00, 0x00, 0x00,
        0x00, 0x00, 0x00, 0x00, 0x00, 0x00, 0x00, 0x00,
        0x00, 0x00, 0x00, 0x00, 0x00, 0x00, 0x00, 0x00,
    ]
}

/// Relies on `group::Group::generator` for `SubgroupPoint`: the Ed25519 base
/// point, whose compressed encoding is the library's constant
/// `ED25519_BASEPOINT_COMPRESSED`.
#[verifier::external_body]
fn dalek_generator() -> (r: curve25519_dalek::edwards::SubgroupPoint)
    ensures
        point_bytes(r) == generator_enc(),
{
    <curve25519_dalek::edwards::SubgroupPoint as group::Group>::generator()
}

/// Relies on `group::Group::identity` for `SubgroupPoint`: the neutral
/// element, the point with `y == 1`, whose compressed encoding is `1`
/// followed by zero bytes.
#[verifier::external_body]
fn dalek_identity() -> (r: curve25519_dalek::edwards::SubgroupPoint)
    ensures
        point_bytes(r) == identity_enc(),
{
    <curve25519_dalek::edwards::SubgroupPoint as group::Group>::identity()
}

/// Relies on `PartialEq` for `SubgroupPoint`: points compare equal exactly
/// when they are the same group element, that is, when their canonical
/// encodings agree.
#[verifier::external_body]
fn dalek_point_eq(
    a: &curve25519_dalek::edwards::SubgroupPoint,
    b: &curve25519_dalek::edwards::SubgroupPoint,
) -> (r: bool)
    ensures
        r == (point_bytes(*a) == point_bytes(*b)),
{
    a == b
}

/// Relies on `Add` for `SubgroupPoint`, the Edwards group law: the sum is a
/// function of the two points, and the group identity is neutral for it.
#[verifier::external_body]
fn dalek_point_add(
    a: &curve25519_dalek::edwards::SubgroupPoint,
    b: &curve25519_dalek::edwards::SubgroupPoint,
) -> (r: curve25519_dalek::edwards::SubgroupPoint)
    ensures
        point_bytes(r) == point_sum(point_bytes(*a), point_bytes(*b)),
        point_bytes(*a) == identity_enc() ==> point_bytes(r) == point_bytes(*b),
        point_bytes(*b) == identity_enc() ==> point_bytes(r) == point_bytes(*a),
{
    a + b
}

/// Relies on `group::GroupEncoding::to_bytes` for `SubgroupPoint`: the
/// canonical compressed encoding, the very function whose result
/// `point_bytes` names.
#[verifier::external_body]
fn dalek_point_to_bytes(p: &curve25519_dalek::edwards::SubgroupPoint) -> (r: Vec<u8>)
    ensures
        r@ == point_bytes(*p),
{
    <curve25519_dalek::edwards::SubgroupPoint as group::GroupEncoding>::to_bytes(p).to_vec()
}

/// An element of the prime-order subgroup of Curve25519's Edwards group.
#[derive(Debug)]
pub struct Point {
    inner: curve25519_dalek::edwards::SubgroupPoint,
}

impl Point {
    /// The canonical compressed encoding of this point.
    pub closed spec fn model(&self) -> Seq<u8> {
        point_bytes(self.inner)
    }

    /// The canonical base point of the subgroup.
    pub fn generator() -> (r: Point)
        ensures
            r.model() == generator_enc(),
    {
        Point { inner: dalek_generator() }
    }

    /// The neutral element of the group.
    pub fn identity() -> (r: Point)
        ensures
            r.model() == identity_enc(),
    {
        Point { inner: dalek_identity() }
    }

    /// The canonical 32-byte compressed encoding of this point.
    pub fn encode(&self) -> (r: Vec<u8>)
        ensures
            r@ == self.model(),
    {
        dalek_point_to_bytes(&self.inner)
    }

    /// Group addition. The identity is neutral on either side.
    pub fn add(&self, other: &Point) -> (r: Point)
        ensures
            r.model() == point_sum(self.model(), other.model()),
            self.model() == identity_enc() ==> r.model() == other.model(),
            other.model() == identity_enc() ==> r.model() == self.model(),
    {
        Point { inner: dalek_point_add(&self.inner, &other.inner) }
    }
}

impl PartialEq for Point {
    fn eq(&self, other: &Self) -> (r: bool) {
        dalek_point_eq(&self.inner, &other.inner)
    }
}

impl vstd::std_specs::cmp::PartialEqSpecImpl for Point {
    open spec fn obeys_eq_spec() -> bool {
        true
    }

    open spec fn eq_spec(&self, other: &Point) -> bool {
        self.model() == other.model()
    }
}

/// The base point is not the neutral element: their encodings differ in the
/// first byte.
pub proof fn lemma_generator_enc_not_identity_enc()
    ensures
        generator_enc() != identity_enc(),
{
    assert(generator_enc()[0] == 0x58);
    assert(identity_enc()[0] == 0x01);
}

} // verus!

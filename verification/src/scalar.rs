//! Scalars: residues modulo the order of Curve25519's prime-order subgroup.
//!
//! `CurveScalar` wraps `curve25519_dalek::scalar::Scalar`. Contracts speak of a
//! scalar through `scalar_bytes`, its canonical little-endian byte encoding
//! (`Scalar::to_bytes`), which determines the residue: the wrapped library
//! keeps scalars reduced and compares them byte for byte.

use vstd::prelude::*;
use vstd::std_specs::cmp::PartialEqSpec;

verus! {

#[verifier::external_type_specification]
#[verifier::external_body]
pub struct ExDalekScalar(curve25519_dalek::scalar::Scalar);

/// The canonical little-endian encoding of a scalar, as
/// `curve25519_dalek::scalar::Scalar::to_bytes` returns it: a function of
/// the scalar alone.
pub uninterp spec fn scalar_bytes(s: curve25519_dalek::scalar::Scalar) -> Seq<u8>;

/// The encoding of the sum, modulo the group order, of the scalars with the
/// given encodings, as scalar addition computes it.
pub uninterp spec fn scalar_sum(a: Seq<u8>, b: Seq<u8>) -> Seq<u8>;

/// The encoding of the product, modulo the group order, of the scalars with
/// the given encodings, as scalar multiplication computes it.
pub uninterp spec fn scalar_prod(a: Seq<u8>, b: Seq<u8>) -> Seq<u8>;

/// Encoding of the additive identity: all zero bytes.
pub open spec fn zero_enc() -> Seq<u8> {
    Seq::new(32, |i: int| 0u8)
}

/// Encoding of the multiplicative identity: one, then zero bytes.
pub open spec fn one_enc() -> Seq<u8> {
    Seq::new(32, |i: int| if i == 0 { 1u8 } else { 0u8 })
}

/// Relies on `Scalar::ZERO`: the scalar zero, whose bytes are all zero.
#[verifier::external_body]
fn dalek_scalar_zero() -> (r: curve25519_dalek::scalar::Scalar)
    ensures
        scalar_bytes(r) == zero_enc(),
{
    curve25519_dalek::scalar::Scalar::ZERO
}

/// Relies on `Scalar::ONE`: the scalar one, whose bytes are one followed by
/// zeros.
#[verifier::external_body]
fn dalek_scalar_one() -> (r: curve25519_dalek::scalar::Scalar)
    ensures
        scalar_bytes(r) == one_enc(),
{
    curve25519_dalek::scalar::Scalar::ONE
}

/// Relies on `PartialEq` for `Scalar`: scalars compare equal exactly when
/// their canonical byte encodings agree.
#[verifier::external_body]
fn dalek_scalar_eq(
    a: &curve25519_dalek::scalar::Scalar,
    b: &curve25519_dalek::scalar::Scalar,
) -> (r: bool)
    ensures
        r == (scalar_bytes(*a) == scalar_bytes(*b)),
{
    a == b
}

/// Relies on `Add` for `Scalar`, addition modulo the group order: the sum is
/// a function of the two scalars, and zero is neutral for it.
#[verifier::external_body]
fn dalek_scalar_add(
    a: &curve25519_dalek::scalar::Scalar,
    b: &curve25519_dalek::scalar::Scalar,
) -> (r: curve25519_dalek::scalar::Scalar)
    ensures
        scalar_bytes(r) == scalar_sum(scalar_bytes(*a), scalar_bytes(*b)),
        scalar_bytes(*a) == zero_enc() ==> scalar_bytes(r) == scalar_bytes(*b),
        scalar_bytes(*b) == zero_enc() ==> scalar_bytes(r) == scalar_bytes(*a),
{
    a + b
}

/// Relies on `Mul` for `Scalar`, multiplication modulo the group order: the
/// product is a function of the two scalars, and one is neutral for it.
#[verifier::external_body]
fn dalek_scalar_mul(
    a: &curve25519_dalek::scalar::Scalar,
    b: &curve25519_dalek::scalar::Scalar,
) -> (r: curve25519_dalek::scalar::Scalar)
    ensures
        scalar_bytes(r) == scalar_prod(scalar_bytes(*a), scalar_bytes(*b)),
        scalar_bytes(*a) == one_enc() ==> scalar_bytes(r) == scalar_bytes(*b),
        scalar_bytes(*b) == one_enc() ==> scalar_bytes(r) == scalar_bytes(*a),
{
    a * b
}

/// Relies on `Scalar::to_bytes`: the canonical little-endian encoding, the
/// very function whose result `scalar_bytes` names.
#[verifier::external_body]
fn dalek_scalar_to_bytes(s: &curve25519_dalek::scalar::Scalar) -> (r: Vec<u8>)
    ensures
        r@ == scalar_bytes(*s),
{
    s.to_bytes().to_vec()
}

/// A residue modulo the order of the prime-order subgroup.
#[derive(Debug)]
pub struct CurveScalar {
    inner: curve25519_dalek::scalar::Scalar,
}

impl CurveScalar {
    /// The canonical little-endian encoding of this scalar.
    pub closed spec fn model(&self) -> Seq<u8> {
        scalar_bytes(self.inner)
    }

    /// The additive identity.
    pub fn zero() -> (r: CurveScalar)
        ensures
            r.model() == zero_enc(),
    {
        CurveScalar { inner: dalek_scalar_zero() }
    }

    /// The multiplicative identity.
    pub fn one() -> (r: CurveScalar)
        ensures
            r.model() == one_enc(),
    {
        CurveScalar { inner: dalek_scalar_one() }
    }

    /// The canonical 32-byte little-endian encoding of this scalar.
    pub fn encode(&self) -> (r: Vec<u8>)
        ensures
            r@ == self.model(),
    {
        dalek_scalar_to_bytes(&self.inner)
    }

    /// Addition modulo the group order. Zero is neutral on either side.
    pub fn add(&self, other: &CurveScalar) -> (r: CurveScalar)
        ensures
            r.model() == scalar_sum(self.model(), other.model()),
            self.model() == zero_enc() ==> r.model() == other.model(),
            other.model() == zero_enc() ==> r.model() == self.model(),
    {
        CurveScalar { inner: dalek_scalar_add(&self.inner, &other.inner) }
    }

    /// Multiplication modulo the group order. One is neutral on either side.
    pub fn mul(&self, other: &CurveScalar) -> (r: CurveScalar)
        ensures
            r.model() == scalar_prod(self.model(), other.model()),
            self.model() == one_enc() ==> r.model() == other.model(),
            other.model() == one_enc() ==> r.model() == self.model(),
    {
        CurveScalar { inner: dalek_scalar_mul(&self.inner, &other.inner) }
    }
}

impl PartialEq for CurveScalar {
    fn eq(&self, other: &Self) -> (r: bool) {
        dalek_scalar_eq(&self.inner, &other.inner)
    }
}

impl vstd::std_specs::cmp::PartialEqSpecImpl for CurveScalar {
    open spec fn obeys_eq_spec() -> bool {
        true
    }

    open spec fn eq_spec(&self, other: &CurveScalar) -> bool {
        self.model() == other.model()
    }
}

} // verus!

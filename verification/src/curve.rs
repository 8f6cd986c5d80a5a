//! The concrete realization of the curve capability for Curve25519.
//!
//! `Curve25519` is a stateless marker: it carries no data and only selects,
//! at compile time, the constant tables and the point and scalar types of
//! this curve. The subgroup order and field modulus byte tables are fixed
//! here, and the lemmas prove their decoded values in closed form:
//! `2^252 + 27742317777372353535851937790883648493` and `2^255 - 19`.

use vstd::prelude::*;
use vstd::arithmetic::power2::{pow2, lemma_pow2_adds, lemma2_to64, lemma2_to64_rest};
use crate::abstraction::TrCurve;
use crate::codec::{be_decode, be_decode_upto};
use crate::order::OrderValue;
use crate::point::{Point, generator_enc, identity_enc, lemma_generator_enc_not_identity_enc};
use crate::scalar::{CurveScalar, one_enc, zero_enc};

verus! {

/// Marker type selecting the Curve25519 realization.
#[derive(Clone, Debug, Default, PartialEq, Eq, Structural)]
pub struct Curve25519 {}

/// The 32-byte big-endian encoding of the order of Curve25519's prime-order
/// subgroup.
pub open spec fn curve_order_be() -> Seq<u8> {
    seq![
        0x10u8, 0x00, 0x00, 0x00, 0x00, 0x00, 0x00, 0x00,
        0x00, 0x00, 0x00, 0x00, 0x00, 0x00, 0x00, 0x00,
        0x14, 0xde, 0xf9, 0xde, 0xa2, 0xf7, 0x9c, 0xd6,
        0x58, 0x12, 0x63, 0x1a, 0x5c, 0xf5, 0xd3, 0xed,
    ]
}

/// The 32-byte big-endian encoding of the modulus of the field Curve25519
/// is defined over.
pub open spec fn field_order_be() -> Seq<u8> {
    seq![
        0x7fu8, 0xff, 0xff, 0xff, 0xff, 0xff, 0xff, 0xff,
        0xff, 0xff, 0xff, 0xff, 0xff, 0xff, 0xff, 0xff,
        0xff, 0xff, 0xff, 0xff, 0xff, 0xff, 0xff, 0xff,
        0xff, 0xff, 0xff, 0xff, 0xff, 0xff, 0xff, 0xed,
    ]
}

/// Concrete powers of two used to state the orders in closed form.
proof fn lemma_pow2_values()
    ensures
        pow2(252) == 0x1000000000000000000000000000000000000000000000000000000000000000,
        pow2(255) == 0x8000000000000000000000000000000000000000000000000000000000000000,
{
    lemma2_to64();
    lemma2_to64_rest();
    lemma_pow2_adds(64, 64);
    assert(pow2(128) == 0x100000000000000000000000000000000);
    lemma_pow2_adds(128, 64);
    assert(pow2(192) == 0x1000000000000000000000000000000000000000000000000);
    lemma_pow2_adds(192, 60);
    lemma_pow2_adds(252, 3);
}

/// The subgroup-order table decodes to exactly
/// `2^252 + 27742317777372353535851937790883648493`.
#[verifier::rlimit(60)]
pub proof fn lemma_curve_order_value()
    ensures
        be_decode(curve_order_be()) == pow2(252) + 27742317777372353535851937790883648493,
{
    reveal_with_fuel(be_decode_upto, 33);
    assert(be_decode(curve_order_be())
        == 0x1000000000000000000000000000000014def9dea2f79cd65812631a5cf5d3ed);
    lemma_pow2_values();
}

/// The field-modulus table decodes to exactly `2^255 - 19`.
#[verifier::rlimit(60)]
pub proof fn lemma_field_order_value()
    ensures
        be_decode(field_order_be()) == pow2(255) - 19,
{
    reveal_with_fuel(be_decode_upto, 33);
    assert(be_decode(field_order_be())
        == 0x7fffffffffffffffffffffffffffffffffffffffffffffffffffffffffffffed);
    lemma_pow2_values();
}

impl TrCurve for Curve25519 {
    type PointT = Point;

    type ScalarT = CurveScalar;

    open spec fn spec_curve_order() -> nat {
        be_decode(curve_order_be())
    }

    open spec fn spec_field_order() -> nat {
        be_decode(field_order_be())
    }

    open spec fn spec_generator() -> Seq<u8> {
        generator_enc()
    }

    open spec fn spec_identity() -> Seq<u8> {
        identity_enc()
    }

    open spec fn spec_zero() -> Seq<u8> {
        zero_enc()
    }

    open spec fn spec_one() -> Seq<u8> {
        one_enc()
    }

    open spec fn point_model(p: &Point) -> Seq<u8> {
        p.model()
    }

    open spec fn scalar_model(s: &CurveScalar) -> Seq<u8> {
        s.model()
    }

    proof fn lemma_generator_not_identity() {
        lemma_generator_enc_not_identity_enc();
    }

    fn curve_order_bytes() -> (r: Vec<u8>) {
        let mut v: Vec<u8> = Vec::new();
        v.push(0x10);
        v.push(0x00);
        v.push(0x00);
        v.push(0x00);
        v.push(0x00);
        v.push(0x00);
        v.push(0x00);
        v.push(0x00);
        v.push(0x00);
        v.push(0x00);
        v.push(0x00);
        v.push(0x00);
        v.push(0x00);
        v.push(0x00);
        v.push(0x00);
        v.push(0x00);
        v.push(0x14);
        v.push(0xde);
        v.push(0xf9);
        v.push(0xde);
        v.push(0xa2);
        v.push(0xf7);
        v.push(0x9c);
        v.push(0xd6);
        v.push(0x58);
        v.push(0x12);
        v.push(0x63);
        v.push(0x1a);
        v.push(0x5c);
        v.push(0xf5);
        v.push(0xd3);
        v.push(0xed);
        proof {
            assert(v@ =~= curve_order_be());
        }
        v
    }

    fn field_order_bytes() -> (r: Vec<u8>) {
        let mut v: Vec<u8> = Vec::new();
        v.push(0x7f);
        v.push(0xff);
        v.push(0xff);
        v.push(0xff);
        v.push(0xff);
        v.push(0xff);
        v.push(0xff);
        v.push(0xff);
        v.push(0xff);
        v.push(0xff);
        v.push(0xff);
        v.push(0xff);
        v.push(0xff);
        v.push(0xff);
        v.push(0xff);
        v.push(0xff);
        v.push(0xff);
        v.push(0xff);
        v.push(0xff);
        v.push(0xff);
        v.push(0xff);
        v.push(0xff);
        v.push(0xff);
        v.push(0xff);
        v.push(0xff);
        v.push(0xff);
        v.push(0xff);
        v.push(0xff);
        v.push(0xff);
        v.push(0xff);
        v.push(0xff);
        v.push(0xed);
        proof {
            assert(v@ =~= field_order_be());
        }
        v
    }

    fn curve_order() -> (r: OrderValue) {
        let b = Curve25519::curve_order_bytes();
        OrderValue::from_be_bytes(&b)
    }

    fn field_order() -> (r: OrderValue) {
        let b = Curve25519::field_order_bytes();
        OrderValue::from_be_bytes(&b)
    }

    fn generator() -> (r: Point) {
        Point::generator()
    }

    fn identity() -> (r: Point) {
        Point::identity()
    }

    fn zero() -> (r: CurveScalar) {
        CurveScalar::zero()
    }

    fn one() -> (r: CurveScalar) {
        CurveScalar::one()
    }
}

} // verus!


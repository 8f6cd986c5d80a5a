//! The curve capability: what every curve realization must provide.
//!
//! Generic protocol code is written against this trait alone. A realization
//! names its point and scalar types, fixes the subgroup order and the field
//! modulus together with their 32-byte big-endian encodings, and supplies
//! the canonical elements: the generator, the group identity, and the
//! scalar zero and one. The contracts tie each accessor to one spec-level
//! constant of the realization, so repeated calls are interchangeable, and
//! tie the byte tables to the decoded orders.

use vstd::prelude::*;
use crate::codec::be_decode;
use crate::order::OrderValue;

verus! {

/// A curve capability: canonical constants of one elliptic-curve group.
pub trait TrCurve {
    /// The group element type of the realization.
    type PointT;

    /// The scalar (field element) type of the realization.
    type ScalarT;

    /// The prime order of the cryptographic subgroup.
    spec fn spec_curve_order() -> nat;

    /// The prime modulus of the field the curve is defined over.
    spec fn spec_field_order() -> nat;

    /// Model (canonical encoding) of the subgroup's base point.
    spec fn spec_generator() -> Seq<u8>;

    /// Model (canonical encoding) of the group's neutral element.
    spec fn spec_identity() -> Seq<u8>;

    /// Model (canonical encoding) of the scalar additive identity.
    spec fn spec_zero() -> Seq<u8>;

    /// Model (canonical encoding) of the scalar multiplicative identity.
    spec fn spec_one() -> Seq<u8>;

    /// The model of a point value: its canonical encoding.
    spec fn point_model(p: &Self::PointT) -> Seq<u8>;

    /// The model of a scalar value: its canonical encoding.
    spec fn scalar_model(s: &Self::ScalarT) -> Seq<u8>;

    /// The base point must not be the neutral element.
    proof fn lemma_generator_not_identity()
        ensures
            Self::spec_generator() != Self::spec_identity(),
    ;

    /// The 32-byte big-endian encoding of the subgroup order; decoding it
    /// yields exactly `spec_curve_order()`.
    fn curve_order_bytes() -> (r: Vec<u8>)
        ensures
            r@.len() == 32,
            be_decode(r@) == Self::spec_curve_order(),
    ;

    /// The 32-byte big-endian encoding of the field modulus; decoding it
    /// yields exactly `spec_field_order()`.
    fn field_order_bytes() -> (r: Vec<u8>)
        ensures
            r@.len() == 32,
            be_decode(r@) == Self::spec_field_order(),
    ;

    /// The subgroup order, decoded. Every call returns a carrier of the same
    /// value in canonical form, so any two results compare equal.
    fn curve_order() -> (r: OrderValue)
        ensures
            r.wf(),
            r.value() == Self::spec_curve_order(),
    ;

    /// The field modulus, decoded. Every call returns a carrier of the same
    /// value in canonical form, so any two results compare equal.
    fn field_order() -> (r: OrderValue)
        ensures
            r.wf(),
            r.value() == Self::spec_field_order(),
    ;

    /// The canonical base point of the subgroup.
    fn generator() -> (r: Self::PointT)
        ensures
            Self::point_model(&r) == Self::spec_generator(),
    ;

    /// The group's neutral element.
    fn identity() -> (r: Self::PointT)
        ensures
            Self::point_model(&r) == Self::spec_identity(),
    ;

    /// The scalar additive identity.
    fn zero() -> (r: Self::ScalarT)
        ensures
            Self::scalar_model(&r) == Self::spec_zero(),
    ;

    /// The scalar multiplicative identity.
    fn one() -> (r: Self::ScalarT)
        ensures
            Self::scalar_model(&r) == Self::spec_one(),
    ;
}

} // verus!

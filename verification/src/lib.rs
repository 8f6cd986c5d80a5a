//! Curve-agnostic elliptic-curve constants with verified byte-level codecs.
//!
//! The crate defines an abstraction over elliptic-curve groups (a curve
//! capability trait), and one concrete realization for Curve25519's
//! prime-order subgroup: canonical constants (group order, field modulus,
//! generator, identity, zero, one) together with proved big-endian
//! encode/decode relations between the byte tables and the integer values.

pub mod abstraction;
pub mod codec;
pub mod curve;
pub mod order;
pub mod point;
pub mod scalar;

pub use abstraction::TrCurve;
pub use curve::Curve25519;
pub use order::OrderValue;
pub use point::Point;
pub use scalar::CurveScalar;

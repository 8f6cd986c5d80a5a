use svarog_curve25519::abstraction::TrCurve;
use svarog_curve25519::curve::Curve25519;
use svarog_curve25519::order::OrderValue;

/// The 32-byte big-endian encoding of `2^252 + 27742317777372353535851937790883648493`,
/// computed from that closed form: the two summands occupy disjoint byte
/// ranges, so the sum is their juxtaposition.
fn curve_order_expected() -> Vec<u8> {
    let c: u128 = 27742317777372353535851937790883648493;
    let mut expected = [0u8; 32];
    expected[0] = 0x10;
    expected[16..32].copy_from_slice(&c.to_be_bytes());
    expected.to_vec()
}

/// The 32-byte big-endian encoding of `2^255 - 19`, computed from that
/// closed form as `(2^127 - 1) * 2^128 + (2^128 - 19)`.
fn field_order_expected() -> Vec<u8> {
    let high: u128 = (1u128 << 127) - 1;
    let low: u128 = u128::MAX - 18;
    let mut expected = [0u8; 32];
    expected[0..16].copy_from_slice(&high.to_be_bytes());
    expected[16..32].copy_from_slice(&low.to_be_bytes());
    expected.to_vec()
}

#[test]
fn curve_order_bytes_decode_to_closed_form() {
    assert_eq!(Curve25519::curve_order_bytes(), curve_order_expected());
}

#[test]
fn field_order_bytes_decode_to_closed_form() {
    assert_eq!(Curve25519::field_order_bytes(), field_order_expected());
}

#[test]
fn order_tables_differ() {
    assert_ne!(Curve25519::curve_order_bytes(), Curve25519::field_order_bytes());
}

#[test]
fn curve_order_matches_its_bytes() {
    let decoded = OrderValue::from_be_bytes(&Curve25519::curve_order_bytes());
    assert_eq!(Curve25519::curve_order(), decoded);
}

#[test]
fn field_order_matches_its_bytes() {
    let decoded = OrderValue::from_be_bytes(&Curve25519::field_order_bytes());
    assert_eq!(Curve25519::field_order(), decoded);
}

#[test]
fn curve_order_round_trips_to_its_bytes() {
    let encoded = Curve25519::curve_order().to_be_bytes(32);
    assert_eq!(encoded, Some(Curve25519::curve_order_bytes()));
}

#[test]
fn field_order_round_trips_to_its_bytes() {
    let encoded = Curve25519::field_order().to_be_bytes(32);
    assert_eq!(encoded, Some(Curve25519::field_order_bytes()));
}

#[test]
fn curve_order_needs_all_32_bytes() {
    assert_eq!(Curve25519::curve_order().to_be_bytes(31), None);
}

#[test]
fn curve_order_pads_to_wider_widths() {
    let wide = Curve25519::curve_order().to_be_bytes(40).unwrap();
    assert_eq!(wide.len(), 40);
    assert_eq!(wide[0..8], [0u8; 8]);
    assert_eq!(wide[8..40].to_vec(), Curve25519::curve_order_bytes());
}

#[test]
fn from_be_bytes_drops_leading_zeros() {
    let padded = OrderValue::from_be_bytes(&vec![0x00, 0x00, 0x07, 0x01]);
    let bare = OrderValue::from_be_bytes(&vec![0x07, 0x01]);
    assert_eq!(padded, bare);
    let other = OrderValue::from_be_bytes(&vec![0x07, 0x02]);
    assert_ne!(padded, other);
}

#[test]
fn zero_has_empty_canonical_form() {
    let zero = OrderValue::from_be_bytes(&vec![0x00, 0x00]);
    assert_eq!(zero, OrderValue::from_be_bytes(&vec![]));
    assert_eq!(zero.to_be_bytes(0), Some(vec![]));
    assert_eq!(zero.to_be_bytes(2), Some(vec![0x00, 0x00]));
}

#[test]
fn orders_are_referentially_stable() {
    assert_eq!(Curve25519::curve_order(), Curve25519::curve_order());
    assert_eq!(Curve25519::field_order(), Curve25519::field_order());
    assert_eq!(Curve25519::curve_order_bytes(), Curve25519::curve_order_bytes());
    assert_eq!(Curve25519::field_order_bytes(), Curve25519::field_order_bytes());
}

//! An arbitrary-precision non-negative integer held in canonical form.
//!
//! `OrderValue` carries the minimal big-endian base-256 digit string of a
//! value: no leading zero byte, and the empty string for zero. The canonical
//! form makes equality of values coincide with equality of digit strings, so
//! any two well-formed carriers of the same value are equal.

use vstd::prelude::*;
use vstd::std_specs::cmp::PartialEqSpec;
use crate::codec::{
    be_decode, be_min_encode, be_pad, lemma_be_round_trip, lemma_decode_cons_zero,
    lemma_min_encode_decode, strip_leading_zeros,
};

verus! {

/// A non-negative integer, stored as its minimal big-endian digit string.
#[derive(Debug)]
pub struct OrderValue {
    digits: Vec<u8>,
}

impl OrderValue {
    /// The stored digit string.
    pub closed spec fn digit_seq(&self) -> Seq<u8> {
        self.digits@
    }

    /// The integer this carrier denotes.
    pub closed spec fn value(&self) -> nat {
        be_decode(self.digits@)
    }

    /// Canonical form: no leading zero byte.
    pub closed spec fn wf(&self) -> bool {
        self.digits@.len() == 0 || self.digits@[0] != 0
    }

    /// Width of the stored digit string, in bytes.
    pub closed spec fn byte_len(&self) -> nat {
        self.digits@.len()
    }

    /// A well-formed carrier stores exactly the minimal encoding of its value.
    pub proof fn lemma_canonical_digits(&self)
        requires
            self.wf(),
        ensures
            self.digit_seq() == be_min_encode(self.value()),
            self.byte_len() == be_min_encode(self.value()).len(),
    {
        lemma_min_encode_decode(self.digits@);
        assert(strip_leading_zeros(self.digits@) == self.digits@);
    }

    /// Two well-formed carriers of one value store the same digit string, so
    /// comparing them with `==` returns true.
    pub proof fn lemma_value_determines(a: &OrderValue, b: &OrderValue)
        requires
            a.wf(),
            b.wf(),
            a.value() == b.value(),
        ensures
            a.digit_seq() == b.digit_seq(),
            a.eq_spec(b),
    {
        a.lemma_canonical_digits();
        b.lemma_canonical_digits();
    }

    /// Decode a big-endian digit string, of any width, into its canonical
    /// carrier. Leading zero bytes are dropped; the value is kept exactly.
    pub fn from_be_bytes(b: &Vec<u8>) -> (r: OrderValue)
        ensures
            r.wf(),
            r.value() == be_decode(b@),
    {
        let n = b.len();
        let mut i: usize = 0;
        proof {
            assert(b@.subrange(0, n as int) =~= b@);
        }
        while i < n && b[i] == 0
            invariant
                i <= n,
                n == b@.len(),
                be_decode(b@.subrange(i as int, n as int)) == be_decode(b@),
                forall|k: int| 0 <= k < i ==> b@[k] == 0,
            decreases n - i,
        {
            proof {
                let s = b@.subrange(i as int, n as int);
                let s2 = b@.subrange(i as int + 1, n as int);
                assert(s =~= seq![0u8] + s2);
                lemma_decode_cons_zero(s2);
            }
            i += 1;
        }
        let mut v: Vec<u8> = Vec::new();
        let mut j: usize = i;
        while j < n
            invariant
                i <= j <= n,
                n == b@.len(),
                v@ == b@.subrange(i as int, j as int),
            decreases n - j,
        {
            let x = b[j];
            v.push(x);
            proof {
                assert(v@ =~= b@.subrange(i as int, j as int + 1));
            }
            j += 1;
        }
        let r = OrderValue { digits: v };
        proof {
            assert(r.digits@ == b@.subrange(i as int, n as int));
            if i < n {
                assert(r.digits@[0] == b@[i as int]);
            }
        }
        r
    }

    /// Encode the value as a big-endian digit string of exactly `n` bytes,
    /// zero-padded on the left; `None` when the value needs more than `n`
    /// bytes.
    pub fn to_be_bytes(&self, n: usize) -> (r: Option<Vec<u8>>)
        requires
            self.wf(),
        ensures
            r is Some <==> self.byte_len() <= n,
            r is Some ==> r->0@ == be_pad(be_min_encode(self.value()), n as nat),
            r is Some ==> r->0@.len() == n,
    {
        let len = self.digits.len();
        if len > n {
            return None;
        }
        let mut v: Vec<u8> = Vec::new();
        let mut k: usize = 0;
        proof {
            assert(v@ =~= Seq::new(0, |q: int| 0u8));
        }
        while k < n - len
            invariant
                k <= n - len,
                len <= n,
                len == self.digits@.len(),
                v@ == Seq::new(k as nat, |q: int| 0u8),
            decreases n - len - k,
        {
            v.push(0);
            proof {
                assert(v@ =~= Seq::new((k + 1) as nat, |q: int| 0u8));
            }
            k += 1;
        }
        let mut j: usize = 0;
        while j < len
            invariant
                j <= len,
                len <= n,
                len == self.digits@.len(),
                v@ == Seq::new((n - len) as nat, |q: int| 0u8) + self.digits@.subrange(
                    0,
                    j as int,
                ),
            decreases len - j,
        {
            let x = self.digits[j];
            v.push(x);
            proof {
                assert(v@ =~= Seq::new((n - len) as nat, |q: int| 0u8) + self.digits@.subrange(
                    0,
                    j as int + 1,
                ));
            }
            j += 1;
        }
        proof {
            self.lemma_canonical_digits();
            assert(self.digits@.subrange(0, len as int) =~= self.digits@);
            assert(v@ =~= be_pad(be_min_encode(self.value()), n as nat));
        }
        Some(v)
    }

    /// The round trip owed by the canonical form: a carrier decoded from an
    /// `n`-byte string encodes back to that very string.
    pub proof fn lemma_round_trip(b: Seq<u8>, r: &OrderValue)
        requires
            r.wf(),
            r.value() == be_decode(b),
        ensures
            r.byte_len() <= b.len(),
            be_pad(be_min_encode(r.value()), b.len()) == b,
    {
        r.lemma_canonical_digits();
        lemma_be_round_trip(b);
    }
}

impl PartialEq for OrderValue {
    fn eq(&self, other: &Self) -> (r: bool) {
        let n = self.digits.len();
        if n != other.digits.len() {
            return false;
        }
        let mut i: usize = 0;
        while i < n
            invariant
                i <= n,
                n == self.digits@.len(),
                n == other.digits@.len(),
                forall|k: int| 0 <= k < i ==> self.digits@[k] == other.digits@[k],
            decreases n - i,
        {
            if self.digits[i] != other.digits[i] {
                return false;
            }
            i += 1;
        }
        proof {
            assert(self.digits@ =~= other.digits@);
        }
        true
    }
}

impl vstd::std_specs::cmp::PartialEqSpecImpl for OrderValue {
    open spec fn obeys_eq_spec() -> bool {
        true
    }

    open spec fn eq_spec(&self, other: &OrderValue) -> bool {
        self.digit_seq() == other.digit_seq()
    }
}

} // verus!

//! Big-endian byte codec for unsigned arbitrary-precision integers.
//!
//! `be_decode` gives the value of a most-significant-byte-first digit string;
//! `be_min_encode` gives the shortest big-endian digit string of a value (no
//! leading zero byte); `be_pad` left-pads a digit string with zero bytes to a
//! requested width. The lemmas relate the three: decoding inverts encoding,
//! and re-encoding a decoded string reproduces the string once it is padded
//! back to its original width.

use vstd::prelude::*;
use vstd::arithmetic::div_mod::lemma_fundamental_div_mod_converse;

verus! {

/// Value of the first `n` digits of `s`, read most-significant first.
pub open spec fn be_decode_upto(s: Seq<u8>, n: int) -> nat
    decreases n,
{
    if n <= 0 {
        0
    } else {
        be_decode_upto(s, n - 1) * 256 + (s[n - 1] as nat)
    }
}

/// Value of the whole digit string `s`, read most-significant first.
pub open spec fn be_decode(s: Seq<u8>) -> nat {
    be_decode_upto(s, s.len() as int)
}

/// Shortest big-endian digit string of `v`: empty for zero, and otherwise
/// carrying no leading zero byte.
pub open spec fn be_min_encode(v: nat) -> Seq<u8>
    decreases v,
{
    if v == 0 {
        Seq::empty()
    } else {
        be_min_encode(v / 256).push((v % 256) as u8)
    }
}

/// `s` left-padded with zero bytes to width `n` (or `s` itself when it is
/// already at least that wide).
pub open spec fn be_pad(s: Seq<u8>, n: nat) -> Seq<u8> {
    if s.len() >= n {
        s
    } else {
        Seq::new((n - s.len()) as nat, |i: int| 0u8) + s
    }
}

/// `s` with its leading zero bytes removed.
pub open spec fn strip_leading_zeros(s: Seq<u8>) -> Seq<u8>
    decreases s.len(),
{
    if s.len() == 0 {
        s
    } else if s[0] == 0 {
        strip_leading_zeros(s.drop_first())
    } else {
        s
    }
}

/// The first `n` digits decode alike in any two strings that agree on them.
proof fn lemma_upto_agree(s: Seq<u8>, t: Seq<u8>, n: int)
    requires
        forall|i: int| 0 <= i < n ==> s[i] == t[i],
    ensures
        be_decode_upto(s, n) == be_decode_upto(t, n),
    decreases n,
{
    if n > 0 {
        lemma_upto_agree(s, t, n - 1);
    }
}

/// Appending a digit multiplies the value by 256 and adds the digit.
pub proof fn lemma_be_decode_snoc(s: Seq<u8>, x: u8)
    ensures
        be_decode(s.push(x)) == be_decode(s) * 256 + x,
{
    let sx = s.push(x);
    assert(sx[s.len() as int] == x);
    lemma_upto_agree(sx, s, s.len() as int);
}

/// Decoding inverts minimal encoding.
pub proof fn lemma_be_decode_min_encode(v: nat)
    ensures
        be_decode(be_min_encode(v)) == v,
    decreases v,
{
    if v != 0 {
        lemma_be_decode_min_encode(v / 256);
        lemma_be_decode_snoc(be_min_encode(v / 256), (v % 256) as u8);
        assert(v / 256 * 256 + v % 256 == v) by {
            vstd::arithmetic::div_mod::lemma_fundamental_div_mod(v as int, 256);
        };
    }
}

/// A digit string decodes to zero exactly when every digit is zero.
proof fn lemma_decode_zero_iff(s: Seq<u8>)
    ensures
        be_decode(s) == 0 <==> (forall|i: int| 0 <= i < s.len() ==> s[i] == 0),
    decreases s.len(),
{
    if s.len() > 0 {
        let t = s.drop_last();
        let x = s.last();
        assert(s =~= t.push(x));
        lemma_be_decode_snoc(t, x);
        lemma_decode_zero_iff(t);
        if be_decode(s) == 0 {
            assert(forall|i: int| 0 <= i < t.len() ==> t[i] == 0);
            assert(forall|i: int| 0 <= i < s.len() ==> s[i] == #[trigger] t.push(x)[i]);
        } else if forall|i: int| 0 <= i < s.len() ==> s[i] == 0 {
            assert(forall|i: int| 0 <= i < t.len() ==> t[i] == #[trigger] s[i]);
            assert(x == 0);
        }
    }
}

/// Stripping leaves nothing exactly when every digit is zero.
proof fn lemma_strip_empty_iff(s: Seq<u8>)
    ensures
        strip_leading_zeros(s).len() == 0 <==> (forall|i: int| 0 <= i < s.len() ==> s[i] == 0),
    decreases s.len(),
{
    if s.len() > 0 {
        if s[0] == 0 {
            let t = s.drop_first();
            lemma_strip_empty_iff(t);
            if strip_leading_zeros(s).len() == 0 {
                assert forall|i: int| 0 <= i < s.len() implies s[i] == 0 by {
                    if i > 0 {
                        assert(s[i] == t[i - 1]);
                    }
                }
            } else {
                assert(!(forall|i: int| 0 <= i < t.len() ==> t[i] == 0));
                let w = choose|i: int| 0 <= i < t.len() && #[trigger] t[i] != 0;
                assert(s[w + 1] != 0);
            }
        }
    }
}

/// How stripping interacts with appending one digit at the end.
proof fn lemma_strip_push(t: Seq<u8>, x: u8)
    ensures
        strip_leading_zeros(t.push(x)) == if strip_leading_zeros(t).len() == 0 {
            if x == 0 {
                Seq::<u8>::empty()
            } else {
                seq![x]
            }
        } else {
            strip_leading_zeros(t).push(x)
        },
    decreases t.len(),
{
    if t.len() == 0 {
        assert(t.push(x) =~= seq![x]);
        if x == 0 {
            let e = seq![x].drop_first();
            assert(e =~= Seq::<u8>::empty());
            assert(strip_leading_zeros(seq![x]) == strip_leading_zeros(e));
            assert(strip_leading_zeros(e) =~= Seq::<u8>::empty());
        }
    } else if t[0] == 0 {
        assert((t.push(x)).drop_first() =~= t.drop_first().push(x));
        lemma_strip_push(t.drop_first(), x);
    }
}

/// Re-encoding a decoded string yields the string with its leading zeros
/// stripped.
pub proof fn lemma_min_encode_decode(s: Seq<u8>)
    ensures
        be_min_encode(be_decode(s)) == strip_leading_zeros(s),
    decreases s.len(),
{
    if s.len() == 0 {
        assert(strip_leading_zeros(s) =~= Seq::<u8>::empty());
    } else {
        let t = s.drop_last();
        let x = s.last();
        assert(s =~= t.push(x));
        lemma_be_decode_snoc(t, x);
        lemma_min_encode_decode(t);
        lemma_strip_push(t, x);
        lemma_decode_zero_iff(t);
        lemma_strip_empty_iff(t);
        let v = be_decode(s);
        if v == 0 {
            lemma_decode_zero_iff(s);
            lemma_strip_empty_iff(s);
        } else {
            lemma_fundamental_div_mod_converse(v as int, 256, be_decode(t) as int, x as int);
            assert(be_min_encode(v) == be_min_encode(be_decode(t)).push(x));
            if strip_leading_zeros(t).len() == 0 {
                assert(be_decode(t) == 0);
                assert(be_min_encode(v) =~= seq![x]);
            }
        }
    }
}

/// Stripping never lengthens a string.
proof fn lemma_strip_len(s: Seq<u8>)
    ensures
        strip_leading_zeros(s).len() <= s.len(),
    decreases s.len(),
{
    if s.len() > 0 && s[0] == 0 {
        lemma_strip_len(s.drop_first());
    }
}

/// Padding a stripped string back to its original width restores it.
proof fn lemma_pad_strip(s: Seq<u8>)
    ensures
        be_pad(strip_leading_zeros(s), s.len()) == s,
    decreases s.len(),
{
    if s.len() == 0 {
        assert(be_pad(strip_leading_zeros(s), 0) =~= s);
    } else if s[0] == 0 {
        let t = s.drop_first();
        lemma_pad_strip(t);
        lemma_strip_len(t);
        let u = strip_leading_zeros(t);
        assert(be_pad(u, s.len()) =~= seq![0u8] + be_pad(u, t.len()));
        assert(s =~= seq![0u8] + t);
    }
}

/// Round trip: decoding a digit string and re-encoding the value at the
/// string's own width reproduces the string exactly.
pub proof fn lemma_be_round_trip(s: Seq<u8>)
    ensures
        be_pad(be_min_encode(be_decode(s)), s.len()) == s,
        be_min_encode(be_decode(s)).len() <= s.len(),
{
    lemma_min_encode_decode(s);
    lemma_pad_strip(s);
    lemma_strip_len(s);
}

/// A leading zero byte does not change the decoded value.
pub proof fn lemma_decode_cons_zero(u: Seq<u8>)
    ensures
        be_decode(seq![0u8] + u) == be_decode(u),
    decreases u.len(),
{
    if u.len() == 0 {
        assert(seq![0u8] + u =~= seq![0u8]);
        assert(be_decode_upto(seq![0u8], 0) == 0);
        assert(be_decode_upto(seq![0u8], 1) == 0);
        assert(be_decode_upto(u, 0) == 0);
    } else {
        let w = u.drop_last();
        let x = u.last();
        assert(u =~= w.push(x));
        assert(seq![0u8] + u =~= (seq![0u8] + w).push(x));
        lemma_be_decode_snoc(seq![0u8] + w, x);
        lemma_be_decode_snoc(w, x);
        lemma_decode_cons_zero(w);
    }
}

} // verus!

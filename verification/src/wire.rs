//! Wire protocol: correlation identifiers and the request envelope.
//!
//! Every outbound request is wrapped in an object
//! `{"id": "msg-N", "action": ..., "params": ...}` whose identifier is
//! minted from a per-handle counter. An inbound message is recognized
//! as a response when its `"id"` field parses back to such an
//! identifier; parsing is proved to be the exact inverse of minting.

use vstd::prelude::*;

use crate::json::JsonValue;
use crate::json::dec_digits;
use crate::json::spec_get_field;
use crate::json::write_dec;

verus! {

/// The bytes of the key `"id"`.
pub open spec fn id_key() -> Seq<u8> {
    seq![105u8, 100u8]
}

/// The bytes of the key `"action"`.
pub open spec fn action_key() -> Seq<u8> {
    seq![97u8, 99u8, 116u8, 105u8, 111u8, 110u8]
}

/// The bytes of the key `"params"`.
pub open spec fn params_key() -> Seq<u8> {
    seq![112u8, 97u8, 114u8, 97u8, 109u8, 115u8]
}

/// The bytes of the identifier prefix `"msg-"`.
pub open spec fn msg_id_prefix() -> Seq<u8> {
    seq![109u8, 115u8, 103u8, 45u8]
}

/// The wire form of the correlation identifier minted from counter
/// value `n`: the prefix `"msg-"` followed by the decimal digits of
/// `n`.
pub open spec fn msg_id_bytes(n: u64) -> Seq<u8> {
    msg_id_prefix() + dec_digits(n)
}

/// True iff every byte of `s` is a decimal digit.
pub open spec fn all_digits(s: Seq<u8>) -> bool {
    forall|i: int| 0 <= i < s.len() ==> 48 <= #[trigger] s[i] <= 57
}

/// The numeric value of a digit string, most significant digit first.
pub open spec fn digits_val(s: Seq<u8>) -> int
    decreases s.len(),
{
    if s.len() == 0 {
        0
    } else {
        digits_val(s.drop_last()) * 10 + (s.last() - 48)
    }
}

/// The decimal digits of `n` are non-empty digits, denote `n`, and
/// have no leading zero unless `n` itself is zero.
pub proof fn lemma_dec_digits(n: u64)
    ensures
        dec_digits(n).len() >= 1,
        all_digits(dec_digits(n)),
        digits_val(dec_digits(n)) == n,
        n >= 1 ==> dec_digits(n)[0] != 48,
        n < 10 ==> dec_digits(n).len() == 1,
        n >= 10 ==> dec_digits(n).len() > 1,
    decreases n,
{
    if n < 10 {
        let d = dec_digits(n);
        assert(d =~= seq![(48 + n) as u8]);
        assert(d.drop_last() =~= Seq::<u8>::empty());
        assert(digits_val(Seq::<u8>::empty()) == 0);
        assert(d.last() == (48 + n) as u8);
        assert(digits_val(d) == digits_val(d.drop_last()) * 10 + (d.last() - 48));
    } else {
        lemma_dec_digits(n / 10);
        let d = dec_digits(n);
        assert(d =~= dec_digits(n / 10) + seq![(48 + n % 10) as u8]);
        assert(d.drop_last() =~= dec_digits(n / 10));
        assert(d.last() == (48 + n % 10) as u8);
        assert(digits_val(d) == (n / 10) * 10 + n % 10);
        assert((n / 10) * 10 + n % 10 == n) by (nonlinear_arith);
        assert(d[0] == dec_digits(n / 10)[0]);
    }
}

/// A digit string denoting zero is all zeros.
proof fn lemma_digits_val_zero(s: Seq<u8>)
    requires
        all_digits(s),
        digits_val(s) == 0,
    ensures
        forall|i: int| 0 <= i < s.len() ==> s[i] == 48,
    decreases s.len(),
{
    if s.len() > 0 {
        let t = s.drop_last();
        lemma_digits_val_nonneg(t);
        assert(digits_val(t) * 10 + (s.last() - 48) == 0);
        assert(digits_val(t) == 0 && s.last() == 48) by (nonlinear_arith)
            requires
                digits_val(t) >= 0,
                48 <= s.last() <= 57,
                digits_val(t) * 10 + (s.last() - 48) == 0,
        ;
        lemma_digits_val_zero(t);
        assert(forall|i: int| 0 <= i < s.len() - 1 ==> s[i] == t[i]);
    }
}

/// The value of a digit string is non-negative.
proof fn lemma_digits_val_nonneg(s: Seq<u8>)
    requires
        all_digits(s),
    ensures
        digits_val(s) >= 0,
    decreases s.len(),
{
    if s.len() > 0 {
        let t = s.drop_last();
        lemma_digits_val_nonneg(t);
        assert(digits_val(t) * 10 >= 0) by (nonlinear_arith)
            requires
                digits_val(t) >= 0,
        ;
    }
}

/// Every prefix of a digit string denotes at most the whole string's
/// value.
proof fn lemma_digits_val_prefix(s: Seq<u8>, k: int)
    requires
        all_digits(s),
        0 <= k <= s.len(),
    ensures
        0 <= digits_val(s.take(k)) <= digits_val(s),
    decreases s.len() - k,
{
    if k == s.len() {
        assert(s.take(k) =~= s);
        lemma_digits_val_nonneg(s);
    } else {
        lemma_digits_val_prefix(s, k + 1);
        let p = s.take(k + 1);
        assert(p.drop_last() =~= s.take(k));
        assert(forall|i: int| 0 <= i < p.len() ==> p[i] == s[i]);
        assert(digits_val(p) == digits_val(s.take(k)) * 10 + (s[k] - 48));
        lemma_digits_val_nonneg(s.take(k));
        assert(digits_val(s.take(k)) <= digits_val(s.take(k)) * 10 + (s[k] - 48)) by (nonlinear_arith)
            requires
                digits_val(s.take(k)) >= 0,
                48 <= s[k] <= 57,
        ;
    }
}

/// A canonical digit string (non-empty, no leading zero unless it is
/// the single digit zero) is exactly the decimal form of its value.
proof fn lemma_canonical_digits(s: Seq<u8>, n: u64)
    requires
        all_digits(s),
        s.len() >= 1,
        s.len() > 1 ==> s[0] != 48,
        digits_val(s) == n,
    ensures
        s == dec_digits(n),
    decreases s.len(),
{
    if s.len() == 1 {
        assert(s.drop_last() =~= Seq::<u8>::empty());
        assert(digits_val(Seq::<u8>::empty()) == 0);
        assert(digits_val(s) == digits_val(s.drop_last()) * 10 + (s.last() - 48));
        assert(n == s[0] - 48);
        assert(dec_digits(n) =~= seq![(48 + n) as u8]);
        assert(s =~= dec_digits(n));
    } else {
        let t = s.drop_last();
        let d = s.last() - 48;
        assert(forall|i: int| 0 <= i < t.len() ==> t[i] == s[i]);
        lemma_digits_val_nonneg(t);
        let m = digits_val(t);
        assert(n == m * 10 + d);
        assert(m == n / 10 && d == n % 10) by (nonlinear_arith)
            requires
                n == m * 10 + d,
                0 <= d < 10,
                m >= 0,
        ;
        if m == 0 {
            lemma_digits_val_zero(t);
            assert(t[0] == 48);
            assert(false);
        }
        assert(m >= 1);
        assert(n >= 10) by (nonlinear_arith)
            requires
                n == m * 10 + d,
                m >= 1,
                d >= 0,
        ;
        lemma_canonical_digits(t, (n / 10) as u64);
        assert(dec_digits(n) =~= dec_digits(n / 10) + seq![(48 + n % 10) as u8]);
        assert(s =~= t + seq![s.last()]);
        assert(s =~= dec_digits(n));
    }
}

/// Distinct counter values mint distinct identifiers.
pub proof fn lemma_msg_id_injective(a: u64, b: u64)
    requires
        msg_id_bytes(a) == msg_id_bytes(b),
    ensures
        a == b,
{
    lemma_dec_digits(a);
    lemma_dec_digits(b);
    assert(dec_digits(a) =~= dec_digits(b)) by {
        assert(msg_id_bytes(a).len() == msg_id_bytes(b).len());
        assert(msg_id_bytes(a).len() == 4 + dec_digits(a).len());
        assert(msg_id_bytes(b).len() == 4 + dec_digits(b).len());
        assert(dec_digits(a).len() == dec_digits(b).len());
        assert(forall|i: int| 0 <= i < dec_digits(a).len() ==> dec_digits(a)[i] == msg_id_bytes(
            a,
        )[i + 4] && dec_digits(b)[i] == msg_id_bytes(b)[i + 4]);
    }
}

/// The correlation identifier carried by an inbound message: the
/// counter value whose minted form equals the message's string-typed
/// `"id"` field, when there is one.
pub open spec fn spec_inbound_id(v: JsonValue) -> Option<u64> {
    match spec_get_field(v, id_key()) {
        Some(JsonValue::Text(b)) => if exists|n: u64| b@ == msg_id_bytes(n) {
            Some(choose|n: u64| b@ == msg_id_bytes(n))
        } else {
            None
        },
        _ => None,
    }
}

/// The minted identifier for counter value `n`, as wire bytes.
pub fn format_msg_id(n: u64) -> (r: Vec<u8>)
    ensures
        r@ == msg_id_bytes(n),
{
    let mut out: Vec<u8> = Vec::new();
    out.push(109);
    out.push(115);
    out.push(103);
    out.push(45);
    assert(out@ =~= msg_id_prefix());
    write_dec(n, &mut out);
    out
}

/// Parses a minted identifier back to its counter value.
///
/// Accepts exactly the byte strings produced by [`format_msg_id`]:
/// returns the unique counter value on success, and `None` for every
/// byte string that no counter value mints.
pub fn parse_msg_id(s: &[u8]) -> (r: Option<u64>)
    ensures
        match r {
            Some(n) => s@ == msg_id_bytes(n),
            None => forall|n: u64| s@ != msg_id_bytes(n),
        },
{
    proof {
        assert forall|n: u64| #[trigger] msg_id_bytes(n).len() >= 5 by {
            lemma_dec_digits(n);
        }
    }
    if s.len() < 5 {
        assert(forall|n: u64| s@ != msg_id_bytes(n));
        return None;
    }
    if s[0] != 109 || s[1] != 115 || s[2] != 103 || s[3] != 45 {
        assert forall|n: u64| s@ != #[trigger] msg_id_bytes(n) by {
            assert(msg_id_bytes(n)[0] == 109 && msg_id_bytes(n)[1] == 115 && msg_id_bytes(n)[2]
                == 103 && msg_id_bytes(n)[3] == 45);
        }
        return None;
    }
    if s.len() > 5 && s[4] == 48 {
        assert forall|n: u64| s@ != #[trigger] msg_id_bytes(n) by {
            if s@ == msg_id_bytes(n) {
                lemma_dec_digits(n);
                assert(dec_digits(n).len() == s@.len() - 4 > 1);
                assert(n >= 1) by {
                    if n == 0 {
                        lemma_dec_digits(0);
                        assert(dec_digits(0).len() == 1);
                    }
                }
                assert(dec_digits(n)[0] == s@[4]);
            }
        }
        return None;
    }
    let ghost digits = s@.skip(4);
    proof {
        assert forall|n: u64| s@ == msg_id_bytes(n) implies digits == dec_digits(n) by {
            lemma_dec_digits(n);
            assert(digits =~= dec_digits(n));
        }
    }
    let mut cur: u64 = 0;
    let mut i: usize = 4;
    assert(digits.take(0) =~= Seq::<u8>::empty());
    while i < s.len()
        invariant
            4 <= i <= s@.len(),
            5 <= s@.len(),
            digits == s@.skip(4),
            forall|j: int| 4 <= j < i ==> 48 <= #[trigger] s@[j] <= 57,
            cur == digits_val(digits.take(i - 4)),
            forall|n: u64| s@ == msg_id_bytes(n) ==> digits == dec_digits(n),
        decreases s@.len() - i,
    {
        let b = s[i];
        if b < 48 || b > 57 {
            proof {
                assert forall|n: u64| s@ != #[trigger] msg_id_bytes(n) by {
                    if s@ == msg_id_bytes(n) {
                        lemma_dec_digits(n);
                        assert(dec_digits(n)[i - 4] == s@[i as int]);
                    }
                }
            }
            return None;
        }
        let d: u64 = (b - 48) as u64;
        if cur > (u64::MAX - d) / 10 {
            proof {
                assert forall|n: u64| s@ != #[trigger] msg_id_bytes(n) by {
                    if s@ == msg_id_bytes(n) {
                        lemma_dec_digits(n);
                        lemma_digits_val_prefix(dec_digits(n), i - 4 + 1);
                        let p = dec_digits(n).take(i - 4 + 1);
                        assert(p.drop_last() =~= dec_digits(n).take(i - 4));
                        assert(p.last() == s@[i as int]);
                        assert(digits_val(p) == cur * 10 + d);
                        assert(cur * 10 + d <= n);
                        assert(cur * 10 + d > u64::MAX) by (nonlinear_arith)
                            requires
                                cur > (u64::MAX - d) / 10,
                                0 <= d < 10,
                        ;
                    }
                }
            }
            return None;
        }
        proof {
            assert(cur * 10 + d <= u64::MAX) by (nonlinear_arith)
                requires
                    cur <= (u64::MAX - d) / 10,
                    0 <= d < 10,
            ;
            let p = digits.take(i - 4 + 1);
            assert(p.drop_last() =~= digits.take(i - 4));
            assert(p.last() == s@[i as int]);
        }
        cur = cur * 10 + d;
        i += 1;
    }
    proof {
        assert(digits.take(i - 4) =~= digits);
        assert(all_digits(digits));
        assert(digits.len() >= 1);
        assert(digits.len() > 1 ==> digits[0] != 48) by {
            assert(digits[0] == s@[4]);
        }
        lemma_canonical_digits(digits, cur);
        assert(s@ =~= msg_id_bytes(cur));
    }
    Some(cur)
}

/// True iff `e` is the request envelope for identifier `id`, action
/// name `action` and payload `params`: an object with exactly the
/// three fields `"id"`, `"action"` and `"params"`, in that order.
pub open spec fn is_envelope(e: JsonValue, id: u64, action: Seq<u8>, params: JsonValue) -> bool {
    &&& e matches JsonValue::Obj(ps)
    &&& ps@.len() == 3
    &&& ps@[0].0@ == id_key()
    &&& ps@[0].1 matches JsonValue::Text(t) && t@ == msg_id_bytes(id)
    &&& ps@[1].0@ == action_key()
    &&& ps@[1].1 matches JsonValue::Text(a) && a@ == action
    &&& ps@[2].0@ == params_key()
    &&& ps@[2].1 == params
}

/// A fresh copy of a byte slice.
fn copy_bytes(s: &[u8]) -> (r: Vec<u8>)
    ensures
        r@ == s@,
{
    let mut out: Vec<u8> = Vec::new();
    let mut i: usize = 0;
    while i < s.len()
        invariant
            0 <= i <= s@.len(),
            out@ == s@.take(i as int),
        decreases s@.len() - i,
    {
        out.push(s[i]);
        assert(out@ =~= s@.take(i + 1));
        i += 1;
    }
    assert(s@.take(i as int) =~= s@);
    out
}

/// Builds the request envelope `{"id": "msg-N", "action": ...,
/// "params": ...}` for one outbound command.
pub fn make_envelope(id: u64, action: &[u8], params: JsonValue) -> (r: JsonValue)
    ensures
        is_envelope(r, id, action@, params),
{
    let mut pairs: Vec<(Vec<u8>, JsonValue)> = Vec::new();
    let mut k_id: Vec<u8> = Vec::new();
    k_id.push(105);
    k_id.push(100);
    assert(k_id@ =~= id_key());
    pairs.push((k_id, JsonValue::Text(format_msg_id(id))));
    let mut k_action: Vec<u8> = Vec::new();
    k_action.push(97);
    k_action.push(99);
    k_action.push(116);
    k_action.push(105);
    k_action.push(111);
    k_action.push(110);
    assert(k_action@ =~= action_key());
    pairs.push((k_action, JsonValue::Text(copy_bytes(action))));
    let mut k_params: Vec<u8> = Vec::new();
    k_params.push(112);
    k_params.push(97);
    k_params.push(114);
    k_params.push(97);
    k_params.push(109);
    k_params.push(115);
    assert(k_params@ =~= params_key());
    pairs.push((k_params, params));
    JsonValue::Obj(pairs)
}

/// Law: the envelope carries the request payload verbatim — looking
/// up `"params"` in the envelope built for any identifier, action and
/// payload yields exactly that payload — and the envelope's own
/// `"id"` field parses back to exactly the identifier it was minted
/// from, so a response echoing the envelope's identifier correlates
/// to precisely this request.
pub proof fn lemma_envelope_fields(e: JsonValue, id: u64, action: Seq<u8>, params: JsonValue)
    requires
        is_envelope(e, id, action, params),
    ensures
        spec_get_field(e, params_key()) == Some(params),
        spec_inbound_id(e) == Some(id),
{
    let ps = e->Obj_0;
    let s0 = ps@;
    let s1 = s0.drop_first();
    let s2 = s1.drop_first();
    assert(s1[0] == s0[1]);
    assert(s2[0] == s0[2]);
    assert(id_key().len() == 2 && action_key().len() == 6 && params_key().len() == 6);
    assert(action_key()[0] != params_key()[0]);
    assert(s0[0].0@ != params_key());
    assert(s1[0].0@ != params_key());
    assert(crate::json::spec_lookup(s0, params_key()) == crate::json::spec_lookup(s1, params_key()));
    assert(crate::json::spec_lookup(s1, params_key()) == crate::json::spec_lookup(s2, params_key()));
    assert(crate::json::spec_lookup(s2, params_key()) == Some(s2[0].1));
    assert(spec_get_field(e, params_key()) == Some(params));

    assert(crate::json::spec_lookup(s0, id_key()) == Some(s0[0].1));
    let t = s0[0].1->Text_0;
    assert(t@ == msg_id_bytes(id));
    assert(exists|n: u64| t@ == msg_id_bytes(n));
    let m = choose|n: u64| t@ == msg_id_bytes(n);
    lemma_msg_id_injective(m, id);
    assert(spec_inbound_id(e) == Some(id));
}

} // verus!

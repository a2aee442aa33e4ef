//! Structured values exchanged with the peer.
//!
//! Both outbound request payloads and inbound peer messages are modeled
//! as [`JsonValue`]: a tree of nulls, booleans, integers, byte strings,
//! arrays and objects. Text is held as UTF-8 bytes so that every field
//! is a plain value the verifier can reason about.

use vstd::prelude::*;

verus! {

/// A structured message value: the shape of everything sent to or
/// received from the peer.
#[derive(Debug)]
pub enum JsonValue {
    /// The null value.
    Null,
    /// A boolean.
    Bool(bool),
    /// An integer number.
    Num(i64),
    /// A text value, held as UTF-8 bytes.
    Text(Vec<u8>),
    /// An array of values.
    Arr(Vec<JsonValue>),
    /// An object: a list of key/value pairs in insertion order.
    Obj(Vec<(Vec<u8>, JsonValue)>),
}

/// The first value bound to `name` in `pairs`, if any.
pub open spec fn spec_lookup(pairs: Seq<(Vec<u8>, JsonValue)>, name: Seq<u8>) -> Option<JsonValue>
    decreases pairs.len(),
{
    if pairs.len() == 0 {
        None
    } else if pairs[0].0@ == name {
        Some(pairs[0].1)
    } else {
        spec_lookup(pairs.drop_first(), name)
    }
}

/// The value of the field `name`, if `v` is an object that has one.
pub open spec fn spec_get_field(v: JsonValue, name: Seq<u8>) -> Option<JsonValue> {
    match v {
        JsonValue::Obj(pairs) => spec_lookup(pairs@, name),
        _ => None,
    }
}

/// True iff the two byte slices hold the same bytes.
pub fn bytes_eq(a: &[u8], b: &[u8]) -> (r: bool)
    ensures
        r == (a@ == b@),
{
    if a.len() != b.len() {
        assert(a@ != b@) by {
            assert(a@.len() != b@.len());
        }
        return false;
    }
    let mut i: usize = 0;
    while i < a.len()
        invariant
            0 <= i <= a@.len(),
            a@.len() == b@.len(),
            forall|j: int| 0 <= j < i ==> a@[j] == b@[j],
        decreases a@.len() - i,
    {
        if a[i] != b[i] {
            return false;
        }
        i += 1;
    }
    assert(a@ =~= b@);
    true
}

impl JsonValue {
    /// Looks up the field `name` if this value is an object.
    ///
    /// Returns the first pair whose key equals `name`, in pair order,
    /// or `None` when this value is not an object or has no such field.
    pub fn get_field(&self, name: &[u8]) -> (r: Option<&JsonValue>)
        ensures
            match r {
                Some(v) => spec_get_field(*self, name@) == Some(*v),
                None => spec_get_field(*self, name@) is None,
            },
    {
        match self {
            JsonValue::Obj(pairs) => {
                assert(pairs@.skip(0) =~= pairs@);
                let mut i: usize = 0;
                let mut hit: Option<usize> = None;
                while i < pairs.len() && hit.is_none()
                    invariant
                        0 <= i <= pairs@.len(),
                        forall|j: int| 0 <= j < i ==> pairs@[j].0@ != name@,
                        match hit {
                            Some(k) => {
                                &&& i == k < pairs@.len()
                                &&& spec_lookup(pairs@, name@) == Some(pairs@[k as int].1)
                            },
                            None => spec_lookup(pairs@, name@) == spec_lookup(
                                pairs@.skip(i as int),
                                name@,
                            ),
                        },
                    decreases pairs@.len() - i + (if hit is None { 1int } else { 0int }),
                {
                    if bytes_eq(pairs[i].0.as_slice(), name) {
                        assert(pairs@.skip(i as int)[0] == pairs@[i as int]);
                        hit = Some(i);
                    } else {
                        assert(pairs@.skip(i as int).drop_first() =~= pairs@.skip(i + 1));
                        i += 1;
                    }
                }
                match hit {
                    Some(k) => Some(&pairs[k].1),
                    None => {
                        assert(pairs@.skip(i as int).len() == 0);
                        None
                    },
                }
            },
            _ => None,
        }
    }
}

/// Lower-case hexadecimal digit for `n < 16`.
pub open spec fn hex_digit(n: u8) -> u8 {
    if n < 10 {
        (48 + n) as u8
    } else {
        (87 + n) as u8
    }
}

/// How one byte of a text value appears on the wire: quotes and
/// backslashes are escaped, control bytes become `\u00XX`, and every
/// other byte stands for itself.
pub open spec fn escape_byte(b: u8) -> Seq<u8> {
    if b == 34 {
        seq![92u8, 34u8]
    } else if b == 92 {
        seq![92u8, 92u8]
    } else if b < 32 {
        seq![92u8, 117u8, 48u8, 48u8, hex_digit(b / 16), hex_digit(b % 16)]
    } else {
        seq![b]
    }
}

/// The wire form of a text value's bytes, escaped byte by byte.
pub open spec fn escape_bytes(s: Seq<u8>) -> Seq<u8>
    decreases s.len(),
{
    if s.len() == 0 {
        Seq::empty()
    } else {
        escape_bytes(s.drop_last()) + escape_byte(s.last())
    }
}

/// The decimal digits of `n`, most significant first.
pub open spec fn dec_digits(n: u64) -> Seq<u8>
    decreases n,
{
    if n < 10 {
        seq![(48 + n) as u8]
    } else {
        dec_digits(n / 10) + seq![(48 + n % 10) as u8]
    }
}

/// The wire form of an integer: decimal digits with a leading `-`
/// when negative.
pub open spec fn num_bytes(n: i64) -> Seq<u8> {
    if n >= 0 {
        dec_digits(n as u64)
    } else {
        seq![45u8] + dec_digits((-(n as int)) as u64)
    }
}

/// The serialized form of a value: one JSON text without any
/// insignificant whitespace.
pub open spec fn json_bytes(v: JsonValue) -> Seq<u8>
    decreases v,
{
    match v {
        JsonValue::Null => seq![110u8, 117u8, 108u8, 108u8],
        JsonValue::Bool(b) => if b {
            seq![116u8, 114u8, 117u8, 101u8]
        } else {
            seq![102u8, 97u8, 108u8, 115u8, 101u8]
        },
        JsonValue::Num(n) => num_bytes(n),
        JsonValue::Text(s) => seq![34u8] + escape_bytes(s@) + seq![34u8],
        JsonValue::Arr(els) => seq![91u8] + arr_bytes(els@) + seq![93u8],
        JsonValue::Obj(ps) => seq![123u8] + obj_bytes(ps@) + seq![125u8],
    }
}

/// The serialized elements of an array, joined by commas.
pub open spec fn arr_bytes(s: Seq<JsonValue>) -> Seq<u8>
    decreases s,
{
    if s.len() == 0 {
        Seq::empty()
    } else if s.len() == 1 {
        json_bytes(s.last())
    } else {
        arr_bytes(s.drop_last()) + seq![44u8] + json_bytes(s.last())
    }
}

/// The serialized pairs of an object, joined by commas.
pub open spec fn obj_bytes(s: Seq<(Vec<u8>, JsonValue)>) -> Seq<u8>
    decreases s,
{
    if s.len() == 0 {
        Seq::empty()
    } else if s.len() == 1 {
        seq![34u8] + escape_bytes(s.last().0@) + seq![34u8, 58u8] + json_bytes(s.last().1)
    } else {
        obj_bytes(s.drop_last()) + seq![44u8] + seq![34u8] + escape_bytes(s.last().0@) + seq![
            34u8,
            58u8,
        ] + json_bytes(s.last().1)
    }
}

/// Lower-case hexadecimal digit for `n < 16`.
fn hex_digit_exec(n: u8) -> (r: u8)
    requires
        n < 16,
    ensures
        r == hex_digit(n),
{
    if n < 10 {
        48 + n
    } else {
        87 + n
    }
}

/// Appends the escaped wire form of `s` to `out`.
pub(crate) fn write_escaped(s: &[u8], out: &mut Vec<u8>)
    ensures
        final(out)@ == old(out)@ + escape_bytes(s@),
{
    let mut i: usize = 0;
    assert(out@ =~= old(out)@ + escape_bytes(s@.take(0)));
    while i < s.len()
        invariant
            0 <= i <= s@.len(),
            out@ == old(out)@ + escape_bytes(s@.take(i as int)),
        decreases s@.len() - i,
    {
        let b = s[i];
        if b == 34 {
            out.push(92);
            out.push(34);
        } else if b == 92 {
            out.push(92);
            out.push(92);
        } else if b < 32 {
            out.push(92);
            out.push(117);
            out.push(48);
            out.push(48);
            out.push(hex_digit_exec(b / 16));
            out.push(hex_digit_exec(b % 16));
        } else {
            out.push(b);
        }
        proof {
            assert(s@.take(i + 1).drop_last() =~= s@.take(i as int));
            assert(s@.take(i + 1).last() == s@[i as int]);
            assert(out@ =~= old(out)@ + escape_bytes(s@.take(i + 1)));
        }
        i += 1;
    }
    assert(s@.take(i as int) =~= s@);
}

/// Appends the decimal digits of `n` to `out`.
pub(crate) fn write_dec(n: u64, out: &mut Vec<u8>)
    ensures
        final(out)@ == old(out)@ + dec_digits(n),
    decreases n,
{
    if n < 10 {
        out.push(48 + (n as u8));
        assert(out@ =~= old(out)@ + dec_digits(n));
    } else {
        write_dec(n / 10, out);
        out.push(48 + ((n % 10) as u8));
        assert(out@ =~= old(out)@ + dec_digits(n));
    }
}

/// Appends the wire form of the integer `n` to `out`.
fn write_num(n: i64, out: &mut Vec<u8>)
    ensures
        final(out)@ == old(out)@ + num_bytes(n),
{
    if n >= 0 {
        write_dec(n as u64, out);
    } else {
        out.push(45);
        let m: u64 = if n == i64::MIN {
            9223372036854775808u64
        } else {
            (-n) as u64
        };
        assert(m == (-(n as int)) as u64);
        write_dec(m, out);
        assert(out@ =~= old(out)@ + num_bytes(n));
    }
}

/// Appends the serialized form of `v` to `out`.
pub fn write_json(v: &JsonValue, out: &mut Vec<u8>)
    ensures
        final(out)@ == old(out)@ + json_bytes(*v),
    decreases *v,
{
    match v {
        JsonValue::Null => {
            out.push(110);
            out.push(117);
            out.push(108);
            out.push(108);
            assert(out@ =~= old(out)@ + json_bytes(*v));
        },
        JsonValue::Bool(b) => {
            if *b {
                out.push(116);
                out.push(114);
                out.push(117);
                out.push(101);
            } else {
                out.push(102);
                out.push(97);
                out.push(108);
                out.push(115);
                out.push(101);
            }
            assert(out@ =~= old(out)@ + json_bytes(*v));
        },
        JsonValue::Num(n) => {
            write_num(*n, out);
        },
        JsonValue::Text(s) => {
            out.push(34);
            write_escaped(s.as_slice(), out);
            out.push(34);
            assert(out@ =~= old(out)@ + json_bytes(*v));
        },
        JsonValue::Arr(els) => {
            out.push(91);
            let ghost base = out@;
            let mut i: usize = 0;
            assert(arr_bytes(els@.take(0)) =~= Seq::<u8>::empty());
            while i < els.len()
                invariant
                    *v == JsonValue::Arr(*els),
                    0 <= i <= els@.len(),
                    out@ == base + arr_bytes(els@.take(i as int)),
                decreases els@.len() - i,
            {
                if i > 0 {
                    out.push(44);
                }
                proof {
                    assert(decreases_to!(*v => v->Arr_0@));
                    assert(v->Arr_0@ == els@);
                    assert(decreases_to!(els@ => els@[i as int]));
                }
                write_json(&els[i], out);
                proof {
                    assert(els@.take(i + 1).drop_last() =~= els@.take(i as int));
                    assert(els@.take(i + 1).last() == els@[i as int]);
                    assert(out@ =~= base + arr_bytes(els@.take(i + 1)));
                }
                i += 1;
            }
            assert(els@.take(i as int) =~= els@);
            out.push(93);
            assert(out@ =~= old(out)@ + json_bytes(*v));
        },
        JsonValue::Obj(ps) => {
            out.push(123);
            let ghost base = out@;
            let mut i: usize = 0;
            assert(obj_bytes(ps@.take(0)) =~= Seq::<u8>::empty());
            while i < ps.len()
                invariant
                    *v == JsonValue::Obj(*ps),
                    0 <= i <= ps@.len(),
                    out@ == base + obj_bytes(ps@.take(i as int)),
                decreases ps@.len() - i,
            {
                if i > 0 {
                    out.push(44);
                }
                out.push(34);
                write_escaped(ps[i].0.as_slice(), out);
                out.push(34);
                out.push(58);
                proof {
                    assert(decreases_to!(*v => v->Obj_0@));
                    assert(v->Obj_0@ == ps@);
                    assert(decreases_to!(ps@ => ps@[i as int]));
                    assert(decreases_to!(ps@[i as int] => ps@[i as int].1));
                }
                write_json(&ps[i].1, out);
                proof {
                    assert(ps@.take(i + 1).drop_last() =~= ps@.take(i as int));
                    assert(ps@.take(i + 1).last() == ps@[i as int]);
                    assert(out@ =~= base + obj_bytes(ps@.take(i + 1)));
                }
                i += 1;
            }
            assert(ps@.take(i as int) =~= ps@);
            out.push(125);
            assert(out@ =~= old(out)@ + json_bytes(*v));
        },
    }
}

/// The serialized form of `v` as a fresh byte vector.
pub fn to_json(v: &JsonValue) -> (r: Vec<u8>)
    ensures
        r@ == json_bytes(*v),
{
    let mut out: Vec<u8> = Vec::new();
    write_json(v, &mut out);
    out
}

} // verus!

//! Bounded buffering of unsolicited push notifications.
//!
//! The reader side of the connection hands every unmatched inbound
//! message to this buffer; callers drain it in bulk between commands.
//! A drain returns at most 200 notifications: when more have queued,
//! the excess is discarded and a single synthetic overflow marker,
//! carrying the discard count, is appended as the final element.

use vstd::prelude::*;

use crate::json::JsonValue;
use crate::json::dec_digits;
use crate::json::write_dec;

verus! {

/// The bytes of the key `"type"`.
pub open spec fn type_key() -> Seq<u8> {
    seq![116u8, 121u8, 112u8, 101u8]
}

/// The bytes of the word `"event"`.
pub open spec fn event_word() -> Seq<u8> {
    seq![101u8, 118u8, 101u8, 110u8, 116u8]
}

/// The bytes of the key `"data"`.
pub open spec fn data_key() -> Seq<u8> {
    seq![100u8, 97u8, 116u8, 97u8]
}

/// The bytes of the word `"events_overflow"`.
pub open spec fn overflow_word() -> Seq<u8> {
    seq![101u8, 118u8, 101u8, 110u8, 116u8, 115u8, 95u8, 111u8, 118u8, 101u8, 114u8, 102u8, 108u8, 111u8, 119u8]
}

/// The bytes of the key `"message"`.
pub open spec fn message_key() -> Seq<u8> {
    seq![109u8, 101u8, 115u8, 115u8, 97u8, 103u8, 101u8]
}

/// The bytes of the overflow message after the discard count.
pub open spec fn overflow_suffix() -> Seq<u8> {
    seq![
        32u8,
        101u8,
        118u8,
        101u8,
        110u8,
        116u8,
        115u8,
        32u8,
        119u8,
        101u8,
        114u8,
        101u8,
        32u8,
        100u8,
        114u8,
        111u8,
        112u8,
        112u8,
        101u8,
        100u8,
        32u8,
        100u8,
        117u8,
        101u8,
        32u8,
        116u8,
        111u8,
        32u8,
        98u8,
        117u8,
        102u8,
        102u8,
        101u8,
        114u8,
        32u8,
        111u8,
        118u8,
        101u8,
        114u8,
        102u8,
        108u8,
        111u8,
        119u8,
    ]
}

/// True iff `v` is the synthetic overflow marker reporting that
/// `count` notifications were discarded: an object
/// `{"type": "event", "data": {"event": "events_overflow",
/// "message": "<count> events were dropped due to buffer
/// overflow"}}`.
pub open spec fn is_overflow_marker(v: JsonValue, count: u64) -> bool {
    &&& v matches JsonValue::Obj(ps)
    &&& ps@.len() == 2
    &&& ps@[0].0@ == type_key()
    &&& ps@[0].1 matches JsonValue::Text(t) && t@ == event_word()
    &&& ps@[1].0@ == data_key()
    &&& ps@[1].1 matches JsonValue::Obj(ds) && {
        &&& ds@.len() == 2
        &&& ds@[0].0@ == event_word()
        &&& ds@[0].1 matches JsonValue::Text(e) && e@ == overflow_word()
        &&& ds@[1].0@ == message_key()
        &&& ds@[1].1 matches JsonValue::Text(m) && m@ == dec_digits(count) + overflow_suffix()
    }
}

/// Builds the overflow marker for a discard count.
fn overflow_marker_value(count: u64) -> (r: JsonValue)
    ensures
        is_overflow_marker(r, count),
{
    let mut msg: Vec<u8> = Vec::new();
    write_dec(count, &mut msg);
    let mut out: Vec<u8> = Vec::new();
    out.push(32);
    out.push(101);
    out.push(118);
    out.push(101);
    out.push(110);
    out.push(116);
    out.push(115);
    out.push(32);
    out.push(119);
    out.push(101);
    out.push(114);
    out.push(101);
    out.push(32);
    out.push(100);
    out.push(114);
    out.push(111);
    out.push(112);
    out.push(112);
    out.push(101);
    out.push(100);
    out.push(32);
    out.push(100);
    out.push(117);
    out.push(101);
    out.push(32);
    out.push(116);
    out.push(111);
    out.push(32);
    out.push(98);
    out.push(117);
    out.push(102);
    out.push(102);
    out.push(101);
    out.push(114);
    out.push(32);
    out.push(111);
    out.push(118);
    out.push(101);
    out.push(114);
    out.push(102);
    out.push(108);
    out.push(111);
    out.push(119);
    assert(out@ =~= overflow_suffix());
    msg.append(&mut out);

    let mut k_event: Vec<u8> = Vec::new();
    k_event.push(101);
    k_event.push(118);
    k_event.push(101);
    k_event.push(110);
    k_event.push(116);
    assert(k_event@ =~= event_word());
    let mut w_overflow: Vec<u8> = Vec::new();
    w_overflow.push(101);
    w_overflow.push(118);
    w_overflow.push(101);
    w_overflow.push(110);
    w_overflow.push(116);
    w_overflow.push(115);
    w_overflow.push(95);
    w_overflow.push(111);
    w_overflow.push(118);
    w_overflow.push(101);
    w_overflow.push(114);
    w_overflow.push(102);
    w_overflow.push(108);
    w_overflow.push(111);
    w_overflow.push(119);
    assert(w_overflow@ =~= overflow_word());
    let mut k_message: Vec<u8> = Vec::new();
    k_message.push(109);
    k_message.push(101);
    k_message.push(115);
    k_message.push(115);
    k_message.push(97);
    k_message.push(103);
    k_message.push(101);
    assert(k_message@ =~= message_key());
    let mut data: Vec<(Vec<u8>, JsonValue)> = Vec::new();
    data.push((k_event, JsonValue::Text(w_overflow)));
    data.push((k_message, JsonValue::Text(msg)));

    let mut k_type: Vec<u8> = Vec::new();
    k_type.push(116);
    k_type.push(121);
    k_type.push(112);
    k_type.push(101);
    assert(k_type@ =~= type_key());
    let mut w_event: Vec<u8> = Vec::new();
    w_event.push(101);
    w_event.push(118);
    w_event.push(101);
    w_event.push(110);
    w_event.push(116);
    assert(w_event@ =~= event_word());
    let mut ps: Vec<(Vec<u8>, JsonValue)> = Vec::new();
    ps.push((k_type, JsonValue::Text(w_event)));
    ps.push((k_data_key(), JsonValue::Obj(data)));
    JsonValue::Obj(ps)
}

/// The bytes of the key `"data"` as a fresh vector.
fn k_data_key() -> (r: Vec<u8>)
    ensures
        r@ == data_key(),
{
    let mut k: Vec<u8> = Vec::new();
    k.push(100);
    k.push(97);
    k.push(116);
    k.push(97);
    assert(k@ =~= data_key());
    k
}

/// Buffers push notifications between drains.
///
/// Notifications are appended by the reader in arrival order and
/// removed only by [`EventBuffer::drain`].
#[derive(Debug)]
pub struct EventBuffer {
    queue: Vec<JsonValue>,
}

impl EventBuffer {
    /// The notifications currently queued, oldest first.
    pub closed spec fn queued(self) -> Seq<JsonValue> {
        self.queue@
    }

    /// Creates an empty buffer.
    pub fn new() -> (r: EventBuffer)
        ensures
            r.queued() == Seq::<JsonValue>::empty(),
    {
        EventBuffer { queue: Vec::new() }
    }

    /// Appends one notification; never blocks and never drops.
    pub fn push(&mut self, v: JsonValue)
        ensures
            final(self).queued() == old(self).queued().push(v),
    {
        self.queue.push(v);
    }

    /// Drains the buffer, returning the queued notifications in
    /// arrival order.
    ///
    /// When 200 or fewer notifications are queued, all of them are
    /// returned and no marker is added. When more are queued, exactly
    /// the first 200 are returned followed by one overflow marker
    /// whose count reports how many were discarded. The buffer is
    /// empty afterwards.
    pub fn drain(&mut self) -> (r: Vec<JsonValue>)
        ensures
            final(self).queued() == Seq::<JsonValue>::empty(),
            old(self).queued().len() <= 200 ==> r@ == old(self).queued(),
            old(self).queued().len() > 200 ==> {
                &&& r@.len() == 201
                &&& r@.take(200) == old(self).queued().take(200)
                &&& is_overflow_marker(r@[200], (old(self).queued().len() - 200) as u64)
            },
    {
        let mut q: Vec<JsonValue> = Vec::new();
        core::mem::swap(&mut q, &mut self.queue);
        if q.len() <= 200 {
            assert(self.queue@ =~= Seq::<JsonValue>::empty());
            return q;
        }
        let count = q.len() - 200;
        q.truncate(200);
        let marker = overflow_marker_value(count as u64);
        q.push(marker);
        assert(self.queue@ =~= Seq::<JsonValue>::empty());
        assert(q@.take(200) =~= old(self).queued().take(200));
        q
    }
}

} // verus!

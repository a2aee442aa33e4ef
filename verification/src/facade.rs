//! Assembling one outward-facing reply.
//!
//! After a command's response arrives, the buffered push
//! notifications are drained and attached beside it, so the caller
//! sees `{"result": <response>, "events": [<notifications>]}` in one
//! value.

use vstd::prelude::*;

use crate::json::JsonValue;

verus! {

/// The bytes of the key `"result"`.
pub open spec fn result_key() -> Seq<u8> {
    seq![114u8, 101u8, 115u8, 117u8, 108u8, 116u8]
}

/// The bytes of the key `"events"`.
pub open spec fn events_key() -> Seq<u8> {
    seq![101u8, 118u8, 101u8, 110u8, 116u8, 115u8]
}

/// True iff `r` is the combined reply: an object with exactly the
/// field `"result"` holding the response and the field `"events"`
/// holding the drained notifications in order.
pub open spec fn is_combined_reply(r: JsonValue, result: JsonValue, events: Seq<JsonValue>) -> bool {
    &&& r matches JsonValue::Obj(ps)
    &&& ps@.len() == 2
    &&& ps@[0].0@ == result_key()
    &&& ps@[0].1 == result
    &&& ps@[1].0@ == events_key()
    &&& ps@[1].1 matches JsonValue::Arr(evs) && evs@ == events
}

/// Combines a command's response with the notifications drained
/// beside it.
pub fn combined_reply(result: JsonValue, events: Vec<JsonValue>) -> (r: JsonValue)
    ensures
        is_combined_reply(r, result, events@),
{
    let mut k_result: Vec<u8> = Vec::new();
    k_result.push(114);
    k_result.push(101);
    k_result.push(115);
    k_result.push(117);
    k_result.push(108);
    k_result.push(116);
    assert(k_result@ =~= result_key());
    let mut k_events: Vec<u8> = Vec::new();
    k_events.push(101);
    k_events.push(118);
    k_events.push(101);
    k_events.push(110);
    k_events.push(116);
    k_events.push(115);
    assert(k_events@ =~= events_key());
    let mut ps: Vec<(Vec<u8>, JsonValue)> = Vec::new();
    ps.push((k_result, result));
    ps.push((k_events, JsonValue::Arr(events)));
    JsonValue::Obj(ps)
}

} // verus!

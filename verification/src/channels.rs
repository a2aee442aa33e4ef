//! Trusted declarations for the channel primitives the connection
//! stores and drives: tokio's one-shot completion slots and its
//! bounded outbound queue.

use vstd::prelude::*;

use crate::json::JsonValue;

verus! {

#[verifier::external_type_specification]
#[verifier::external_body]
#[verifier::reject_recursive_types(T)]
pub struct ExOneshotSender<T>(tokio::sync::oneshot::Sender<T>);

#[verifier::external_type_specification]
#[verifier::external_body]
#[verifier::reject_recursive_types(T)]
pub struct ExOneshotReceiver<T>(tokio::sync::oneshot::Receiver<T>);

#[verifier::external_type_specification]
#[verifier::external_body]
pub struct ExOneshotRecvError(tokio::sync::oneshot::error::RecvError);

#[verifier::external_type_specification]
#[verifier::external_body]
#[verifier::reject_recursive_types(T)]
pub struct ExMpscSender<T>(tokio::sync::mpsc::Sender<T>);

/// Relies on tokio's `oneshot::channel`: returns a freshly linked
/// sender/receiver pair for one single-use response hand-off.
#[verifier::external_body]
pub(crate) fn oneshot_pair() -> (r: (
    tokio::sync::oneshot::Sender<JsonValue>,
    tokio::sync::oneshot::Receiver<JsonValue>,
))
{
    tokio::sync::oneshot::channel()
}

/// Relies on tokio's `oneshot::Sender::send`: consumes the slot,
/// delivers `v` to the linked receiver when that receiver is still
/// alive, and reports whether delivery succeeded. It never blocks,
/// and it cannot be called twice on one slot because it takes the
/// slot by value.
#[verifier::external_body]
pub(crate) fn oneshot_send(slot: tokio::sync::oneshot::Sender<JsonValue>, v: JsonValue) -> (r:
    bool)
{
    slot.send(v).is_ok()
}

} // verus!

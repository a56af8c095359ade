//! The user event channel: the standard library's multi-producer, single-consumer
//! channel, as far as the loop uses it.
//!
//! What another thread does to a channel is not for this library to know, so the
//! contracts here say only what holds whatever the other end did.

use std::sync::mpsc::{Receiver, SendError, Sender};
use vstd::prelude::*;

verus! {

/// `std::sync::mpsc::Sender`, a sending end of a channel.
#[verifier::external_type_specification]
#[verifier::external_body]
#[verifier::reject_recursive_types(T)]
pub struct ExSender<T>(Sender<T>);

/// `std::sync::mpsc::Receiver`, the receiving end of a channel.
#[verifier::external_type_specification]
#[verifier::external_body]
#[verifier::reject_recursive_types(T)]
pub struct ExReceiver<T>(Receiver<T>);

/// Calls `std::sync::mpsc::channel`: a new channel with its two ends.
#[verifier::external_body]
pub(crate) fn open_channel<T>() -> (ends: (Sender<T>, Receiver<T>)) {
    std::sync::mpsc::channel()
}

/// Calls `Sender::send`, which never blocks. It fails when the receiving end is gone, and
/// the error then holds the very payload that was to be sent.
#[verifier::external_body]
pub(crate) fn send_payload<T>(sender: &Sender<T>, payload: T) -> (outcome: Result<(), T>)
    ensures
        outcome matches Err(returned) ==> returned == payload,
{
    sender.send(payload).map_err(|SendError(returned)| returned)
}

/// Calls `Receiver::try_recv`, which never blocks: a payload that some sender has sent,
/// or nothing when none is waiting or all senders are gone.
#[verifier::external_body]
pub(crate) fn try_receive<T>(receiver: &Receiver<T>) -> (received: Option<T>) {
    receiver.try_recv().ok()
}

/// Calls `Sender::clone`: one more sending end of the same channel. A sender is read
/// as the channel that it feeds, and on that reading the copy is the original.
#[verifier::external_body]
pub(crate) fn clone_sender<T>(sender: &Sender<T>) -> (copy: Sender<T>)
    ensures
        copy == *sender,
{
    sender.clone()
}

} // verus!

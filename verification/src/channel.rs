//! The channels that carry requests to a worker and replies back.
//!
//! The channels are flume's. Whether a send is taken, and what a receive
//! brings, depends on what other threads do with the other end; so the
//! functions here leave that open, and the code that calls them answers
//! for every outcome. What they do promise holds of every outcome: a
//! message that was not taken comes back as it was given.

use vstd::prelude::*;
use flume::{Receiver, Sender};

verus! {

/// `flume::Sender`: the sending end of a channel. Its inside is not seen.
#[verifier::external_type_specification]
#[verifier::external_body]
#[verifier::reject_recursive_types(T)]
pub struct ExSender<T>(Sender<T>);

/// `flume::Receiver`: the receiving end of a channel. Its inside is not
/// seen.
#[verifier::external_type_specification]
#[verifier::external_body]
#[verifier::reject_recursive_types(T)]
pub struct ExReceiver<T>(Receiver<T>);

/// Calls `flume::bounded`: a fresh channel that holds at most `capacity`
/// messages before a send has to wait. Nothing is claimed of the two ends.
#[verifier::external_body]
pub(crate) fn bounded_channel<T>(capacity: usize) -> (ends: (Sender<T>, Receiver<T>)) {
    flume::bounded(capacity)
}

/// Calls `flume::Sender::send`. The send fails when every receiver is
/// gone; on a full bounded channel it waits for room. Whether it fails is
/// left open. What is claimed is what flume's error carries: a message that
/// was not taken is handed back, and it is the message that was given.
#[verifier::external_body]
pub(crate) fn send_message<T>(sender: &Sender<T>, message: T) -> (outcome: Result<(), T>)
    ensures
        outcome matches Err(back) ==> back == message,
{
    match sender.send(message) {
        Ok(()) => Ok(()),
        Err(flume::SendError(back)) => Err(back),
    }
}

/// Calls `flume::Receiver::recv`: waits for a message and hands it out, or
/// `None` when every sender is gone and nothing is left in the channel.
/// Nothing is claimed of the outcome.
#[verifier::external_body]
pub(crate) fn wait_for_message<T>(receiver: &Receiver<T>) -> (message: Option<T>) {
    receiver.recv().ok()
}

/// Calls `Clone::clone` on a `flume::Sender`. flume builds the copy around
/// the channel state that the sender itself holds, and a sender has no
/// other part; so the contract takes the copy for the same sending end as
/// the one it was made from.
#[verifier::external_body]
pub(crate) fn another_sender<T>(sender: &Sender<T>) -> (copy: Sender<T>)
    ensures
        copy == *sender,
{
    sender.clone()
}

} // verus!

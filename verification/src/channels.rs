//! The channels that carry events, addresses and packets between the parts of
//! the on-board software.
//!
//! What comes out of a channel, and whether something can be put into it,
//! depends on what the other end does. The contracts here say nothing about
//! it: callers are verified for every outcome.
use std::sync::mpsc::{Receiver, SendError, Sender, TryRecvError};
use vstd::prelude::*;

verus! {

#[verifier::external_type_specification]
#[verifier::external_body]
#[verifier::reject_recursive_types(T)]
pub struct ExSender<T>(Sender<T>);

#[verifier::external_type_specification]
#[verifier::external_body]
#[verifier::reject_recursive_types(T)]
pub struct ExReceiver<T>(Receiver<T>);

#[verifier::external_type_specification]
#[verifier::reject_recursive_types(T)]
pub struct ExSendError<T>(SendError<T>);

#[verifier::external_type_specification]
pub struct ExTryRecvError(TryRecvError);

/// Wrapper of `std::sync::mpsc::Sender::send`. Whether the value is taken
/// depends on the receiving end.
#[verifier::external_body]
pub(crate) fn mpsc_send<T>(sender: &Sender<T>, value: T) -> (r: Result<(), SendError<T>>) {
    sender.send(value)
}

/// Wrapper of `std::sync::mpsc::Receiver::try_recv`. What arrives depends on
/// the sending ends.
#[verifier::external_body]
pub(crate) fn mpsc_try_recv<T>(receiver: &Receiver<T>) -> (r: Result<T, TryRecvError>) {
    receiver.try_recv()
}

/// Wrapper of `Clone::clone` for `std::sync::mpsc::Sender`: one more sending
/// end of the same channel.
#[verifier::external_body]
pub(crate) fn mpsc_sender_clone<T>(sender: &Sender<T>) -> (r: Sender<T>) {
    sender.clone()
}

#[verifier::external_type_specification]
#[verifier::external_body]
#[verifier::reject_recursive_types(T)]
pub struct ExCrossbeamSender<T>(crossbeam_channel::Sender<T>);

#[verifier::external_type_specification]
#[verifier::reject_recursive_types(T)]
pub struct ExCrossbeamSendError<T>(crossbeam_channel::SendError<T>);

/// Wrapper of `crossbeam_channel::Sender::send`. Whether the value is taken
/// depends on the receiving end.
#[verifier::external_body]
pub(crate) fn crossbeam_send<T>(sender: &crossbeam_channel::Sender<T>, value: T) -> (r: Result<
    (),
    crossbeam_channel::SendError<T>,
>) {
    sender.send(value)
}

} // verus!

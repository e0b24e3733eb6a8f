//! The channel behind every mailbox: tokio's unbounded channel, with many
//! senders and one receiver.
//!
//! It has no capacity limit. A sender never waits and is never pushed back;
//! a mailbox that is filled faster than its actor empties it simply grows.

use crate::role::Channel;
use crate::role::RoleReceiver;
use crate::role::RoleSender;
use std::marker::PhantomData;
use tokio::sync::mpsc::error::SendError;
use tokio::sync::mpsc::UnboundedReceiver;
use tokio::sync::mpsc::UnboundedSender;
use vstd::prelude::*;

verus! {

/// The sending half of tokio's unbounded channel.
#[verifier::external_type_specification]
#[verifier::external_body]
#[verifier::reject_recursive_types(T)]
pub struct ExUnboundedSender<T>(UnboundedSender<T>);

/// The receiving half of tokio's unbounded channel.
#[verifier::external_type_specification]
#[verifier::external_body]
#[verifier::reject_recursive_types(T)]
pub struct ExUnboundedReceiver<T>(UnboundedReceiver<T>);

/// The error with which tokio's unbounded channel refuses a message. It
/// holds the message.
#[verifier::external_type_specification]
#[verifier::reject_recursive_types(T)]
pub struct ExSendError<T>(SendError<T>);

/// `tokio::sync::mpsc::unbounded_channel` makes a new channel. Nothing is
/// claimed of the two halves.
pub assume_specification<T>[ tokio::sync::mpsc::unbounded_channel::<T> ]() -> (r: (
    UnboundedSender<T>,
    UnboundedReceiver<T>,
))
;

/// Puts a message on an unbounded channel with
/// `tokio::sync::mpsc::UnboundedSender::send`. The channel refuses the
/// message if its receiving half is closed or gone, and the error then holds
/// that message, unchanged. Whether it is refused depends on what the other
/// half has done by then, so nothing is claimed of that.
#[verifier::external_body]
fn push<T>(sender: &UnboundedSender<T>, msg: T) -> (r: Result<(), SendError<T>>)
    ensures
        r matches Err(refused) ==> refused.0 == msg,
{
    sender.send(msg)
}

/// Asks `tokio::sync::mpsc::UnboundedReceiver::is_empty` whether no message
/// is waiting on an unbounded channel. Senders may add messages at any
/// moment, so nothing is claimed of the answer.
#[verifier::external_body]
fn nothing_waiting<T>(receiver: &UnboundedReceiver<T>) -> (r: bool) {
    receiver.is_empty()
}

/// Whether `halves` are the two halves of a channel as
/// `tokio::sync::mpsc::unbounded_channel` makes it.
pub open spec fn made_unbounded<T>(halves: (UnboundedSender<T>, UnboundedReceiver<T>)) -> bool {
    call_ensures(tokio::sync::mpsc::unbounded_channel::<T>, (), halves)
}

/// Whether `r` is an answer of tokio's unbounded channel to `msg`, put on it
/// through `sender`. The channel may answer the same message differently at
/// another moment: what it answers depends on whether its receiving half is
/// still there.
pub closed spec fn channel_answered<T>(
    sender: &UnboundedSender<T>,
    msg: T,
    r: Result<(), SendError<T>>,
) -> bool {
    call_ensures(push::<T>, (sender, msg), r)
}

/// Whether `empty` is an answer of tokio's unbounded channel to the question
/// whether nothing is waiting on `receiver`. The channel may answer
/// differently at another moment: senders add messages whenever they like.
pub closed spec fn channel_reported<T>(receiver: &UnboundedReceiver<T>, empty: bool) -> bool {
    call_ensures(nothing_waiting::<T>, (receiver,), empty)
}

/// A refusal of tokio's unbounded channel holds the refused message,
/// unchanged.
pub proof fn lemma_refusal_holds_message<T>(
    sender: &UnboundedSender<T>,
    msg: T,
    r: Result<(), SendError<T>>,
)
    requires
        channel_answered(sender, msg, r),
    ensures
        r matches Err(refused) ==> refused.0 == msg,
{
}

impl<T: Send> RoleSender<T> for UnboundedSender<T> {
    type Error = SendError<T>;

    /// Puts the message on the channel, and hands on what the channel
    /// answered. A refusal hands the message back.
    fn send(&self, msg: T) -> (r: Result<(), SendError<T>>)
        ensures
            channel_answered(self, msg, r),
            r matches Err(refused) ==> refused.0 == msg,
    {
        push(self, msg)
    }
}

impl<T: Send> RoleReceiver<T> for UnboundedReceiver<T> {
    /// Asks the channel whether nothing is waiting, and hands on what it
    /// answered.
    fn is_empty(&self) -> (r: bool)
        ensures
            channel_reported(self, r),
    {
        nothing_waiting(self)
    }
}

/// The kind of channel that every role uses: tokio's unbounded channel.
pub struct TokioUnbounded<T>(PhantomData<T>);

impl<T: Send> Channel for TokioUnbounded<T> {
    type Input = ();

    type Item = T;

    type Receiver = UnboundedReceiver<T>;

    type Sender = UnboundedSender<T>;

    /// Makes a new unbounded channel: the two halves are what tokio hands
    /// out for one.
    fn new(init: ()) -> (r: (UnboundedSender<T>, UnboundedReceiver<T>))
        ensures
            made_unbounded(r),
    {
        tokio::sync::mpsc::unbounded_channel()
    }
}

} // verus!

//! Roles: the capabilities that an actor offers, and the channels that carry
//! their messages.

use crate::returnval::ReturnEnvelope;
use vstd::prelude::*;

verus! {

/// The sending half of a channel that carries a role's messages.
///
/// Sending never waits: the channel takes the message at once, or refuses it.
pub trait RoleSender<T: Send>: Sync + Send + Clone {
    /// Says that the message was not delivered: most likely the actor had
    /// stopped before the message reached it.
    type Error: Send;

    /// Puts a message on the channel.
    fn send(&self, msg: T) -> (r: Result<(), Self::Error>);
}

/// The receiving half of a channel that carries a role's messages. It
/// belongs to the dispatch loop alone.
pub trait RoleReceiver<T: Send> {
    /// Whether no message is waiting, asked without waiting. The loop uses it
    /// to decide whether a mailbox is still worth listening to.
    fn is_empty(&self) -> (r: bool);
}

/// A kind of channel that can carry a role's messages.
pub trait Channel {
    /// What a channel of this kind is made from.
    type Input;

    /// What the channel carries.
    type Item: Send;

    /// The sending half.
    type Sender: RoleSender<Self::Item>;

    /// The receiving half.
    type Receiver: RoleReceiver<Self::Item>;

    /// Makes a new channel, not connected to any other.
    fn new(init: Self::Input) -> (r: (Self::Sender, Self::Receiver));

    /// Makes a new channel from the default of what it is made from.
    fn new_default() -> (r: (Self::Sender, Self::Receiver)) where Self::Input: Default
        default_ensures
            exists|init: Self::Input|
                {
                    &&& call_ensures(<Self::Input as Default>::default, (), init)
                    &&& #[trigger] call_ensures(Self::new, (init,), r)
                },
    {
        let init = Self::Input::default();
        let r = Self::new(init);
        assert(call_ensures(Self::new, (init,), r));
        r
    }
}

/// The payload that stands for a call of one of a role's methods.
pub type Role2Payload<R> = <R as Role>::Payload;

/// The receiving half of a role's channel.
pub type Role2Receiver<R> = <<R as Role>::Channel as Channel>::Receiver;

/// The sending half of a role's channel.
pub type Role2Sender<R> = <<R as Role>::Channel as Channel>::Sender;

/// The error with which a role's channel refuses a message.
pub type Role2SendError<R> = <Role2Sender<R> as RoleSender<ReturnEnvelope<R>>>::Error;

/// A role that an actor can play: a fixed set of methods, with one mailbox
/// for the calls of all of them.
pub trait Role: Sync + Send {
    /// Tells which method was called, and carries its arguments.
    type Payload: Sized + Send + 'static;

    /// Tells which method returned, and carries its result.
    type Return: Sized + Send + 'static;

    /// The kind of channel behind the role's mailbox.
    type Channel: Channel<Item = ReturnEnvelope<Self>>;

    /// Puts a message on the actor's mailbox for this role. It is refused if
    /// the actor has stopped.
    fn enqueue(&self, val: ReturnEnvelope<Self>) -> (r: Result<(), Role2SendError<Self>>);
}

/// This role can be sent values of type `T`: exactly one of its methods takes
/// a `T`, so the value alone tells which call is meant.
pub trait Accepts<T>: Role {
    /// Packs a value as the payload of the call that takes it.
    fn into_payload(t: T) -> (payload: Self::Payload);
}

/// Every role accepts its own payloads, as they are.
impl<R: Role + ?Sized> Accepts<R::Payload> for R {
    fn into_payload(t: R::Payload) -> (payload: R::Payload)
        ensures
            payload == t,
    {
        t
    }
}

/// At least one method of this role returns a `T`.
pub trait Emits<T>: Role {
    /// Unpacks the value that a method of the role returned.
    fn from_return_payload(t: Self::Return) -> (value: T);
}

/// Whether `payload` is what the role makes of `value` when it packs it as a
/// call.
pub open spec fn packs<R: Accepts<T> + ?Sized, T>(value: T, payload: R::Payload) -> bool {
    call_ensures(<R as Accepts<T>>::into_payload, (value,), payload)
}

/// Whether `value` is what the role finds when it unpacks the tagged return
/// `returned`.
pub open spec fn unpacks<R: Emits<T> + ?Sized, T>(returned: R::Return, value: T) -> bool {
    call_ensures(<R as Emits<T>>::from_return_payload, (returned,), value)
}

/// A role packs its own payloads as they are.
pub proof fn lemma_own_payload_packs_as_itself<R: Role + ?Sized>(
    value: R::Payload,
    payload: R::Payload,
)
    ensures
        packs::<R, R::Payload>(value, payload) ==> payload == value,
{
}

} // verus!

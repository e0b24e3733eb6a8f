//! Envelopes: calls that have been prepared and not yet sent, and the path
//! that the result of each call takes.

use crate::role::packs;
use crate::role::unpacks;
use crate::role::Accepts;
use crate::role::Emits;
use crate::role::Role;
use crate::role::Role2SendError;
use std::marker::PhantomData;
use std::sync::Arc;
use vstd::prelude::*;

verus! {

/// The sending half of tokio's channel for a single value.
#[verifier::external_type_specification]
#[verifier::external_body]
#[verifier::reject_recursive_types(T)]
pub struct ExOneshotSender<T>(tokio::sync::oneshot::Sender<T>);

/// The receiving half of tokio's channel for a single value.
#[verifier::external_type_specification]
#[verifier::external_body]
#[verifier::reject_recursive_types(T)]
pub struct ExOneshotReceiver<T>(tokio::sync::oneshot::Receiver<T>);

/// The error with which tokio's channel for a single value tells a waiting
/// receiver that the sender is gone and has sent nothing.
#[verifier::external_type_specification]
#[verifier::external_body]
pub struct ExRecvError(tokio::sync::oneshot::error::RecvError);

/// Why tokio's channel for a single value has nothing to hand over: nothing
/// was sent yet, or the sender is gone.
#[verifier::external_type_specification]
pub struct ExTryRecvError(tokio::sync::oneshot::error::TryRecvError);

/// `tokio::sync::oneshot::channel` makes a new channel for a single value.
/// Nothing is claimed of the two halves.
pub assume_specification<T>[ tokio::sync::oneshot::channel::<T> ]() -> (r: (
    tokio::sync::oneshot::Sender<T>,
    tokio::sync::oneshot::Receiver<T>,
))
;

/// `tokio::sync::oneshot::Receiver::try_recv` takes the value if one has
/// been sent, without waiting. Nothing is claimed of what it finds.
pub assume_specification<T>[ tokio::sync::oneshot::Receiver::<T>::try_recv ](
    receiver: &mut tokio::sync::oneshot::Receiver<T>,
) -> (r: Result<T, tokio::sync::oneshot::error::TryRecvError>)
;

/// Hands a value to the receiving half of a channel for a single value, with
/// `tokio::sync::oneshot::Sender::send`. If that half is gone already, the
/// value comes back as the error, unchanged.
#[verifier::external_body]
fn reply_with<T>(channel: tokio::sync::oneshot::Sender<T>, val: T) -> (r: Result<(), T>)
    ensures
        r matches Err(back) ==> back == val,
{
    channel.send(val)
}

/// Whether `halves` are the two halves of one channel for a single value:
/// the sender and the receiver that one call of
/// `tokio::sync::oneshot::channel` handed out together.
pub open spec fn made_oneshot<T>(
    halves: (tokio::sync::oneshot::Sender<T>, tokio::sync::oneshot::Receiver<T>),
) -> bool {
    call_ensures(tokio::sync::oneshot::channel::<T>, (), halves)
}

/// Whether `r` is an answer of tokio's channel for a single value to `val`,
/// sent on `channel`. What the channel answers depends on whether its
/// receiving half is still there.
pub closed spec fn channel_replied<T>(
    channel: tokio::sync::oneshot::Sender<T>,
    val: T,
    r: Result<(), T>,
) -> bool {
    call_ensures(reply_with::<T>, (channel, val), r)
}

/// A channel for a single value that does not take a value hands that
/// value back, unchanged.
pub proof fn lemma_unsent_value_comes_back<T>(
    channel: tokio::sync::oneshot::Sender<T>,
    val: T,
    r: Result<(), T>,
)
    requires
        channel_replied(channel, val, r),
    ensures
        r matches Err(back) ==> back == val,
{
}

/// Something that takes a role's return value and passes it on.
pub trait Relay<P>: Send {
    /// Whether passing `val` on can end with `accepted`. A relay that says
    /// nothing of itself allows every end.
    open spec fn relays(&self, val: P, accepted: bool) -> bool {
        true
    }

    /// Passes the value on, and says whether whoever it was passed to took
    /// it.
    fn relay(self: Box<Self>, val: P) -> (accepted: bool)
        ensures
            self.relays(val, accepted),
    ;
}

/// What is to happen to the value that a handler returns.
#[verifier::reject_recursive_types(Payload)]
pub enum ReturnPath<Payload: Send> {
    /// The value is dropped.
    Discard,
    /// The value is passed on to another actor's mailbox.
    Mailbox(Box<dyn Relay<Payload>>),
    /// The value is sent straight back to the caller, who waits for it.
    Immediate(tokio::sync::oneshot::Sender<Payload>),
}

impl<Payload: Send> Default for ReturnPath<Payload> {
    /// Unless something else is asked for, the value is dropped.
    fn default() -> (path: Self)
        ensures
            path is Discard,
    {
        ReturnPath::Discard
    }
}

/// What became of a handler's return value.
#[derive(Debug)]
pub enum Delivery<Payload> {
    /// It was dropped.
    Discarded,
    /// It was passed on; the flag says whether it was taken there.
    Forwarded(bool),
    /// It was sent to the waiting caller.
    Replied,
    /// The caller no longer waited: here is the value.
    Unclaimed(Payload),
}

impl<Payload: Send + 'static> ReturnPath<Payload> {
    /// A path straight back to a caller, with the end on which the caller
    /// waits.
    pub fn create_immediate() -> (r: (
        ReturnPath<Payload>,
        tokio::sync::oneshot::Receiver<Payload>,
    ))
        ensures
            r.0.replies_to(r.1),
    {
        let (send, recv) = tokio::sync::oneshot::channel();
        (ReturnPath::Immediate(send), recv)
    }

    /// Whether this path leads straight back to the caller who waits on
    /// `receiver`: it holds the sending half of the very channel whose
    /// receiving half `receiver` is.
    pub open spec fn replies_to(self, receiver: tokio::sync::oneshot::Receiver<Payload>) -> bool {
        self matches ReturnPath::Immediate(channel) && made_oneshot((channel, receiver))
    }

    /// What becomes of a value on a path straight back to the caller, given
    /// the answer of the caller's channel.
    pub open spec fn replied(answer: Result<(), Payload>) -> Delivery<Payload> {
        match answer {
            Ok(_) => Delivery::Replied,
            Err(back) => Delivery::Unclaimed(back),
        }
    }

    /// Whether `delivery` is what can become of the value `val` on this
    /// path: nothing, if the value is dropped; what the relay says, if it is
    /// passed on; and on a path straight back to the caller, what the
    /// caller's channel answered when the value was sent on it.
    pub open spec fn resolved(self, val: Payload, delivery: Delivery<Payload>) -> bool {
        match self {
            ReturnPath::Discard => delivery is Discarded,
            ReturnPath::Mailbox(callback) => delivery matches Delivery::Forwarded(accepted)
                && callback.relays(val, accepted),
            ReturnPath::Immediate(channel) => exists|answer: Result<(), Payload>| #[trigger]
                channel_replied(channel, val, answer) && delivery == Self::replied(answer),
        }
    }

    /// On a path straight back to the caller the value is either sent, or it
    /// comes back unchanged because the caller no longer waits.
    pub proof fn lemma_reply_or_value_back(self, val: Payload, delivery: Delivery<Payload>)
        requires
            self is Immediate,
            self.resolved(val, delivery),
        ensures
            delivery is Replied || delivery == Delivery::Unclaimed(val),
    {
        let channel = self->Immediate_0;
        let answer = choose|answer: Result<(), Payload>| #[trigger]
            channel_replied(channel, val, answer) && delivery == Self::replied(answer);
        lemma_unsent_value_comes_back(channel, val, answer);
    }

    /// Resolves the path with the value that the handler returned.
    ///
    /// Nothing here waits, and nothing here fails: a caller that no longer
    /// waits for its reply gets none, and the value is handed back.
    pub fn send(self, val: Payload) -> (delivery: Delivery<Payload>)
        ensures
            self.resolved(val, delivery),
    {
        match self {
            ReturnPath::Discard => Delivery::Discarded,
            ReturnPath::Mailbox(callback) => Delivery::Forwarded(callback.relay(val)),
            ReturnPath::Immediate(channel) => {
                let answer = reply_with(channel, val);
                assert(channel_replied(channel, val, answer));
                match answer {
                    Ok(()) => Delivery::Replied,
                    Err(back) => Delivery::Unclaimed(back),
                }
            },
        }
    }

    /// The name of the path's kind.
    pub fn label(&self) -> (name: &'static str)
        ensures
            name@ == match self {
                ReturnPath::Discard => "<ReturnPath::Discard>"@,
                ReturnPath::Mailbox(_) => "<ReturnPath::Mailbox>"@,
                ReturnPath::Immediate(_) => "<ReturnPath::Immediate>"@,
            },
    {
        match self {
            ReturnPath::Discard => "<ReturnPath::Discard>",
            ReturnPath::Mailbox(_) => "<ReturnPath::Mailbox>",
            ReturnPath::Immediate(_) => "<ReturnPath::Immediate>",
        }
    }
}

/// What travels through an actor's mailbox: the call, and what to do with
/// its result.
pub struct ReturnEnvelope<R: Role + ?Sized> {
    /// The call: which method, with which arguments.
    pub payload: R::Payload,
    /// What is to happen to the method's result.
    pub return_path: ReturnPath<R::Return>,
}

impl<R: Role + ?Sized> ReturnEnvelope<R> {
    /// Handles the message: runs the handler on the call, and resolves the
    /// return path with what the handler returned.
    pub fn perform<H>(self, handler: H) -> (delivery: Delivery<R::Return>) where
        H: FnOnce(R::Payload) -> R::Return,

        requires
            handler.requires((self.payload,)),
        ensures
            exists|returned: R::Return|
                {
                    &&& #[trigger] handler.ensures((self.payload,), returned)
                    &&& self.return_path.resolved(returned, delivery)
                },
    {
        let ReturnEnvelope { payload, return_path } = self;
        let returned = handler(payload);
        return_path.send(returned)
    }

    /// The message for a call whose result nobody wants.
    pub fn discarding(payload: R::Payload) -> (message: ReturnEnvelope<R>)
        ensures
            message.payload == payload,
            message.return_path is Discard,
    {
        ReturnEnvelope { payload, return_path: ReturnPath::Discard }
    }
}

/// Passes what one role returns on to an actor in another role, as a call
/// whose own result is dropped.
pub struct Bridge<DestRole: ?Sized, RxRole: ?Sized, Output> {
    recipient: Arc<RxRole>,
    _from: PhantomData<DestRole>,
    _via: PhantomData<Output>,
}

impl<DestRole, RxRole, Output> Bridge<DestRole, RxRole, Output> where
    DestRole: Emits<Output> + ?Sized + 'static,
    RxRole: Accepts<Output> + ?Sized + 'static,
    Output: Send + 'static,
 {
    /// The actor that the values are passed on to.
    pub closed spec fn recipient(&self) -> Arc<RxRole> {
        self.recipient
    }

    /// A bridge to the given actor.
    pub fn new(recipient: Arc<RxRole>) -> (bridge: Self)
        ensures
            bridge.recipient() == recipient,
    {
        Bridge { recipient, _from: PhantomData, _via: PhantomData }
    }

    /// Whether `message` carries the return `val` of the first role to the
    /// second: its call is what the second role packs from what the first
    /// role unpacked, and nothing is asked back.
    pub open spec fn carries(val: DestRole::Return, message: ReturnEnvelope<RxRole>) -> bool {
        &&& exists|value: Output| #[trigger]
            unpacks::<DestRole, Output>(val, value) && packs::<RxRole, Output>(
                value,
                message.payload,
            )
        &&& message.return_path is Discard
    }

    /// The message that carries a return of the first role to the second:
    /// the returned value, unpacked and packed again as a call of the second
    /// role, with nothing asked back.
    pub fn package(val: DestRole::Return) -> (message: ReturnEnvelope<RxRole>)
        ensures
            Self::carries(val, message),
    {
        let value = DestRole::from_return_payload(val);
        let payload = RxRole::into_payload(value);
        assert(unpacks::<DestRole, Output>(val, value) && packs::<RxRole, Output>(value, payload));
        ReturnEnvelope::discarding(payload)
    }

    /// Whether `r` can be the answer of the mailbox of `recipient` to the
    /// message that carries the return `val` of the first role.
    pub open spec fn answers(
        recipient: Arc<RxRole>,
        val: DestRole::Return,
        r: Result<(), Role2SendError<RxRole>>,
    ) -> bool {
        exists|message: ReturnEnvelope<RxRole>|
            {
                &&& Self::carries(val, message)
                &&& #[trigger] call_ensures(<RxRole as Role>::enqueue, (&*recipient, message), r)
            }
    }

    /// Whether passing `val` on to `recipient` can end with `accepted`: the
    /// recipient's mailbox took the message that carries it, or refused
    /// it.
    pub open spec fn passes_on(recipient: Arc<RxRole>, val: DestRole::Return, accepted: bool) -> bool {
        exists|r: Result<(), Role2SendError<RxRole>>|
            #[trigger] Self::answers(recipient, val, r) && accepted == (r is Ok)
    }

    /// Packages the value and puts it on the recipient's mailbox. The answer
    /// is the mailbox's.
    pub fn deliver(self, val: DestRole::Return) -> (r: Result<(), Role2SendError<RxRole>>)
        ensures
            Self::answers(self.recipient(), val, r),
    {
        let message = Self::package(val);
        let r = self.recipient.enqueue(message);
        assert(call_ensures(<RxRole as Role>::enqueue, (&*self.recipient(), message), r));
        r
    }
}

impl<DestRole, RxRole, Output> Relay<DestRole::Return> for Bridge<DestRole, RxRole, Output> where
    DestRole: Emits<Output> + ?Sized + 'static,
    RxRole: Accepts<Output> + ?Sized + 'static,
    Output: Send + 'static,
 {
    open spec fn relays(&self, val: DestRole::Return, accepted: bool) -> bool {
        Self::passes_on(self.recipient(), val, accepted)
    }

    /// Passes the value on to the recipient, and says whether the
    /// recipient's mailbox took it.
    fn relay(self: Box<Self>, val: DestRole::Return) -> (accepted: bool) {
        let bridge = *self;
        let r = bridge.deliver(val);
        assert(Self::answers(self.recipient(), val, r));
        r.is_ok()
    }
}

/// A message that has been prepared for an actor and not yet sent, as a call
/// of a role's method on a handle produces it.
///
/// Whoever holds it decides what becomes of the call's result, by consuming
/// the envelope in exactly one of four ways: [`Envelope::dispatch`] sends the
/// call and drops the result; [`Envelope::ignore`] does the same and reports
/// whether the call could be sent; [`Envelope::into_future`] sends the call
/// and hands back the end on which the result arrives;
/// [`Envelope::forward_to`] sends the call and has the result passed on to
/// another actor. Until then nothing has been sent.
pub struct Envelope<DestRole: Role + ?Sized + 'static, Output> {
    val: DestRole::Payload,
    dest: Arc<DestRole>,
    _v: PhantomData<Output>,
}

impl<DestRole: Role + ?Sized + 'static, Output> Envelope<DestRole, Output> {
    /// The call that the envelope holds.
    pub closed spec fn payload(&self) -> DestRole::Payload {
        self.val
    }

    /// The actor that the envelope is addressed to.
    pub closed spec fn dest(&self) -> Arc<DestRole> {
        self.dest
    }

    /// An envelope with the given call, addressed to the given actor.
    pub fn new(val: DestRole::Payload, dest: Arc<DestRole>) -> (envelope: Envelope<DestRole, Output>)
        ensures
            envelope.payload() == val,
            envelope.dest() == dest,
    {
        Envelope { val, dest, _v: PhantomData }
    }

    /// Takes the envelope apart.
    pub fn unpack(self) -> (r: (DestRole::Payload, Arc<DestRole>))
        ensures
            r.0 == self.payload(),
            r.1 == self.dest(),
    {
        (self.val, self.dest)
    }

    /// Marks a different type as the result that the caller expects.
    pub fn downcast<V>(self) -> (envelope: Envelope<DestRole, V>)
        ensures
            envelope.payload() == self.payload(),
            envelope.dest() == self.dest(),
    {
        let (val, dest) = self.unpack();
        Envelope { val, dest, _v: PhantomData }
    }

    /// Seals the envelope as a call whose result is dropped.
    pub fn discarding(self) -> (r: (ReturnEnvelope<DestRole>, Arc<DestRole>))
        ensures
            r.0.payload == self.payload(),
            r.0.return_path is Discard,
            r.1 == self.dest(),
    {
        let (payload, dest) = self.unpack();
        (ReturnEnvelope::discarding(payload), dest)
    }

    /// Sends the call and drops its result, without telling anybody whether
    /// the actor took the message.
    pub fn dispatch(self)
        ensures
            exists|message: ReturnEnvelope<DestRole>, r: Result<(), Role2SendError<DestRole>>|
                {
                    &&& message.payload == self.payload()
                    &&& message.return_path is Discard
                    &&& #[trigger] call_ensures(DestRole::enqueue, (&*self.dest(), message), r)
                },
    {
        let (message, dest) = self.discarding();
        let r = dest.enqueue(message);
        assert(call_ensures(DestRole::enqueue, (&*self.dest(), message), r));
    }

    /// Sends the call and drops its result. What comes back is the answer of
    /// the actor's mailbox to the one message that the envelope held: an
    /// error if the actor has stopped already.
    pub fn ignore(self) -> (r: Result<(), Role2SendError<DestRole>>)
        ensures
            exists|message: ReturnEnvelope<DestRole>|
                {
                    &&& message.payload == self.payload()
                    &&& message.return_path is Discard
                    &&& #[trigger] call_ensures(DestRole::enqueue, (&*self.dest(), message), r)
                },
    {
        let (message, dest) = self.discarding();
        dest.enqueue(message)
    }

    /// Seals the envelope as a call whose result goes straight back to the
    /// caller, and makes the end on which the caller waits for it.
    pub fn requesting(self) -> (r: (
        ReturnEnvelope<DestRole>,
        Arc<DestRole>,
        ReturnCaster<DestRole, Output>,
    ))
        ensures
            r.0.payload == self.payload(),
            r.0.return_path.replies_to(r.2.receiver()),
            r.1 == self.dest(),
    {
        let (payload, dest) = self.unpack();
        let (return_path, rx) = ReturnPath::create_immediate();
        (ReturnEnvelope { payload, return_path }, dest, ReturnCaster { future: rx, typ: PhantomData })
    }

    /// Whether `message` asks for this envelope's call, with the result sent
    /// straight back to whoever waits on `receiver`.
    pub open spec fn requests(
        self,
        message: ReturnEnvelope<DestRole>,
        receiver: tokio::sync::oneshot::Receiver<DestRole::Return>,
    ) -> bool {
        message.payload == self.payload() && message.return_path.replies_to(receiver)
    }

    /// Sends the call, and hands back the end on which its result arrives.
    ///
    /// One message is put on the actor's mailbox: the call, with the sending
    /// half of a new channel as its return path. If the mailbox takes it,
    /// what comes back is the receiving half of that same channel; if the
    /// actor stops before it has handled the call, that end finds its channel
    /// closed, which is not a result. If the mailbox refuses the message,
    /// because the actor has stopped already, its error comes back instead,
    /// and nothing is waited for.
    pub fn into_future(self) -> (r: Result<
        ReturnCaster<DestRole, Output>,
        Role2SendError<DestRole>,
    >)
        ensures
            exists|
                message: ReturnEnvelope<DestRole>,
                receiver: tokio::sync::oneshot::Receiver<DestRole::Return>,
                answer: Result<(), Role2SendError<DestRole>>,
            |
                {
                    &&& #[trigger] self.requests(message, receiver)
                    &&& #[trigger] call_ensures(
                        DestRole::enqueue,
                        (&*self.dest(), message),
                        answer,
                    )
                    &&& match r {
                        Ok(caster) => answer is Ok && caster.receiver() == receiver,
                        Err(refused) => answer == Err::<(), Role2SendError<DestRole>>(refused),
                    }
                },
    {
        let (message, dest, caster) = self.requesting();
        let answer = dest.enqueue(message);
        assert(self.requests(message, caster.receiver()));
        assert(call_ensures(DestRole::enqueue, (&*self.dest(), message), answer));
        match answer {
            Ok(_) => Ok(caster),
            Err(refused) => Err(refused),
        }
    }

    /// Whether a return path passes what it is resolved with on to
    /// `recipient`, as a bridge from this envelope's role does.
    pub open spec fn forwards_to<RxRole>(
        path: ReturnPath<DestRole::Return>,
        recipient: Arc<RxRole>,
    ) -> bool where
        DestRole: Emits<Output>,
        RxRole: Accepts<Output> + ?Sized + 'static,
        Output: Send + 'static,
     {
        path matches ReturnPath::Mailbox(callback) && forall|
            val: DestRole::Return,
            accepted: bool,
        | #[trigger]
            callback.relays(val, accepted) == Bridge::<DestRole, RxRole, Output>::passes_on(
                recipient,
                val,
                accepted,
            )
    }

    /// What is resolved on a path that forwards to `recipient` is passed on
    /// there and nowhere else: resolving it ends with the answer of the
    /// recipient's mailbox to one message, which carries the value as a call
    /// of the recipient and asks nothing back. Nothing in it depends on what
    /// the recipient's handler does with that message, or when.
    pub proof fn lemma_forwarded_result_is_passed_on<RxRole>(
        path: ReturnPath<DestRole::Return>,
        recipient: Arc<RxRole>,
        val: DestRole::Return,
        delivery: Delivery<DestRole::Return>,
    ) where
        DestRole: Emits<Output>,
        RxRole: Accepts<Output> + ?Sized + 'static,
        Output: Send + 'static,

        requires
            Self::forwards_to(path, recipient),
            path.resolved(val, delivery),
        ensures
            delivery matches Delivery::Forwarded(accepted) && exists|
                message: ReturnEnvelope<RxRole>,
                answer: Result<(), Role2SendError<RxRole>>,
            |
                {
                    &&& Bridge::<DestRole, RxRole, Output>::carries(val, message)
                    &&& #[trigger] call_ensures(
                        <RxRole as Role>::enqueue,
                        (&*recipient, message),
                        answer,
                    )
                    &&& accepted == (answer is Ok)
                },
    {
        let accepted = delivery->Forwarded_0;
        assert(Bridge::<DestRole, RxRole, Output>::passes_on(recipient, val, accepted));
        let answer = choose|answer: Result<(), Role2SendError<RxRole>>| #[trigger]
            Bridge::<DestRole, RxRole, Output>::answers(recipient, val, answer) && accepted == (
            answer is Ok);
        assert(Bridge::<DestRole, RxRole, Output>::answers(recipient, val, answer));
    }

    /// Seals the envelope as a call whose result is passed on to a second
    /// actor, as a call to that actor whose own result is dropped.
    pub fn forwarding<RxRole>(self, recipient: Arc<RxRole>) -> (r: (
        ReturnEnvelope<DestRole>,
        Arc<DestRole>,
    )) where
        DestRole: Emits<Output>,
        RxRole: Accepts<Output> + ?Sized + 'static,
        Output: Send + 'static,

        ensures
            r.0.payload == self.payload(),
            Self::forwards_to(r.0.return_path, recipient),
            r.1 == self.dest(),
    {
        let (payload, origin) = self.unpack();
        let bridge: Bridge<DestRole, RxRole, Output> = Bridge::new(recipient);
        let return_path = ReturnPath::Mailbox(Box::new(bridge));
        (ReturnEnvelope { payload, return_path }, origin)
    }

    /// Sends the call and arranges for its result to be passed on to the
    /// given actor, so that the caller need not wait for it inside a handler
    /// of its own.
    ///
    /// What comes back is the answer of the first actor's mailbox to the one
    /// message that the envelope held: an error if that actor has stopped
    /// already.
    pub fn forward_to<RxRole>(self, recipient: Arc<RxRole>) -> (r: Result<
        (),
        Role2SendError<DestRole>,
    >) where
        DestRole: Emits<Output>,
        RxRole: Accepts<Output> + ?Sized + 'static,
        Output: Send + 'static,

        ensures
            exists|message: ReturnEnvelope<DestRole>|
                {
                    &&& message.payload == self.payload()
                    &&& Self::forwards_to(message.return_path, recipient)
                    &&& #[trigger] call_ensures(
                        <DestRole as Role>::enqueue,
                        (&*self.dest(), message),
                        r,
                    )
                },
    {
        let (message, origin) = self.forwarding(recipient);
        let r = origin.enqueue(message);
        assert(call_ensures(<DestRole as Role>::enqueue, (&*origin, message), r));
        r
    }
}

/// The end on which the result of a call arrives, once the actor has
/// handled the call.
pub struct ReturnCaster<R: Role + ?Sized, V> {
    future: tokio::sync::oneshot::Receiver<R::Return>,
    typ: PhantomData<V>,
}

/// Whether `r` is what a reply stands for, once its value is unpacked: the
/// value that the role finds in it, or the same failure to get any.
pub open spec fn reply_of<R: Emits<V> + ?Sized, V, E>(
    reply: Result<R::Return, E>,
    r: Result<V, E>,
) -> bool {
    match reply {
        Ok(returned) => r matches Ok(value) && unpacks::<R, V>(returned, value),
        Err(failure) => r == Err::<V, E>(failure),
    }
}

impl<R: Role + ?Sized, V> ReturnCaster<R, V> {
    /// The receiving end of the reply's channel.
    pub closed spec fn receiver(&self) -> tokio::sync::oneshot::Receiver<R::Return> {
        self.future
    }

    /// Gives up the receiving end of the reply's channel, for whoever wants
    /// to wait on it.
    pub fn into_inner(self) -> (receiver: tokio::sync::oneshot::Receiver<R::Return>)
        ensures
            receiver == self.receiver(),
    {
        self.future
    }
}

impl<R: Emits<V> + ?Sized, V> ReturnCaster<R, V> {
    /// Unpacks a reply. A failure to get any reply stays what it is, so that
    /// it is never taken for a result.
    pub fn cast<E>(reply: Result<R::Return, E>) -> (r: Result<V, E>)
        ensures
            reply_of::<R, V, E>(reply, r),
    {
        match reply {
            Ok(returned) => Ok(R::from_return_payload(returned)),
            Err(failure) => Err(failure),
        }
    }

    /// Looks for the reply without waiting.
    ///
    /// A value is the result of the call. Otherwise the error tells whether
    /// the reply is still to come or will never come: the actor stopped or
    /// panicked without replying.
    ///
    /// What comes back is what the channel of the reply handed over at this
    /// moment, with its value unpacked: the receiving end is asked once, with
    /// `tokio::sync::oneshot::Receiver::try_recv`, and is left as that call
    /// leaves it.
    pub fn poll(&mut self) -> (r: Result<V, tokio::sync::oneshot::error::TryRecvError>)
        ensures
            exists|
                asked: &mut tokio::sync::oneshot::Receiver<R::Return>,
                reply: Result<R::Return, tokio::sync::oneshot::error::TryRecvError>,
            |
                {
                    &&& *asked == old(self).receiver()
                    &&& *final(asked) == final(self).receiver()
                    &&& #[trigger] call_ensures(
                        tokio::sync::oneshot::Receiver::<R::Return>::try_recv,
                        (asked,),
                        reply,
                    )
                    &&& reply_of::<R, V, tokio::sync::oneshot::error::TryRecvError>(reply, r)
                },
            r matches Ok(value) ==> exists|returned: R::Return| #[trigger] unpacks::<R, V>(returned, value),
    {
        let reply = self.future.try_recv();
        Self::cast(reply)
    }
}

} // verus!

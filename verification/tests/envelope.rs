use shakespeare::returnval::{Bridge, Delivery};
use shakespeare::sendable::{send_all_to, send_to};
use shakespeare::{
    Accepts, Channel, Emits, Envelope, ReturnCaster, ReturnEnvelope, ReturnPath, Role,
    RoleReceiver, RoleSender, TokioUnbounded,
};
use std::sync::atomic::{AtomicUsize, Ordering};
use std::sync::Arc;
use tokio::sync::mpsc::error::SendError;
use tokio::sync::mpsc::{UnboundedReceiver, UnboundedSender};
use tokio::sync::oneshot::error::TryRecvError;

#[derive(Debug, PartialEq)]
enum Call {
    Compute,
    Speak(usize),
}

#[derive(Debug, PartialEq)]
enum Reply {
    Compute(i32),
    Speak(usize),
}

/// An actor's shell with one role, whose calls are `Call`s.
struct Speaker {
    queue: UnboundedSender<ReturnEnvelope<Speaker>>,
}

impl Role for Speaker {
    type Payload = Call;
    type Return = Reply;
    type Channel = TokioUnbounded<ReturnEnvelope<Speaker>>;

    fn enqueue(&self, val: ReturnEnvelope<Speaker>) -> Result<(), SendError<ReturnEnvelope<Speaker>>> {
        RoleSender::send(&self.queue, val)
    }
}

impl Accepts<usize> for Speaker {
    fn into_payload(t: usize) -> Call {
        Call::Speak(t)
    }
}

impl Emits<i32> for Speaker {
    fn from_return_payload(t: Reply) -> i32 {
        match t {
            Reply::Compute(v) => v,
            _ => panic!("not an i32"),
        }
    }
}

impl Emits<usize> for Speaker {
    fn from_return_payload(t: Reply) -> usize {
        match t {
            Reply::Speak(v) => v,
            _ => panic!("not a usize"),
        }
    }
}

#[derive(Debug, PartialEq)]
enum Intake {
    Accept(i32),
}

/// A second actor's shell, which accepts `i32` values.
struct Listener {
    queue: UnboundedSender<ReturnEnvelope<Listener>>,
}

impl Role for Listener {
    type Payload = Intake;
    type Return = ();
    type Channel = TokioUnbounded<ReturnEnvelope<Listener>>;

    fn enqueue(&self, val: ReturnEnvelope<Listener>) -> Result<(), SendError<ReturnEnvelope<Listener>>> {
        RoleSender::send(&self.queue, val)
    }
}

impl Accepts<i32> for Listener {
    fn into_payload(t: i32) -> Intake {
        Intake::Accept(t)
    }
}

/// A shell whose mailbox only counts, and refuses what comes after `limit`
/// messages.
struct Tally {
    count: AtomicUsize,
    limit: usize,
}

impl Role for Tally {
    type Payload = usize;
    type Return = ();
    type Channel = TokioUnbounded<ReturnEnvelope<Tally>>;

    fn enqueue(&self, val: ReturnEnvelope<Tally>) -> Result<(), SendError<ReturnEnvelope<Tally>>> {
        if self.count.load(Ordering::SeqCst) >= self.limit {
            return Err(SendError(val));
        }
        self.count.fetch_add(1, Ordering::SeqCst);
        Ok(())
    }
}

fn speaker() -> (Arc<Speaker>, UnboundedReceiver<ReturnEnvelope<Speaker>>) {
    let (queue, mailbox) = <Speaker as Role>::Channel::new(());
    (Arc::new(Speaker { queue }), mailbox)
}

fn listener() -> (Arc<Listener>, UnboundedReceiver<ReturnEnvelope<Listener>>) {
    let (queue, mailbox) = <Listener as Role>::Channel::new(());
    (Arc::new(Listener { queue }), mailbox)
}

fn tally(limit: usize) -> Arc<Tally> {
    Arc::new(Tally { count: AtomicUsize::new(0), limit })
}

#[test]
fn a_new_channel_is_empty_and_carries_what_is_sent() {
    let (tx, mut rx) = TokioUnbounded::<usize>::new(());
    assert!(RoleReceiver::is_empty(&rx));
    assert_eq!(RoleSender::send(&tx, 40), Ok(()));
    assert!(!RoleReceiver::is_empty(&rx));
    assert_eq!(rx.try_recv(), Ok(40));
    assert!(RoleReceiver::is_empty(&rx));
}

#[test]
fn a_closed_channel_hands_the_message_back() {
    let (tx, rx) = TokioUnbounded::<usize>::new(());
    drop(rx);
    assert_eq!(RoleSender::send(&tx, 40), Err(SendError(40)));
}

#[test]
fn a_channel_keeps_the_order_of_one_sender() {
    let (tx, mut rx) = TokioUnbounded::<usize>::new(());
    let other = tx.clone();
    for n in 0..100 {
        RoleSender::send(if n % 2 == 0 { &tx } else { &other }, n).unwrap();
    }
    for n in 0..100 {
        assert_eq!(rx.try_recv(), Ok(n));
    }
}

#[test]
fn an_envelope_sends_nothing_by_being_made() {
    let (actor, mut mailbox) = speaker();
    let envelope: Envelope<Speaker, usize> = Envelope::new(Call::Speak(40), Arc::clone(&actor));
    assert!(mailbox.is_empty());
    let (payload, dest) = envelope.unpack();
    assert_eq!(payload, Call::Speak(40));
    assert!(Arc::ptr_eq(&dest, &actor));
    assert!(mailbox.try_recv().is_err());
}

#[test]
fn an_envelope_holds_a_handle_to_its_destination() {
    let (actor, _mailbox) = speaker();
    let envelope: Envelope<Speaker, usize> = Envelope::new(Call::Speak(1), Arc::clone(&actor));
    assert_eq!(Arc::strong_count(&actor), 2);
    envelope.dispatch();
    assert_eq!(Arc::strong_count(&actor), 1);
}

#[test]
fn downcast_keeps_call_and_destination() {
    let (actor, _mailbox) = speaker();
    let envelope: Envelope<Speaker, Reply> = Envelope::new(Call::Compute, Arc::clone(&actor));
    let narrowed: Envelope<Speaker, i32> = envelope.downcast();
    let (payload, dest) = narrowed.unpack();
    assert_eq!(payload, Call::Compute);
    assert!(Arc::ptr_eq(&dest, &actor));
}

#[test]
fn discarding_seals_without_sending() {
    let (actor, mailbox) = speaker();
    let envelope: Envelope<Speaker, usize> = Envelope::new(Call::Speak(3), Arc::clone(&actor));
    let (message, dest) = envelope.discarding();
    assert_eq!(message.payload, Call::Speak(3));
    assert!(matches!(message.return_path, ReturnPath::Discard));
    assert!(Arc::ptr_eq(&dest, &actor));
    assert!(mailbox.is_empty());
}

#[test]
fn dispatch_sends_one_message_and_drops_the_result() {
    let (actor, mut mailbox) = speaker();
    let envelope: Envelope<Speaker, usize> = Envelope::new(Call::Speak(40), actor);
    envelope.dispatch();
    let message = mailbox.try_recv().unwrap();
    assert_eq!(message.payload, Call::Speak(40));
    assert!(matches!(message.return_path, ReturnPath::Discard));
    assert!(matches!(message.return_path.send(Reply::Speak(80)), Delivery::Discarded));
    assert!(mailbox.try_recv().is_err());
}

#[test]
fn dispatch_to_a_stopped_actor_is_silent() {
    let (actor, mailbox) = speaker();
    drop(mailbox);
    let envelope: Envelope<Speaker, usize> = Envelope::new(Call::Speak(40), actor);
    envelope.dispatch();
}

#[test]
fn ignore_sends_one_message_and_reports_success() {
    let (actor, mut mailbox) = speaker();
    let envelope: Envelope<Speaker, usize> = Envelope::new(Call::Speak(40), actor);
    assert!(envelope.ignore().is_ok());
    let message = mailbox.try_recv().unwrap();
    assert_eq!(message.payload, Call::Speak(40));
    assert!(matches!(message.return_path, ReturnPath::Discard));
    assert!(mailbox.try_recv().is_err());
}

#[test]
fn ignore_reports_a_stopped_actor() {
    let (actor, mailbox) = speaker();
    drop(mailbox);
    let envelope: Envelope<Speaker, usize> = Envelope::new(Call::Speak(40), actor);
    let refused = envelope.ignore().unwrap_err();
    assert_eq!(refused.0.payload, Call::Speak(40));
    assert!(matches!(refused.0.return_path, ReturnPath::Discard));
}

#[test]
fn an_awaited_call_gets_its_reply() {
    let (actor, mut mailbox) = speaker();
    let envelope: Envelope<Speaker, usize> = Envelope::new(Call::Speak(40), actor);
    let mut caster = envelope.into_future().unwrap();
    assert!(matches!(caster.poll(), Err(TryRecvError::Empty)));
    let message = mailbox.try_recv().unwrap();
    assert_eq!(message.payload, Call::Speak(40));
    assert!(matches!(message.return_path, ReturnPath::Immediate(_)));
    assert!(matches!(caster.poll(), Err(TryRecvError::Empty)));
    assert!(matches!(message.return_path.send(Reply::Speak(80)), Delivery::Replied));
    assert!(matches!(caster.poll(), Ok(80)));
    assert!(mailbox.try_recv().is_err());
}

#[test]
fn an_awaited_call_to_a_stopped_actor_reports_the_refusal() {
    let (actor, mailbox) = speaker();
    drop(mailbox);
    let envelope: Envelope<Speaker, usize> = Envelope::new(Call::Speak(40), actor);
    let refused = match envelope.into_future() {
        Ok(_) => panic!("a stopped actor takes no call"),
        Err(refused) => refused,
    };
    assert_eq!(refused.0.payload, Call::Speak(40));
    assert!(matches!(refused.0.return_path, ReturnPath::Immediate(_)));
}

#[test]
fn the_refused_call_still_holds_the_callers_channel() {
    let (actor, mailbox) = speaker();
    drop(mailbox);
    let envelope: Envelope<Speaker, usize> = Envelope::new(Call::Speak(40), actor);
    let (message, dest, mut caster) = envelope.requesting();
    let refused = dest.enqueue(message).unwrap_err();
    assert!(matches!(caster.poll(), Err(TryRecvError::Empty)));
    assert!(matches!(refused.0.return_path.send(Reply::Speak(80)), Delivery::Replied));
    assert!(matches!(caster.poll(), Ok(80)));
}

#[test]
fn a_reply_reaches_the_receiver_it_was_made_with() {
    let (first, mut first_rx) = ReturnPath::<usize>::create_immediate();
    let (second, mut second_rx) = ReturnPath::<usize>::create_immediate();
    assert!(matches!(second.send(2), Delivery::Replied));
    assert!(matches!(first_rx.try_recv(), Err(TryRecvError::Empty)));
    assert_eq!(second_rx.try_recv(), Ok(2));
    assert!(matches!(first.send(1), Delivery::Replied));
    assert_eq!(first_rx.try_recv(), Ok(1));
}

#[test]
fn a_path_dropped_unresolved_closes_the_callers_channel() {
    let (path, mut rx) = ReturnPath::<usize>::create_immediate();
    assert!(matches!(rx.try_recv(), Err(TryRecvError::Empty)));
    drop(path);
    assert!(matches!(rx.try_recv(), Err(TryRecvError::Closed)));
}

#[test]
fn a_call_that_is_dropped_unhandled_fails_and_is_no_reply() {
    let (actor, mut mailbox) = speaker();
    let envelope: Envelope<Speaker, usize> = Envelope::new(Call::Speak(40), actor);
    let mut caster = envelope.into_future().unwrap();
    let message = mailbox.try_recv().unwrap();
    assert!(matches!(caster.poll(), Err(TryRecvError::Empty)));
    // The actor ends while it holds the message.
    drop(message);
    assert!(matches!(caster.poll(), Err(TryRecvError::Closed)));
}

#[test]
fn a_reply_nobody_waits_for_comes_back() {
    let (actor, mut mailbox) = speaker();
    let envelope: Envelope<Speaker, usize> = Envelope::new(Call::Speak(40), actor);
    let caster = envelope.into_future().unwrap();
    drop(caster);
    let message = mailbox.try_recv().unwrap();
    assert!(matches!(
        message.return_path.send(Reply::Speak(80)),
        Delivery::Unclaimed(Reply::Speak(80))
    ));
}

#[test]
fn the_reply_can_be_waited_for_on_the_channel_itself() {
    let (actor, mut mailbox) = speaker();
    let envelope: Envelope<Speaker, i32> = Envelope::new(Call::Compute, actor);
    let caster = envelope.into_future().unwrap();
    let message = mailbox.try_recv().unwrap();
    message.return_path.send(Reply::Compute(5));
    let reply = caster.into_inner().blocking_recv();
    let value: Result<i32, _> = ReturnCaster::<Speaker, i32>::cast(reply);
    assert_eq!(value.ok(), Some(5));
}

#[test]
fn cast_unpacks_a_reply_and_keeps_a_failure() {
    let ok: Result<i32, &str> = ReturnCaster::<Speaker, i32>::cast(Ok(Reply::Compute(5)));
    assert_eq!(ok, Ok(5));
    let err: Result<i32, &str> = ReturnCaster::<Speaker, i32>::cast(Err("gone"));
    assert_eq!(err, Err("gone"));
    let other: Result<usize, &str> = ReturnCaster::<Speaker, usize>::cast(Ok(Reply::Speak(80)));
    assert_eq!(other, Ok(80));
}

#[test]
fn create_immediate_pairs_the_path_with_its_receiver() {
    let (path, mut rx) = ReturnPath::<usize>::create_immediate();
    assert!(matches!(path, ReturnPath::Immediate(_)));
    assert!(matches!(path.send(7), Delivery::Replied));
    assert_eq!(rx.try_recv(), Ok(7));
}

#[test]
fn a_return_path_discards_by_default() {
    let path: ReturnPath<usize> = ReturnPath::default();
    assert!(matches!(path, ReturnPath::Discard));
    assert!(matches!(path.send(3), Delivery::Discarded));
}

#[test]
fn a_channel_can_be_made_from_the_default_input() {
    let (tx, mut rx) = TokioUnbounded::<usize>::new_default();
    RoleSender::send(&tx, 9).unwrap();
    assert_eq!(rx.try_recv(), Ok(9));
}

#[test]
fn return_paths_name_their_kind() {
    let (immediate, _rx) = ReturnPath::<i32>::create_immediate();
    assert_eq!(immediate.label(), "<ReturnPath::Immediate>");
    assert_eq!(ReturnPath::<i32>::Discard.label(), "<ReturnPath::Discard>");
    let (recipient, _mailbox) = listener();
    let bridge: Bridge<Speaker, Listener, i32> = Bridge::new(recipient);
    let mailbox_path: ReturnPath<Reply> = ReturnPath::Mailbox(Box::new(bridge));
    assert_eq!(mailbox_path.label(), "<ReturnPath::Mailbox>");
}

#[test]
fn a_result_is_forwarded_to_a_second_actor() {
    // X computes 5; the result is forwarded to Y, which observes accept(5).
    let (x, mut x_mailbox) = speaker();
    let (y, mut y_mailbox) = listener();
    let envelope: Envelope<Speaker, i32> = Envelope::new(Call::Compute, x);
    assert!(envelope.forward_to(Arc::clone(&y)).is_ok());
    assert!(y_mailbox.is_empty());

    // X's loop takes the call and runs the handler.
    let message = x_mailbox.try_recv().unwrap();
    assert_eq!(message.payload, Call::Compute);
    assert!(matches!(message.return_path, ReturnPath::Mailbox(_)));
    let returned = Reply::Compute(5);
    assert!(matches!(message.return_path.send(returned), Delivery::Forwarded(true)));

    // X is done with it, and Y has the call in its mailbox.
    assert!(x_mailbox.is_empty());
    let forwarded = y_mailbox.try_recv().unwrap();
    assert_eq!(forwarded.payload, Intake::Accept(5));
    assert!(matches!(forwarded.return_path, ReturnPath::Discard));
    assert!(y_mailbox.try_recv().is_err());
}

#[test]
fn forwarding_keeps_the_recipient_alive_until_the_result_is_passed_on() {
    let (x, mut x_mailbox) = speaker();
    let (y, _y_mailbox) = listener();
    let envelope: Envelope<Speaker, i32> = Envelope::new(Call::Compute, x);
    envelope.forward_to(Arc::clone(&y)).unwrap();
    assert_eq!(Arc::strong_count(&y), 2);
    let message = x_mailbox.try_recv().unwrap();
    message.return_path.send(Reply::Compute(5));
    assert_eq!(Arc::strong_count(&y), 1);
}

#[test]
fn forwarding_to_a_stopped_recipient_is_silent() {
    let (x, mut x_mailbox) = speaker();
    let (y, y_mailbox) = listener();
    drop(y_mailbox);
    let envelope: Envelope<Speaker, i32> = Envelope::new(Call::Compute, x);
    assert!(envelope.forward_to(y).is_ok());
    let message = x_mailbox.try_recv().unwrap();
    assert!(matches!(message.return_path.send(Reply::Compute(5)), Delivery::Forwarded(false)));
}

#[test]
fn forward_reports_a_stopped_origin() {
    let (x, x_mailbox) = speaker();
    let (y, y_mailbox) = listener();
    drop(x_mailbox);
    let envelope: Envelope<Speaker, i32> = Envelope::new(Call::Compute, x);
    let refused = envelope.forward_to(y).unwrap_err();
    assert_eq!(refused.0.payload, Call::Compute);
    assert!(matches!(refused.0.return_path, ReturnPath::Mailbox(_)));
    assert!(y_mailbox.is_empty());
}

#[test]
fn forwarding_seals_without_sending() {
    let (x, x_mailbox) = speaker();
    let (y, y_mailbox) = listener();
    let envelope: Envelope<Speaker, i32> = Envelope::new(Call::Compute, Arc::clone(&x));
    let (message, dest) = envelope.forwarding(y);
    assert_eq!(message.payload, Call::Compute);
    assert!(matches!(message.return_path, ReturnPath::Mailbox(_)));
    assert!(Arc::ptr_eq(&dest, &x));
    assert!(x_mailbox.is_empty());
    assert!(y_mailbox.is_empty());
}

#[test]
fn requesting_seals_without_sending() {
    let (x, x_mailbox) = speaker();
    let envelope: Envelope<Speaker, i32> = Envelope::new(Call::Compute, Arc::clone(&x));
    let (message, dest, mut caster) = envelope.requesting();
    assert_eq!(message.payload, Call::Compute);
    assert!(matches!(message.return_path, ReturnPath::Immediate(_)));
    assert!(Arc::ptr_eq(&dest, &x));
    assert!(x_mailbox.is_empty());
    assert!(matches!(caster.poll(), Err(TryRecvError::Empty)));
    message.return_path.send(Reply::Compute(9));
    assert!(matches!(caster.poll(), Ok(9)));
}

#[test]
fn a_bridge_packages_a_return_as_a_call() {
    let message: ReturnEnvelope<Listener> = Bridge::<Speaker, Listener, i32>::package(Reply::Compute(5));
    assert_eq!(message.payload, Intake::Accept(5));
    assert!(matches!(message.return_path, ReturnPath::Discard));
}

#[test]
fn a_bridge_reports_what_the_recipient_answered() {
    let (y, mut y_mailbox) = listener();
    let bridge: Bridge<Speaker, Listener, i32> = Bridge::new(Arc::clone(&y));
    assert!(bridge.deliver(Reply::Compute(5)).is_ok());
    assert_eq!(y_mailbox.try_recv().unwrap().payload, Intake::Accept(5));
    drop(y_mailbox);
    let bridge: Bridge<Speaker, Listener, i32> = Bridge::new(y);
    let refused = bridge.deliver(Reply::Compute(6)).unwrap_err();
    assert_eq!(refused.0.payload, Intake::Accept(6));
}

#[test]
fn calls_awaited_in_turn_are_handled_in_order() {
    // A, B and C are sent from one place, each awaited before the next.
    let (actor, mut mailbox) = speaker();
    let mut seen = Vec::new();
    for n in [1usize, 2, 3] {
        let envelope: Envelope<Speaker, usize> = Envelope::new(Call::Speak(n), Arc::clone(&actor));
        let mut caster = envelope.into_future().unwrap();
        let message = mailbox.try_recv().unwrap();
        if let Call::Speak(v) = message.payload {
            seen.push(v);
            message.return_path.send(Reply::Speak(2 * v));
        }
        assert!(matches!(caster.poll(), Ok(v) if v == 2 * n));
    }
    assert_eq!(seen, vec![1, 2, 3]);
}

#[test]
fn messages_of_one_sender_arrive_in_sending_order_in_every_mode() {
    let (actor, mut mailbox) = speaker();
    let (other, _other_mailbox) = listener();
    let a: Envelope<Speaker, usize> = Envelope::new(Call::Speak(1), Arc::clone(&actor));
    let b: Envelope<Speaker, usize> = Envelope::new(Call::Speak(2), Arc::clone(&actor));
    let c: Envelope<Speaker, i32> = Envelope::new(Call::Compute, Arc::clone(&actor));
    let d: Envelope<Speaker, usize> = Envelope::new(Call::Speak(4), Arc::clone(&actor));
    a.ignore().unwrap();
    let _caster = b.into_future().unwrap();
    c.forward_to(other).unwrap();
    d.dispatch();
    assert_eq!(mailbox.try_recv().unwrap().payload, Call::Speak(1));
    assert_eq!(mailbox.try_recv().unwrap().payload, Call::Speak(2));
    assert_eq!(mailbox.try_recv().unwrap().payload, Call::Compute);
    assert_eq!(mailbox.try_recv().unwrap().payload, Call::Speak(4));
    assert!(mailbox.try_recv().is_err());
}

#[test]
fn every_envelope_is_enqueued_exactly_once() {
    let counter = tally(usize::MAX);
    let n = 250;
    let envelopes: Vec<Envelope<Tally, ()>> =
        (0..n).map(|i| Envelope::new(i, Arc::clone(&counter))).collect();
    assert_eq!(counter.count.load(Ordering::SeqCst), 0);
    for envelope in envelopes {
        envelope.dispatch();
    }
    assert_eq!(counter.count.load(Ordering::SeqCst), n);
}

#[test]
fn each_way_of_consuming_enqueues_one_message() {
    let (actor, mut mailbox) = speaker();
    let (other, _other_mailbox) = listener();
    let make = |n: usize| -> Envelope<Speaker, usize> { Envelope::new(Call::Speak(n), Arc::clone(&actor)) };
    let count = |mailbox: &mut UnboundedReceiver<ReturnEnvelope<Speaker>>| {
        let mut n = 0;
        while mailbox.try_recv().is_ok() {
            n += 1;
        }
        n
    };
    make(1).dispatch();
    assert_eq!(count(&mut mailbox), 1);
    make(2).ignore().unwrap();
    assert_eq!(count(&mut mailbox), 1);
    let _caster = make(3).into_future().unwrap();
    assert_eq!(count(&mut mailbox), 1);
    let forwarded: Envelope<Speaker, i32> = Envelope::new(Call::Compute, Arc::clone(&actor));
    forwarded.forward_to(other).unwrap();
    assert_eq!(count(&mut mailbox), 1);
}

#[test]
fn send_to_packs_the_value_as_the_call_that_takes_it() {
    let (actor, mut mailbox) = speaker();
    assert!(send_to(40usize, &actor).is_ok());
    let message = mailbox.try_recv().unwrap();
    assert_eq!(message.payload, Call::Speak(40));
    assert!(matches!(message.return_path, ReturnPath::Discard));
}

#[test]
fn send_to_takes_a_payload_as_it_is() {
    let (actor, mut mailbox) = speaker();
    assert!(send_to(Call::Compute, &actor).is_ok());
    assert_eq!(mailbox.try_recv().unwrap().payload, Call::Compute);
}

#[test]
fn send_to_reports_a_stopped_actor() {
    let (actor, mailbox) = speaker();
    drop(mailbox);
    let refused = send_to(40usize, &actor).unwrap_err();
    assert_eq!(refused.0.payload, Call::Speak(40));
}

#[test]
fn send_all_to_delivers_in_order() {
    let (actor, mut mailbox) = speaker();
    assert_eq!(send_all_to((0..10usize).collect(), &actor), 10);
    for n in 0..10 {
        assert_eq!(mailbox.try_recv().unwrap().payload, Call::Speak(n));
    }
    assert!(mailbox.try_recv().is_err());
}

#[test]
fn send_all_to_stops_at_the_first_refusal() {
    let counter = tally(3);
    assert_eq!(send_all_to(vec![10usize, 11, 12, 13, 14], &counter), 3);
    assert_eq!(counter.count.load(Ordering::SeqCst), 3);
    assert_eq!(send_all_to(vec![15usize], &counter), 0);
    assert_eq!(send_all_to(Vec::<usize>::new(), &counter), 0);
}

#[test]
fn send_all_to_a_stopped_actor_delivers_nothing() {
    let (actor, mailbox) = speaker();
    drop(mailbox);
    assert_eq!(send_all_to(vec![1usize, 2, 3], &actor), 0);
}

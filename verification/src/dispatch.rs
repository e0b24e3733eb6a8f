//! The lifecycle of an actor's dispatch loop, as a state machine.
//!
//! The loop itself waits on mailboxes and on an idle timer, and runs handlers;
//! none of that happens here. What happens here is every decision the loop
//! takes: which mailboxes it may listen to, what it does when a wait ends, and
//! when it stops. The driver performs each [`Directive`] and reports back what
//! happened.

use crate::actor::Outcome;
use crate::actor::Shell;
use crate::actor::State;
use crate::context::sustained;
use crate::context::Context;
use vstd::prelude::*;

verus! {

/// Where a dispatch loop stands.
#[derive(Clone, Copy, Debug, PartialEq, Eq, Structural)]
pub enum Phase {
    /// The actor is sustained: every mailbox is listened to and the watchdog
    /// is armed.
    Running,
    /// The actor was found unsustained. Nothing is waited for any more: only
    /// messages that are already queued are still handled.
    Draining,
    /// The loop has ended, and handles no further message.
    Stopped,
}

/// What ended one wait of the loop.
#[derive(Clone, Copy, Debug, PartialEq, Eq, Structural)]
pub enum Wake {
    /// The mailbox with this index yielded a message.
    Message(usize),
    /// The mailbox with this index turned out to be closed and empty: it
    /// will never yield a message again.
    Closed(usize),
    /// The idle timer fired; the flag is the liveness read taken at that
    /// moment.
    Watchdog(bool),
    /// No branch of the wait was left: the watchdog was not armed, and every
    /// mailbox that was listened to turned out to be closed and empty.
    Exhausted,
}

/// What the driver of the loop has to do next.
#[derive(Clone, Copy, Debug, PartialEq, Eq, Structural)]
pub enum Directive {
    /// Reset the idle timer, then run the handler for the message taken from
    /// the mailbox with this index, to completion.
    Invoke(usize),
    /// Reset the idle timer and go on.
    Rearm,
    /// Go on: with the wait that is set up, if one is, else with a new one.
    Resume,
    /// Leave the loop.
    Halt,
}

/// Why the dispatcher refused a report.
#[derive(Clone, Copy, Debug, PartialEq, Eq, Structural)]
pub enum Fault {
    /// The loop has stopped.
    Stopped,
    /// A handler is still in flight.
    Busy,
    /// No handler is in flight.
    Idle,
    /// The loop is not waiting, or the reported branch was not listened to.
    NotArmed,
    /// The watchdog is armed, so the wait cannot have run out of branches.
    StillArmed,
    /// There is no mailbox with that index, or the number of mailboxes is
    /// wrong.
    UnknownRole,
}

/// How a stopped loop came to its end.
#[derive(Clone, Copy, Debug, PartialEq, Eq, Structural)]
pub enum Verdict {
    /// The loop stopped servicing of its own accord.
    Finished,
    /// A panic ended the loop.
    Panicked,
}

/// What a driver may report to the dispatcher.
pub enum Event {
    /// A wait is about to begin, with this liveness read and these mailboxes
    /// empty.
    Select(bool, Seq<bool>),
    /// The wait ended.
    Woke(Wake),
    /// The handler in flight returned; the flag says whether it asked the
    /// actor to stop.
    Returned(bool),
    /// A panic was caught at the boundary of the loop.
    Panicked,
}

/// The mathematical state of a dispatch loop.
pub struct LoopState {
    /// How many mailboxes the actor has.
    pub roles: nat,
    /// Where the loop stands.
    pub phase: Phase,
    /// How many handlers are executing.
    pub active: nat,
    /// Whether a wait has been set up and has not ended yet.
    pub waiting: bool,
    /// For each mailbox, whether the current wait listens to it.
    pub armed: Seq<bool>,
    /// Whether the current wait includes the idle timer.
    pub watchdog: bool,
    /// Whether a panic ended the loop.
    pub panicked: bool,
}

/// Whether a wait listens to a mailbox: it leaves out a mailbox only while
/// that mailbox is empty and the actor is not sustained.
pub open spec fn mailbox_armed(empty: bool, sustains: bool) -> bool {
    !(empty && !sustains)
}

/// Whether a wait includes the idle timer: only while the actor is sustained.
pub open spec fn watchdog_armed(sustains: bool) -> bool {
    sustains
}

/// The guards of a wait that begins with the given reads.
pub open spec fn armed_set(sustains: bool, empty: Seq<bool>) -> Seq<bool> {
    Seq::new(empty.len(), |i: int| mailbox_armed(empty[i], sustains))
}

/// Whether a wait with these guards listens to any mailbox at all.
pub open spec fn any_armed(armed: Seq<bool>) -> bool {
    exists|i: int| 0 <= i < armed.len() && #[trigger] armed[i]
}

impl LoopState {
    /// The state of a loop that has just been started for `roles` mailboxes.
    pub open spec fn initial(roles: nat) -> LoopState {
        LoopState {
            roles,
            phase: Phase::Running,
            active: 0,
            waiting: false,
            armed: Seq::new(roles, |i: int| false),
            watchdog: false,
            panicked: false,
        }
    }

    /// The invariant of every state a loop can reach.
    pub open spec fn wf(self) -> bool {
        &&& self.active <= 1
        &&& self.armed.len() == self.roles
        &&& self.waiting ==> self.active == 0 && self.phase != Phase::Stopped
        &&& self.waiting ==> self.watchdog || any_armed(self.armed)
        &&& self.phase == Phase::Stopped ==> self.active == 0
        &&& self.panicked ==> self.phase == Phase::Stopped
        &&& !self.waiting ==> !self.watchdog && self.armed == Seq::new(
            self.roles,
            |i: int| false,
        )
    }

    /// The state with no wait set up.
    pub open spec fn disarmed(self) -> LoopState {
        LoopState {
            waiting: false,
            armed: Seq::new(self.roles, |i: int| false),
            watchdog: false,
            ..self
        }
    }

    /// The state after the loop has ended.
    pub open spec fn halted(self, panicked: bool) -> LoopState {
        LoopState { phase: Phase::Stopped, active: 0, panicked, ..self.disarmed() }
    }

    /// Why an event is refused in this state, if it is.
    pub open spec fn fault(self, event: Event) -> Option<Fault> {
        if self.phase == Phase::Stopped {
            Some(Fault::Stopped)
        } else {
            match event {
                Event::Select(_, empty) => if self.active > 0 {
                    Some(Fault::Busy)
                } else if empty.len() != self.roles {
                    Some(Fault::UnknownRole)
                } else {
                    None
                },
                Event::Woke(wake) => if self.active > 0 {
                    Some(Fault::Busy)
                } else if !self.waiting {
                    Some(Fault::NotArmed)
                } else {
                    match wake {
                        Wake::Message(role) | Wake::Closed(role) => if role >= self.roles {
                            Some(Fault::UnknownRole)
                        } else if !self.armed[role as int] {
                            Some(Fault::NotArmed)
                        } else {
                            None
                        },
                        Wake::Watchdog(_) => if !self.watchdog {
                            Some(Fault::NotArmed)
                        } else {
                            None
                        },
                        Wake::Exhausted => if self.watchdog {
                            Some(Fault::StillArmed)
                        } else {
                            None
                        },
                    }
                },
                Event::Returned(_) => if self.active == 0 {
                    Some(Fault::Idle)
                } else {
                    None
                },
                Event::Panicked => None,
            }
        }
    }

    /// Whether nothing is left to wait for after an event: the event starts
    /// a wait that listens to nothing, or it finds the last mailbox that the
    /// wait listens to closed and empty.
    pub open spec fn runs_out(self, event: Event) -> bool {
        match event {
            Event::Select(sustains, empty) => !watchdog_armed(sustains) && !any_armed(
                armed_set(sustains, empty),
            ),
            Event::Woke(Wake::Closed(role)) => !any_armed(self.armed.update(role as int, false)),
            Event::Woke(Wake::Exhausted) => true,
            _ => false,
        }
    }

    /// The state that follows an event. A refused event changes nothing.
    pub open spec fn next(self, event: Event) -> LoopState {
        if self.fault(event) is Some {
            self
        } else if self.runs_out(event) {
            self.halted(false)
        } else {
            match event {
                Event::Select(sustains, empty) => LoopState {
                    phase: if sustains {
                        Phase::Running
                    } else {
                        Phase::Draining
                    },
                    waiting: true,
                    armed: armed_set(sustains, empty),
                    watchdog: watchdog_armed(sustains),
                    ..self
                },
                Event::Woke(Wake::Message(_)) => LoopState { active: 1, ..self.disarmed() },
                Event::Woke(Wake::Closed(role)) => LoopState {
                    armed: self.armed.update(role as int, false),
                    ..self
                },
                Event::Woke(Wake::Watchdog(sustains)) => if sustains {
                    LoopState { phase: Phase::Running, ..self.disarmed() }
                } else {
                    self.halted(false)
                },
                Event::Woke(Wake::Exhausted) => self.halted(false),
                Event::Returned(stop) => if stop {
                    self.halted(false)
                } else {
                    LoopState { active: 0, ..self }
                },
                Event::Panicked => self.halted(true),
            }
        }
    }

    /// What the driver is told to do after an event that is not refused.
    pub open spec fn directive(self, event: Event) -> Directive {
        match event {
            Event::Select(_, _) | Event::Woke(Wake::Closed(_)) => if self.runs_out(event) {
                Directive::Halt
            } else {
                Directive::Resume
            },
            Event::Woke(Wake::Message(role)) => Directive::Invoke(role),
            Event::Woke(Wake::Watchdog(sustains)) => if sustains {
                Directive::Rearm
            } else {
                Directive::Halt
            },
            Event::Woke(Wake::Exhausted) => Directive::Halt,
            Event::Returned(stop) => if stop {
                Directive::Halt
            } else {
                Directive::Resume
            },
            Event::Panicked => Directive::Halt,
        }
    }

    /// The answer to an event: the directive, or why the event is refused.
    pub open spec fn reply(self, event: Event) -> Result<Directive, Fault> {
        match self.fault(event) {
            Some(fault) => Err(fault),
            None => Ok(self.directive(event)),
        }
    }

    /// How the loop ended, once it has.
    pub open spec fn verdict(self) -> Option<Verdict> {
        if self.phase != Phase::Stopped {
            None
        } else if self.panicked {
            Some(Verdict::Panicked)
        } else {
            Some(Verdict::Finished)
        }
    }

    /// The state after a sequence of events, taken in order.
    pub open spec fn run(self, events: Seq<Event>) -> LoopState
        decreases events.len(),
    {
        if events.len() == 0 {
            self
        } else {
            self.run(events.drop_last()).next(events.last())
        }
    }
}

/// Every event leads from a reachable state to a reachable state.
pub proof fn lemma_next_preserves_wf(state: LoopState, event: Event)
    requires
        state.wf(),
    ensures
        state.next(event).wf(),
{
    if state.fault(event) is None {
        match event {
            Event::Select(sustains, empty) => {
                assert(armed_set(sustains, empty).len() == state.roles);
            },
            _ => {},
        }
    }
}

/// A loop that waits always has something to wait for.
pub proof fn lemma_wait_has_a_branch(state: LoopState)
    requires
        state.wf(),
        state.waiting,
    ensures
        state.watchdog || exists|role: int| 0 <= role < state.roles && #[trigger] state.armed[role],
{
}

/// Whatever a driver reports, and in whatever order, the loop stays in a
/// reachable state.
pub proof fn lemma_run_preserves_wf(state: LoopState, events: Seq<Event>)
    requires
        state.wf(),
    ensures
        state.run(events).wf(),
    decreases events.len(),
{
    if events.len() > 0 {
        lemma_run_preserves_wf(state, events.drop_last());
        lemma_next_preserves_wf(state.run(events.drop_last()), events.last());
    }
}

/// From the start of a loop on, whatever is reported to it, no two handlers
/// of the actor execute at once, and a handler is only ever started while
/// none is executing.
pub proof fn lemma_single_writer(roles: nat, events: Seq<Event>, event: Event)
    ensures
        LoopState::initial(roles).run(events).active <= 1,
        LoopState::initial(roles).run(events).reply(event) matches Ok(Directive::Invoke(role))
            ==> {
            &&& LoopState::initial(roles).run(events).active == 0
            &&& LoopState::initial(roles).run(events).next(event).active == 1
            &&& role < roles
        },
{
    lemma_run_preserves_wf(LoopState::initial(roles), events);
    let state = LoopState::initial(roles).run(events);
    assert(state.roles == roles) by {
        lemma_run_keeps_roles(LoopState::initial(roles), events);
    }
}

/// No event changes the number of mailboxes.
pub proof fn lemma_run_keeps_roles(state: LoopState, events: Seq<Event>)
    ensures
        state.run(events).roles == state.roles,
    decreases events.len(),
{
    if events.len() > 0 {
        lemma_run_keeps_roles(state, events.drop_last());
    }
}

/// A handler that returns leaves none executing.
pub proof fn lemma_return_frees_state(state: LoopState, stop: bool)
    requires
        state.wf(),
        state.active == 1,
    ensures
        state.reply(Event::Returned(stop)) is Ok,
        state.next(Event::Returned(stop)).active == 0,
{
}

/// When the idle timer fires and the actor is no longer sustained, the loop
/// stops, and it ends as finished, not as panicked.
pub proof fn lemma_unsustained_watchdog_stops(state: LoopState)
    requires
        state.wf(),
        state.waiting,
        state.watchdog,
    ensures
        state.reply(Event::Woke(Wake::Watchdog(false))) == Ok::<Directive, Fault>(Directive::Halt),
        state.next(Event::Woke(Wake::Watchdog(false))).phase == Phase::Stopped,
        state.next(Event::Woke(Wake::Watchdog(false))).verdict() == Some(Verdict::Finished),
{
}

/// A wait that begins while the actor is not sustained listens to no empty
/// mailbox and to no timer: a message that reaches an empty mailbox later is
/// never handled, while what is queued already still is.
pub proof fn lemma_unsustained_wait(state: LoopState, empty: Seq<bool>, role: usize)
    requires
        state.wf(),
        state.fault(Event::Select(false, empty)) is None,
        role < state.roles,
    ensures
        ({
            let waiting = state.next(Event::Select(false, empty));
            &&& !waiting.watchdog
            &&& empty[role as int] ==> waiting.reply(Event::Woke(Wake::Message(role))) is Err
            &&& !empty[role as int] ==> waiting.phase == Phase::Draining && waiting.reply(
                Event::Woke(Wake::Message(role)),
            ) == Ok::<Directive, Fault>(Directive::Invoke(role))
        }),
{
    let armed = armed_set(false, empty);
    if !empty[role as int] {
        assert(armed[role as int]);
    }
}

/// If the actor is not sustained and every mailbox is empty when a wait is
/// to begin, the loop stops there and then, as finished.
pub proof fn lemma_unsustained_and_idle_stops(state: LoopState, empty: Seq<bool>)
    requires
        state.wf(),
        state.fault(Event::Select(false, empty)) is None,
        forall|i: int| 0 <= i < empty.len() ==> empty[i],
    ensures
        state.reply(Event::Select(false, empty)) == Ok::<Directive, Fault>(Directive::Halt),
        state.next(Event::Select(false, empty)).verdict() == Some(Verdict::Finished),
{
}

/// When the last mailbox that a wait listens to turns out to be closed and
/// empty, the loop stops, as finished; as long as another mailbox is
/// listened to, the wait goes on without the closed one.
pub proof fn lemma_closed_mailbox(state: LoopState, role: usize)
    requires
        state.wf(),
        state.fault(Event::Woke(Wake::Closed(role))) is None,
    ensures
        ({
            let left = state.armed.update(role as int, false);
            let after = state.next(Event::Woke(Wake::Closed(role)));
            &&& !any_armed(left) ==> after.verdict() == Some(Verdict::Finished)
            &&& any_armed(left) ==> {
                &&& after.waiting
                &&& after.armed == left
                &&& after.watchdog == state.watchdog
                &&& after.reply(Event::Woke(Wake::Message(role))) == Err::<Directive, Fault>(
                    Fault::NotArmed,
                )
            }
        }),
{
}

/// Once every mailbox of an actor has turned out to be closed and empty
/// during one wait, the loop has stopped, whether the actor is sustained or
/// not.
pub proof fn lemma_all_closed_stops(state: LoopState, role: usize)
    requires
        state.wf(),
        state.fault(Event::Woke(Wake::Closed(role))) is None,
        forall|other: int| 0 <= other < state.roles && other != role ==> !state.armed[other],
    ensures
        state.reply(Event::Woke(Wake::Closed(role))) == Ok::<Directive, Fault>(Directive::Halt),
        state.next(Event::Woke(Wake::Closed(role))).verdict() == Some(Verdict::Finished),
{
}

/// A wait that begins while the actor is sustained listens to every mailbox
/// and to the idle timer.
pub proof fn lemma_sustained_wait(state: LoopState, empty: Seq<bool>, role: usize)
    requires
        state.wf(),
        state.fault(Event::Select(true, empty)) is None,
        role < state.roles,
    ensures
        ({
            let waiting = state.next(Event::Select(true, empty));
            &&& waiting.phase == Phase::Running
            &&& waiting.watchdog
            &&& waiting.reply(Event::Woke(Wake::Message(role))) == Ok::<Directive, Fault>(
                Directive::Invoke(role),
            )
            &&& waiting.reply(Event::Woke(Wake::Closed(role))) is Ok
            &&& waiting.reply(Event::Woke(Wake::Exhausted)) == Err::<Directive, Fault>(
                Fault::StillArmed,
            )
        }),
{
}

/// When the idle timer fires and the actor is sustained at that moment, the
/// loop does not stop, whatever the liveness read was before.
pub proof fn lemma_sustained_watchdog_rearms(state: LoopState)
    requires
        state.wf(),
        state.waiting,
        state.watchdog,
    ensures
        state.reply(Event::Woke(Wake::Watchdog(true))) == Ok::<Directive, Fault>(Directive::Rearm),
        state.next(Event::Woke(Wake::Watchdog(true))).phase == Phase::Running,
        state.next(Event::Woke(Wake::Watchdog(true))).active == 0,
{
}

/// Once the last handle outside the loop is dropped, the next firing of the
/// idle timer stops the loop, whether or not a handler has asked for that.
pub proof fn lemma_last_handle_dropped_stops(state: LoopState, running: bool)
    requires
        state.wf(),
        state.waiting,
        state.watchdog,
    ensures
        state.next(Event::Woke(Wake::Watchdog(sustained(1, running)))).verdict() == Some(
            Verdict::Finished,
        ),
{
}

/// An actor without hooks ends with an exit of the unit value once its last
/// handle outside the loop is dropped and the idle timer has fired: the
/// loop stops there, as finished and not as panicked; a loop that finished
/// exits with what its stop hook returns, which without a hook is the unit
/// value; and whoever joins on the loop's task finds that exit as the
/// outcome.
pub proof fn lemma_unhooked_actor_exits_with_unit<A: Shell<ExitType = (), PanicType = X>, X>(
    state: LoopState,
    running: bool,
    exit: Result<(), X>,
)
    requires
        state.wf(),
        state.waiting,
        state.watchdog,
        exit is Ok,
    ensures
        state.reply(Event::Woke(Wake::Watchdog(sustained(1, running)))) == Ok::<Directive, Fault>(
            Directive::Halt,
        ),
        state.next(Event::Woke(Wake::Watchdog(sustained(1, running)))).verdict() == Some(
            Verdict::Finished,
        ),
        Outcome::<A>::of(Ok(exit)) == Outcome::<A>::Exit(()),
{
}

/// A handle that a handler has handed out keeps the loop from stopping at
/// the next firing of the idle timer, however many other handles were
/// dropped meanwhile, as long as no handler has asked the actor to stop.
pub proof fn lemma_handed_out_handle_rescues(state: LoopState, others: nat)
    requires
        state.wf(),
        state.waiting,
        state.watchdog,
    ensures
        state.reply(Event::Woke(Wake::Watchdog(sustained(1 + 1 + others, true)))) == Ok::<
            Directive,
            Fault,
        >(Directive::Rearm),
        state.next(Event::Woke(Wake::Watchdog(sustained(1 + 1 + others, true)))).phase
            == Phase::Running,
{
}

/// A stopped loop stays as it is: it refuses every report, so it starts no
/// handler, and its verdict does not change.
pub proof fn lemma_stopped_is_final(state: LoopState, events: Seq<Event>, event: Event)
    requires
        state.phase == Phase::Stopped,
    ensures
        state.run(events) == state,
        state.run(events).reply(event) == Err::<Directive, Fault>(Fault::Stopped),
    decreases events.len(),
{
    if events.len() > 0 {
        lemma_stopped_is_final(state, events.drop_last(), events.last());
    }
}

/// A panic stops a running loop at once with the verdict of a panic, and
/// nothing reported afterwards starts a handler or changes that verdict.
pub proof fn lemma_panic_is_final(state: LoopState, events: Seq<Event>, event: Event)
    requires
        state.wf(),
        state.phase != Phase::Stopped,
    ensures
        state.reply(Event::Panicked) == Ok::<Directive, Fault>(Directive::Halt),
        state.next(Event::Panicked).verdict() == Some(Verdict::Panicked),
        state.next(Event::Panicked).active == 0,
        state.next(Event::Panicked).run(events) == state.next(Event::Panicked),
        state.next(Event::Panicked).run(events).reply(event) == Err::<Directive, Fault>(
            Fault::Stopped,
        ),
{
    lemma_stopped_is_final(state.next(Event::Panicked), events, event);
}

/// A handler's request to stop is honored when that handler returns, and
/// not before: the loop then ends as finished, whatever is still queued.
pub proof fn lemma_stop_request_halts(state: LoopState)
    requires
        state.wf(),
        state.active == 1,
    ensures
        state.reply(Event::Returned(true)) == Ok::<Directive, Fault>(Directive::Halt),
        state.next(Event::Returned(true)).verdict() == Some(Verdict::Finished),
{
}

/// The branches of a wait that the driver listens to.
#[derive(Debug)]
pub struct Guards {
    /// For each mailbox, whether its receive branch is enabled.
    pub mailboxes: Vec<bool>,
    /// Whether the idle timer's branch is enabled.
    pub watchdog: bool,
}

/// Decides whether a wait listens to a mailbox.
pub fn arm_mailbox(empty: bool, sustains: bool) -> (armed: bool)
    ensures
        armed == mailbox_armed(empty, sustains),
{
    !(empty && !sustains)
}

/// Decides whether a wait includes the idle timer.
pub fn arm_watchdog(sustains: bool) -> (armed: bool)
    ensures
        armed == watchdog_armed(sustains),
{
    sustains
}

/// The control state of one actor's dispatch loop.
#[derive(Debug)]
pub struct Dispatcher {
    roles: usize,
    phase: Phase,
    active: usize,
    waiting: bool,
    armed: Vec<bool>,
    watchdog: bool,
    panicked: bool,
}

impl View for Dispatcher {
    type V = LoopState;

    closed spec fn view(&self) -> LoopState {
        LoopState {
            roles: self.roles as nat,
            phase: self.phase,
            active: self.active as nat,
            waiting: self.waiting,
            armed: self.armed@,
            watchdog: self.watchdog,
            panicked: self.panicked,
        }
    }
}

fn all_clear(roles: usize) -> (flags: Vec<bool>)
    ensures
        flags@ == Seq::new(roles as nat, |i: int| false),
{
    let mut flags: Vec<bool> = Vec::new();
    let mut i: usize = 0;
    while i < roles
        invariant
            i <= roles,
            flags@ == Seq::new(i as nat, |k: int| false),
        decreases roles - i,
    {
        flags.push(false);
        i += 1;
        assert(flags@ =~= Seq::new(i as nat, |k: int| false));
    }
    flags
}

fn copy_of(flags: &Vec<bool>) -> (copy: Vec<bool>)
    ensures
        copy@ == flags@,
{
    let mut copy: Vec<bool> = Vec::new();
    let mut i: usize = 0;
    while i < flags.len()
        invariant
            i <= flags.len(),
            copy@ == flags@.subrange(0, i as int),
        decreases flags.len() - i,
    {
        copy.push(flags[i]);
        i += 1;
        assert(copy@ =~= flags@.subrange(0, i as int));
    }
    assert(flags@.subrange(0, i as int) =~= flags@);
    copy
}

fn some_armed(flags: &Vec<bool>) -> (found: bool)
    ensures
        found == any_armed(flags@),
{
    let mut i: usize = 0;
    while i < flags.len()
        invariant
            i <= flags.len(),
            forall|k: int| 0 <= k < i ==> !flags@[k],
        decreases flags.len() - i,
    {
        if flags[i] {
            return true;
        }
        i += 1;
    }
    false
}

impl Dispatcher {
    #[verifier::type_invariant]
    spec fn inv(self) -> bool {
        self@.wf()
    }

    /// A dispatcher for an actor with `roles` mailboxes, about to begin its
    /// first wait.
    pub fn new(roles: usize) -> (dispatcher: Dispatcher)
        ensures
            dispatcher@ == LoopState::initial(roles as nat),
    {
        Dispatcher {
            roles,
            phase: Phase::Running,
            active: 0,
            waiting: false,
            armed: all_clear(roles),
            watchdog: false,
            panicked: false,
        }
    }

    /// Where the loop stands.
    pub fn phase(&self) -> (phase: Phase)
        ensures
            phase == self@.phase,
    {
        self.phase
    }

    /// How many handlers are executing: never more than one.
    pub fn active(&self) -> (active: usize)
        ensures
            active == self@.active,
            active <= 1,
    {
        proof {
            use_type_invariant(self);
        }
        self.active
    }

    /// How many mailboxes the actor has.
    pub fn roles(&self) -> (roles: usize)
        ensures
            roles == self@.roles,
    {
        self.roles
    }

    /// How the loop ended, once it has.
    pub fn verdict(&self) -> (verdict: Option<Verdict>)
        ensures
            verdict == self@.verdict(),
    {
        if self.phase != Phase::Stopped {
            None
        } else if self.panicked {
            Some(Verdict::Panicked)
        } else {
            Some(Verdict::Finished)
        }
    }

    /// Whether the wait that is on listens to the mailbox with this index.
    pub fn listens(&self, role: usize) -> (listens: bool)
        ensures
            listens == (role < self@.roles && self@.armed[role as int]),
    {
        proof {
            use_type_invariant(self);
        }
        role < self.roles && self.armed[role]
    }

    /// Whether the wait that is on includes the idle timer.
    pub fn watches(&self) -> (watches: bool)
        ensures
            watches == self@.watchdog,
    {
        self.watchdog
    }

    /// The branches that the wait that is on listens to.
    pub fn guards(&self) -> (guards: Guards)
        ensures
            guards.mailboxes@ == self@.armed,
            guards.watchdog == self@.watchdog,
    {
        Guards { mailboxes: copy_of(&self.armed), watchdog: self.watchdog }
    }

    fn halt(&mut self, panicked: bool)
        ensures
            final(self)@ == old(self)@.halted(panicked),
    {
        let armed = all_clear(self.roles);
        *self = Dispatcher {
            roles: self.roles,
            phase: Phase::Stopped,
            active: 0,
            waiting: false,
            armed,
            watchdog: false,
            panicked,
        };
    }

    /// Sets up the next wait of the loop from a liveness read and from the
    /// emptiness of each mailbox.
    ///
    /// A mailbox is left out only while it is empty and the actor is not
    /// sustained; the idle timer is included only while the actor is
    /// sustained. If that leaves nothing to wait for, the loop stops here.
    /// Otherwise the wait is on, and [`Dispatcher::guards`] says what it
    /// listens to.
    pub fn select(&mut self, sustains: bool, empty: &[bool]) -> (r: Result<Directive, Fault>)
        ensures
            final(self)@ == old(self)@.next(Event::Select(sustains, empty@)),
            final(self)@.wf(),
            r == old(self)@.reply(Event::Select(sustains, empty@)),
    {
        proof {
            use_type_invariant(&*self);
        }
        if self.phase == Phase::Stopped {
            return Err(Fault::Stopped);
        }
        if self.active > 0 {
            return Err(Fault::Busy);
        }
        if empty.len() != self.roles {
            return Err(Fault::UnknownRole);
        }
        let mut armed: Vec<bool> = Vec::new();
        let mut i: usize = 0;
        while i < empty.len()
            invariant
                i <= empty.len(),
                armed@ == armed_set(sustains, empty@.subrange(0, i as int)),
            decreases empty.len() - i,
        {
            armed.push(arm_mailbox(empty[i], sustains));
            i += 1;
            assert(armed@ =~= armed_set(sustains, empty@.subrange(0, i as int)));
        }
        assert(empty@.subrange(0, i as int) =~= empty@);
        let watchdog = arm_watchdog(sustains);
        if !watchdog && !some_armed(&armed) {
            self.halt(false);
            return Ok(Directive::Halt);
        }
        *self = Dispatcher {
            roles: self.roles,
            phase: if sustains {
                Phase::Running
            } else {
                Phase::Draining
            },
            active: 0,
            waiting: true,
            armed,
            watchdog,
            panicked: false,
        };
        Ok(Directive::Resume)
    }

    /// Takes the end of a wait, or what the wait found out about a mailbox,
    /// and says what the loop does about it.
    ///
    /// A message from a mailbox that the wait listens to is handled. A
    /// mailbox that is closed and empty is no longer listened to; if it was
    /// the last that the wait listened to, the loop stops. The idle timer
    /// stops the loop if the actor is no longer sustained when it fires, and
    /// is reset otherwise. A wait that ran out of branches stops the loop.
    pub fn wake(&mut self, wake: Wake) -> (r: Result<Directive, Fault>)
        ensures
            final(self)@ == old(self)@.next(Event::Woke(wake)),
            final(self)@.wf(),
            r == old(self)@.reply(Event::Woke(wake)),
    {
        proof {
            use_type_invariant(&*self);
        }
        if self.phase == Phase::Stopped {
            return Err(Fault::Stopped);
        }
        if self.active > 0 {
            return Err(Fault::Busy);
        }
        if !self.waiting {
            return Err(Fault::NotArmed);
        }
        match wake {
            Wake::Message(role) => {
                if role >= self.roles {
                    return Err(Fault::UnknownRole);
                }
                if !self.armed[role] {
                    return Err(Fault::NotArmed);
                }
                let armed = all_clear(self.roles);
                *self = Dispatcher {
                    roles: self.roles,
                    phase: self.phase,
                    active: 1,
                    waiting: false,
                    armed,
                    watchdog: false,
                    panicked: false,
                };
                Ok(Directive::Invoke(role))
            },
            Wake::Closed(role) => {
                if role >= self.roles {
                    return Err(Fault::UnknownRole);
                }
                if !self.armed[role] {
                    return Err(Fault::NotArmed);
                }
                let mut armed = copy_of(&self.armed);
                armed.set(role, false);
                if !some_armed(&armed) {
                    self.halt(false);
                    return Ok(Directive::Halt);
                }
                *self = Dispatcher {
                    roles: self.roles,
                    phase: self.phase,
                    active: 0,
                    waiting: true,
                    armed,
                    watchdog: self.watchdog,
                    panicked: false,
                };
                Ok(Directive::Resume)
            },
            Wake::Watchdog(sustains) => {
                if !self.watchdog {
                    return Err(Fault::NotArmed);
                }
                if sustains {
                    let armed = all_clear(self.roles);
                    *self = Dispatcher {
                        roles: self.roles,
                        phase: Phase::Running,
                        active: 0,
                        waiting: false,
                        armed,
                        watchdog: false,
                        panicked: false,
                    };
                    Ok(Directive::Rearm)
                } else {
                    self.halt(false);
                    Ok(Directive::Halt)
                }
            },
            Wake::Exhausted => {
                if self.watchdog {
                    return Err(Fault::StillArmed);
                }
                self.halt(false);
                Ok(Directive::Halt)
            },
        }
    }

    /// Takes the return of the handler in flight. If the handler asked the
    /// actor to stop, the loop ends here; otherwise it goes on.
    pub fn returned(&mut self, stop: bool) -> (r: Result<Directive, Fault>)
        ensures
            final(self)@ == old(self)@.next(Event::Returned(stop)),
            final(self)@.wf(),
            r == old(self)@.reply(Event::Returned(stop)),
    {
        proof {
            use_type_invariant(&*self);
        }
        if self.phase == Phase::Stopped {
            return Err(Fault::Stopped);
        }
        if self.active == 0 {
            return Err(Fault::Idle);
        }
        if stop {
            self.halt(false);
            Ok(Directive::Halt)
        } else {
            let armed = all_clear(self.roles);
            *self = Dispatcher {
                roles: self.roles,
                phase: self.phase,
                active: 0,
                waiting: false,
                armed,
                watchdog: false,
                panicked: false,
            };
            Ok(Directive::Resume)
        }
    }

    /// Takes a panic caught at the boundary of the loop: the loop ends at
    /// once, whatever it was doing.
    pub fn panicked(&mut self) -> (r: Result<Directive, Fault>)
        ensures
            final(self)@ == old(self)@.next(Event::Panicked),
            final(self)@.wf(),
            r == old(self)@.reply(Event::Panicked),
    {
        proof {
            use_type_invariant(&*self);
        }
        if self.phase == Phase::Stopped {
            return Err(Fault::Stopped);
        }
        self.halt(true);
        Ok(Directive::Halt)
    }

    /// Sets up the next wait as [`Dispatcher::select`] does, with a
    /// liveness read of the context, taken at this moment.
    pub fn begin_wait<A: State + ?Sized>(&mut self, context: &Context<A>, empty: &[bool]) -> (r:
        Result<Directive, Fault>)
        ensures
            final(self)@.wf(),
            exists|sustains: bool|
                {
                    &&& context.reads(sustains)
                    &&& final(self)@ == #[trigger] old(self)@.next(Event::Select(sustains, empty@))
                    &&& r == old(self)@.reply(Event::Select(sustains, empty@))
                },
    {
        let sustains = context.sustains();
        let r = self.select(sustains, empty);
        assert(final(self)@ == old(self)@.next(Event::Select(sustains, empty@)));
        r
    }

    /// Takes the firing of the idle timer as [`Dispatcher::wake`] does, with
    /// a liveness read of the context, taken at this moment.
    pub fn tick<A: State + ?Sized>(&mut self, context: &Context<A>) -> (r: Result<Directive, Fault>)
        ensures
            final(self)@.wf(),
            exists|sustains: bool|
                {
                    &&& context.reads(sustains)
                    &&& final(self)@ == #[trigger] old(self)@.next(
                        Event::Woke(Wake::Watchdog(sustains)),
                    )
                    &&& r == old(self)@.reply(Event::Woke(Wake::Watchdog(sustains)))
                },
    {
        let sustains = context.sustains();
        let r = self.wake(Wake::Watchdog(sustains));
        assert(final(self)@ == old(self)@.next(Event::Woke(Wake::Watchdog(sustains))));
        r
    }

    /// Takes the return of the handler in flight as [`Dispatcher::returned`]
    /// does: the handler asked the actor to stop if the context that it was
    /// given says so.
    pub fn handler_returned<A: State + ?Sized>(&mut self, context: &Context<A>) -> (r: Result<
        Directive,
        Fault,
    >)
        ensures
            final(self)@ == old(self)@.next(Event::Returned(!context.running())),
            final(self)@.wf(),
            r == old(self)@.reply(Event::Returned(!context.running())),
    {
        let running = context.is_running();
        self.returned(!running)
    }
}

} // verus!

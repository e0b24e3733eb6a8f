//! How an actor's end is seen from outside: the handle that is awaited for
//! it, and the outcome that the handle resolves to.

use std::sync::Arc;
use tokio::task::JoinError;
use tokio::task::JoinHandle;
use vstd::prelude::*;
use vstd::std_specs::cmp::PartialEqSpec;
use vstd::std_specs::cmp::PartialEqSpecImpl;

verus! {

/// The error with which tokio reports that a task did not run to its end.
#[verifier::external_type_specification]
#[verifier::external_body]
pub struct ExJoinError(JoinError);

/// tokio's owned permission to join on a task.
#[verifier::external_type_specification]
#[verifier::external_body]
#[verifier::reject_recursive_types(T)]
pub struct ExJoinHandle<T>(JoinHandle<T>);

/// The public face of an actor: the type through which messages are sent to
/// it, together with the types of the values it ends with.
pub trait Shell {
    /// What the actor's stop hook returns.
    type ExitType;

    /// What the actor's catch hook returns.
    type PanicType;
}

/// The exclusively owned state of an actor.
pub trait State {
    /// The shell through which this state receives its messages.
    type ShellType;
}

/// What the task of a dispatch loop hands to whoever joins on it.
pub type Joined<A> = Result<Result<<A as Shell>::ExitType, <A as Shell>::PanicType>, JoinError>;

/// The terminal value of an actor.
#[verifier::reject_recursive_types(A)]
pub enum Outcome<A: Shell> {
    /// The task of the loop did not run to its end by itself: it was
    /// cancelled from outside.
    Aborted(JoinError),
    /// The loop stopped servicing; the value is the stop hook's.
    Exit(A::ExitType),
    /// A handler panicked; the value is the catch hook's.
    Panic(A::PanicType),
}

impl<A: Shell> Outcome<A> {
    /// The outcome that a joined task stands for.
    pub open spec fn of(joined: Joined<A>) -> Outcome<A> {
        match joined {
            Ok(Ok(exit)) => Outcome::Exit(exit),
            Ok(Err(panic)) => Outcome::Panic(panic),
            Err(abort) => Outcome::Aborted(abort),
        }
    }

    /// Classifies what joining on the loop's task returned: the loop's own
    /// exit, the loop's own panic, or a cancellation that came from outside.
    pub fn resolve(joined: Joined<A>) -> (outcome: Outcome<A>)
        ensures
            outcome == Self::of(joined),
    {
        match joined {
            Ok(Ok(exit)) => Outcome::Exit(exit),
            Ok(Err(panic)) => Outcome::Panic(panic),
            Err(abort) => Outcome::Aborted(abort),
        }
    }

    /// The name of the outcome's kind.
    pub fn label(&self) -> (name: &'static str)
        ensures
            name@ == match self {
                Outcome::Aborted(_) => "ActorOutcome::Aborted"@,
                Outcome::Exit(_) => "ActorOutcome::Exit"@,
                Outcome::Panic(_) => "ActorOutcome::Panic"@,
            },
    {
        match self {
            Outcome::Aborted(_) => "ActorOutcome::Aborted",
            Outcome::Exit(_) => "ActorOutcome::Exit",
            Outcome::Panic(_) => "ActorOutcome::Panic",
        }
    }
}

impl<A: Shell> PartialEq for Outcome<A> where A::ExitType: PartialEq, A::PanicType: PartialEq {
    /// Two exits are equal if their values are, and so are two panics; an
    /// aborted outcome equals nothing.
    fn eq(&self, other: &Self) -> (r: bool) {
        match (self, other) {
            (Outcome::Exit(a), Outcome::Exit(b)) => a == b,
            (Outcome::Panic(a), Outcome::Panic(b)) => a == b,
            _ => false,
        }
    }
}

impl<A: Shell> PartialEqSpecImpl for Outcome<A> where A::ExitType: PartialEq, A::PanicType: PartialEq {
    open spec fn obeys_eq_spec() -> bool {
        <A::ExitType as PartialEqSpec>::obeys_eq_spec()
            && <A::PanicType as PartialEqSpec>::obeys_eq_spec()
    }

    open spec fn eq_spec(&self, other: &Self) -> bool {
        match (self, other) {
            (Outcome::Exit(a), Outcome::Exit(b)) => a.eq_spec(b),
            (Outcome::Panic(a), Outcome::Panic(b)) => a.eq_spec(b),
            _ => false,
        }
    }
}

impl<A: Shell> Eq for Outcome<A> where A::ExitType: Eq, A::PanicType: Eq {

}

/// The handle on which the end of an actor is awaited.
#[verifier::reject_recursive_types(A)]
pub struct Handle<A: Shell>(JoinHandle<Result<A::ExitType, A::PanicType>>);

impl<A: Shell> Handle<A> {
    /// The join handle of the task that runs the actor's loop.
    pub closed spec fn task(&self) -> JoinHandle<Result<A::ExitType, A::PanicType>> {
        self.0
    }

    /// Wraps the join handle of the task that runs the actor's loop.
    pub fn new(val: JoinHandle<Result<A::ExitType, A::PanicType>>) -> (handle: Handle<A>)
        ensures
            handle.task() == val,
    {
        Handle(val)
    }

    /// Gives back the join handle of the loop's task, for whoever wants to
    /// wait on it.
    pub fn into_inner(self) -> (val: JoinHandle<Result<A::ExitType, A::PanicType>>)
        ensures
            val == self.task(),
    {
        self.0
    }
}

/// What starting an actor returns.
#[non_exhaustive]
#[verifier::reject_recursive_types(A)]
pub struct Spawn<A: Shell> {
    /// A handle for sending messages to the actor.
    pub msg_handle: Arc<A>,
    /// The handle for awaiting the actor's completion.
    pub join_handle: Handle<A>,
}

impl<A: Shell> Spawn<A> {
    /// Pairs the first handle to a new actor with the join handle of the task
    /// that runs its loop.
    pub fn new(actor: Arc<A>, handle: JoinHandle<Result<A::ExitType, A::PanicType>>) -> (spawn:
        Spawn<A>)
        ensures
            spawn.msg_handle == actor,
            spawn.join_handle.task() == handle,
    {
        Spawn { msg_handle: actor, join_handle: Handle::new(handle) }
    }
}

/// The stop hook of an actor that declares none: the state is dropped, and
/// the actor exits with the unit value.
pub fn stop<S>(state: S) {
}

/// The catch hook of an actor that declares none: the state is dropped, and
/// what the handler panicked with is handed up untouched.
pub fn catch<S, X>(state: S, payload: X) -> (r: X)
    ensures
        r == payload,
{
    payload
}

/// Turns the end of a dispatch loop into the value that its task returns.
///
/// `guarded` is what the boundary around the loop saw: the loop left of its
/// own accord, or a panic came out of it, with what was panicked with. A
/// loop that left of its own accord has its final state given to the stop
/// hook, and exits with what that returns. A loop that panicked has its
/// state and the panic given to the catch hook instead, and the stop hook
/// does not run.
pub fn conclude<S, X, E, P, StopHook, CatchHook>(
    state: S,
    guarded: Result<(), X>,
    stop_hook: StopHook,
    catch_hook: CatchHook,
) -> (r: Result<E, P>) where StopHook: FnOnce(S) -> E, CatchHook: FnOnce(S, X) -> P
    requires
        guarded is Ok ==> stop_hook.requires((state,)),
        guarded matches Err(payload) ==> catch_hook.requires((state, payload)),
    ensures
        match guarded {
            Ok(_) => r matches Ok(exit) && stop_hook.ensures((state,), exit),
            Err(payload) => r matches Err(panic) && catch_hook.ensures((state, payload), panic),
        },
{
    match guarded {
        Ok(_) => Ok(stop_hook(state)),
        Err(payload) => Err(catch_hook(state, payload)),
    }
}

/// An actor without hooks that leaves its loop of its own accord has the
/// outcome of an exit with the unit value, and one that panics has the
/// outcome of a panic with what was panicked with, whatever its state was.
pub proof fn lemma_outcome_without_hooks<A: Shell<ExitType = (), PanicType = X>, X>(payload: X)
    ensures
        Outcome::<A>::of(Ok(Ok(()))) == Outcome::<A>::Exit(()),
        Outcome::<A>::of(Ok(Err(payload))) == Outcome::<A>::Panic(payload),
{
}

} // verus!

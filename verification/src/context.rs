//! Liveness of an actor, and the control surface that a handler is given
//! while it processes one message.

use crate::actor::State;
use std::sync::Arc;
use vstd::prelude::*;

verus! {

/// How many owners of an actor's handle are external, when the handle has
/// `owners` owners in all: every owner but the dispatch loop itself.
pub open spec fn external_owners(owners: nat) -> nat {
    if owners >= 1 {
        (owners - 1) as nat
    } else {
        0
    }
}

/// Whether an actor is sustained: somebody outside its own loop still owns a
/// handle to it, and no handler has asked it to stop.
pub open spec fn sustained(owners: nat, running: bool) -> bool {
    external_owners(owners) > 0 && running
}

/// Decides from a count of a handle's owners, taken by the loop that holds
/// one of them, and from the stop flag whether the actor is sustained.
pub fn is_sustained(owners: usize, running: bool) -> (sustains: bool)
    ensures
        sustains == sustained(owners as nat, running),
{
    owners > 1 && running
}

/// A handle that a handler hands out keeps the actor sustained, however many
/// other owners have gone, as long as no handler has asked it to stop.
pub proof fn lemma_handed_out_handle_sustains(others: nat)
    ensures
        sustained(1 + 1 + others, true),
{
}

/// Once a handler has asked the actor to stop, no number of owners sustains
/// it; and the loop's own handle alone never does.
pub proof fn lemma_unsustained(owners: nat, running: bool)
    ensures
        !sustained(owners, false),
        !sustained(1, running),
        !sustained(0, running),
{
}

/// Counts the owners of a shared handle with `Arc::strong_count`. The count
/// includes the handle that is passed in, so it is at least one; other
/// threads may change it at any moment, so nothing more is claimed.
#[verifier::external_body]
fn owners_of<S: ?Sized>(handle: &Arc<S>) -> (owners: usize)
    ensures
        owners >= 1,
{
    Arc::strong_count(handle)
}

/// Whether `owners` is a count of the owners of `handle`, as
/// `Arc::strong_count` gave it at some moment. The same handle may be counted
/// differently at another moment: other threads drop and copy handles as
/// they like.
pub closed spec fn counted<S: ?Sized>(handle: &Arc<S>, owners: usize) -> bool {
    call_ensures(owners_of::<S>, (handle,), owners)
}

/// Every count of a handle's owners includes the handle that was counted.
pub proof fn lemma_count_includes_handle<S: ?Sized>(handle: &Arc<S>, owners: usize)
    requires
        counted(handle, owners),
    ensures
        owners >= 1,
{
}

/// The control surface of the running actor, which a handler may take as its
/// second parameter.
///
/// It lets a handler get a handle to its own actor, and stop the actor
/// without waiting for every handle to be dropped.
pub struct Context<A: State + ?Sized> {
    shell_handle: Arc<A::ShellType>,
    running: bool,
}

impl<A: State + ?Sized> Context<A> {
    /// The loop's own handle to the actor.
    pub closed spec fn shell(&self) -> Arc<A::ShellType> {
        self.shell_handle
    }

    /// Whether no handler has asked the actor to stop.
    pub closed spec fn running(&self) -> bool {
        self.running
    }

    /// A context around the loop's own handle, with no stop requested.
    pub fn new(shell_handle: Arc<A::ShellType>) -> (context: Self)
        ensures
            context.shell() == shell_handle,
            context.running(),
    {
        Context { shell_handle, running: true }
    }

    /// Whether `sustains` is a liveness read of this context: the owners of
    /// the loop's own handle were counted, and the actor is sustained by that
    /// count and by the stop flag.
    pub open spec fn reads(&self, sustains: bool) -> bool {
        exists|owners: usize| #[trigger]
            counted(&self.shell(), owners) && sustains == sustained(owners as nat, self.running())
    }

    /// Whether the actor is sustained at this moment: its handle has an owner
    /// besides the loop, and no handler has called [`Context::stop`].
    ///
    /// The owners of the loop's own handle are counted afresh at each call,
    /// and other threads may drop or copy handles in between: a stop request
    /// settles the answer, the count alone does not.
    pub fn sustains(&self) -> (sustains: bool)
        ensures
            self.reads(sustains),
            sustains ==> self.running(),
            !self.running() ==> !sustains,
    {
        let owners = owners_of(&self.shell_handle);
        assert(counted(&self.shell(), owners));
        is_sustained(owners, self.running)
    }

    /// Whether no handler has asked the actor to stop.
    pub fn is_running(&self) -> (running: bool)
        ensures
            running == self.running(),
    {
        self.running
    }

    /// Gets another handle to the surrounding actor.
    pub fn get_shell(&self) -> (shell: Arc<A::ShellType>)
        ensures
            shell == self.shell(),
    {
        self.shell_handle.clone()
    }

    /// Stops the actor once the current handler has returned: from now on the
    /// actor is not sustained, whoever owns a handle to it.
    pub fn stop(&mut self)
        ensures
            !final(self).running(),
            final(self).shell() == old(self).shell(),
    {
        self.running = false;
    }
}

} // verus!

//! Sending plain values to an actor, without a call of a role's method: the
//! value alone tells which method is meant.

use crate::returnval::ReturnEnvelope;
use crate::role::packs;
use crate::role::Accepts;
use crate::role::Role;
use crate::role::Role2SendError;
use std::sync::Arc;
use vstd::prelude::*;

verus! {

/// Whether `r` can be the answer of the actor's mailbox to a message that
/// carries `value` as the call that takes it, with nothing asked back.
pub open spec fn answered<R: Accepts<T> + ?Sized, T>(
    actor: &R,
    value: T,
    r: Result<(), Role2SendError<R>>,
) -> bool {
    exists|message: ReturnEnvelope<R>|
        {
            &&& packs::<R, T>(value, message.payload)
            &&& message.return_path is Discard
            &&& #[trigger] call_ensures(<R as Role>::enqueue, (actor, message), r)
        }
}

/// Sends a value to an actor, as a call of the method that takes it; what
/// that call returns is dropped. What comes back is the answer of the
/// actor's mailbox: an error if the actor has stopped already.
pub fn send_to<R, T>(value: T, actor: &Arc<R>) -> (r: Result<(), Role2SendError<R>>) where
    R: Accepts<T> + ?Sized + 'static,

    ensures
        answered(&**actor, value, r),
{
    let message = ReturnEnvelope::discarding(R::into_payload(value));
    let r = actor.enqueue(message);
    assert(call_ensures(<R as Role>::enqueue, (&**actor, message), r));
    r
}

/// Whether the actor's mailbox can have taken `value`, sent as [`send_to`]
/// sends it.
pub open spec fn taken_by<R: Accepts<T> + ?Sized, T>(actor: &R, value: T) -> bool {
    exists|r: Result<(), Role2SendError<R>>| r is Ok && #[trigger] answered(actor, value, r)
}

/// Whether the actor's mailbox can have refused `value`, sent as [`send_to`]
/// sends it.
pub open spec fn refused_by<R: Accepts<T> + ?Sized, T>(actor: &R, value: T) -> bool {
    exists|r: Result<(), Role2SendError<R>>| r is Err && #[trigger] answered(actor, value, r)
}

/// Sends the items of a sequence to an actor one by one, in their order,
/// each as [`send_to`] does, and stops at the first that the actor's mailbox
/// refuses. The result is the number of items that the mailbox took: they
/// are the first that many of the sequence, and the next one, if there is
/// one, was refused.
pub fn send_all_to<R, T>(items: Vec<T>, actor: &Arc<R>) -> (taken: usize) where
    R: Accepts<T> + ?Sized + 'static,

    ensures
        taken <= items@.len(),
        forall|i: int| 0 <= i < taken ==> #[trigger] taken_by(&**actor, items@[i]),
        taken < items@.len() ==> refused_by(&**actor, items@[taken as int]),
{
    let ghost all = items@;
    assert(all.len() == items.len());
    let mut taken: usize = 0;
    for item in it: items.into_iter()
        invariant_except_break
            taken == it.index(),
        invariant
            all.len() <= usize::MAX,
            it.seq() == all,
            forall|i: int| 0 <= i < taken ==> #[trigger] taken_by(&**actor, all[i]),
        ensures
            taken <= all.len(),
            forall|i: int| 0 <= i < taken ==> #[trigger] taken_by(&**actor, all[i]),
            taken < all.len() ==> refused_by(&**actor, all[taken as int]),
    {
        let r = send_to(item, actor);
        if r.is_err() {
            break;
        }
        taken += 1;
    }
    taken
}

} // verus!

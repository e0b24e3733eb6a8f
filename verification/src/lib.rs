//! The verified core of an in-process actor runtime.
//!
//! An actor is a state that nobody but its own dispatch loop touches, behind
//! a shell: a shared handle through which messages reach it. Each role that
//! the actor plays has one mailbox. A call of a role's method on the handle
//! sends nothing: it makes an [`Envelope`], and what the caller does with the
//! envelope decides what becomes of the call's result. The loop takes the
//! messages from the mailboxes one at a time, runs the handler for each, and
//! resolves the message's [`ReturnPath`] with what the handler returned. It
//! ends when a handler asks for it through the [`Context`], when nobody
//! outside holds a handle any more, or when a handler panics; whoever joins
//! on the actor then gets its [`ActorOutcome`].
//!
//! What waits, sleeps or runs concurrently is not in this crate: the loop's
//! waits and its timer belong to whoever drives the [`dispatch::Dispatcher`].
//! Everything that is decided is decided here.

pub mod actor;
pub mod channel;
pub mod context;
pub mod dispatch;
pub mod returnval;
pub mod role;
pub mod sendable;

pub use crate::actor::Handle as ActorHandle;
pub use crate::actor::Outcome as ActorOutcome;
pub use crate::actor::Shell as ActorShell;
pub use crate::actor::Spawn as ActorSpawn;
pub use crate::actor::State as ActorState;
pub use crate::channel::TokioUnbounded;
pub use crate::context::Context;
pub use crate::returnval::Envelope;
pub use crate::returnval::ReturnCaster;
pub use crate::returnval::ReturnEnvelope;
pub use crate::returnval::ReturnPath;
pub use crate::role::Accepts;
pub use crate::role::Channel;
pub use crate::role::Emits;
pub use crate::role::Role;
pub use crate::role::Role2Payload;
pub use crate::role::Role2Receiver;
pub use crate::role::Role2SendError;
pub use crate::role::Role2Sender;
pub use crate::role::RoleReceiver;
pub use crate::role::RoleSender;

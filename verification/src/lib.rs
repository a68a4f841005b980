//! Asynchronous signal handling, the verified core.
//!
//! Operating-system signal handlers run where almost nothing is allowed: no
//! allocation, no locking, no blocking. This crate holds the logic that carries
//! a signal from such a handler to a consumer that polls for it:
//!
//! * [`signal`]: the signals that can be listened for, and their numbers;
//! * [`queue`]: the bounded queue that a handler pushes onto;
//! * [`mask`]: the set of signals that a kernel object watches;
//! * [`kernel`], [`pipe`], [`channel`]: the three notifiers, each with the
//!   steps of its poll;
//! * [`backend`]: the three notifiers behind one type;
//! * [`signals`]: the signals that are listened for, each with the handle of
//!   its installed handler.
//!
//! The crate performs no I/O and installs no handler. Both are done by the
//! caller, which tells the state machines here what happened and is told what
//! to do next.

pub mod backend;
pub mod channel;
pub mod error;
pub mod kernel;
pub mod mask;
pub mod pipe;
pub mod queue;
pub mod signal;
pub mod signals;

pub use backend::Backend;
pub use backend::Handler;
pub use error::SignalError;
pub use mask::SignalMask;
pub use queue::SignalQueue;
pub use signal::Signal;
pub use signals::Signals;

//! The notifier for platforms without signals of their own.
//!
//! Such a platform tells a process of a control event through one callback,
//! of which the process can have a single one. The callback forwards an
//! interrupt through a channel to the consumer. No other signal can be
//! listened for.

use crate::error::SignalError;
use crate::signal::Signal;
use vstd::prelude::*;

verus! {

/// The place of the one callback that a process may have.
#[derive(Debug)]
pub struct CallbackSlot {
    installed: bool,
}

impl CallbackSlot {
    /// Whether a callback is installed.
    pub closed spec fn spec_installed(&self) -> bool {
        self.installed
    }

    /// The slot of a process that has no callback yet.
    pub fn vacant() -> (slot: CallbackSlot)
        ensures
            !slot.spec_installed(),
    {
        CallbackSlot { installed: false }
    }

    /// Whether a callback is installed.
    pub fn is_installed(&self) -> (installed: bool)
        ensures
            installed == self.spec_installed(),
    {
        self.installed
    }

    /// Takes the slot, or refuses where it is taken already.
    pub fn install(&mut self) -> (taken: Result<(), SignalError>)
        ensures
            final(self).spec_installed(),
            old(self).spec_installed() <==> taken == Err::<(), SignalError>(
                SignalError::AlreadyInstalled,
            ),
            !old(self).spec_installed() <==> taken == Ok::<(), SignalError>(()),
    {
        if self.installed {
            Err(SignalError::AlreadyInstalled)
        } else {
            self.installed = true;
            Ok(())
        }
    }

    /// Gives the slot back.
    pub fn release(&mut self)
        ensures
            !final(self).spec_installed(),
    {
        self.installed = false;
    }
}

/// What became of the callback's attempt to send, which does not block.
#[derive(Copy, Clone, Debug, PartialEq, Eq, Structural)]
pub enum SendOutcome {
    /// The channel took the interrupt.
    Sent,
    /// The channel was full: the interrupt is dropped.
    Full,
    /// Nobody holds the receiving end.
    Closed,
}

/// Whether the callback claims a control event as handled, which keeps the
/// platform from ending the process: it does where somebody listens.
pub open spec fn claims(outcome: SendOutcome) -> bool {
    outcome != SendOutcome::Closed
}

/// Decides what the callback answers the platform after its attempt to send.
pub fn claim_event(outcome: SendOutcome) -> (handled: bool)
    ensures
        handled == claims(outcome),
{
    match outcome {
        SendOutcome::Sent => true,
        SendOutcome::Full => true,
        SendOutcome::Closed => false,
    }
}

/// What happened since the last step of a poll.
#[derive(Copy, Clone, Debug, PartialEq, Eq, Structural)]
pub enum ChannelEvent {
    /// The consumer began to poll.
    Started,
    /// The channel handed over what the callback sent.
    Received,
    /// The channel was empty.
    Empty,
    /// The channel was reported to hold something.
    Ready,
}

/// What the caller of a poll step is to do next.
#[derive(Copy, Clone, Debug, PartialEq, Eq, Structural)]
pub enum ChannelAction {
    /// Hand this signal to the consumer: the poll is over.
    Deliver(Signal),
    /// Try to receive from the channel, without blocking, and report what
    /// came of it.
    Receive,
    /// Wait until the channel holds something, and report it then; until then
    /// the consumer is suspended.
    AwaitReady,
}

/// One step of a poll: the action that follows an event.
pub open spec fn step(event: ChannelEvent) -> ChannelAction {
    match event {
        ChannelEvent::Started => ChannelAction::Receive,
        ChannelEvent::Received => ChannelAction::Deliver(Signal::Int),
        ChannelEvent::Empty => ChannelAction::AwaitReady,
        ChannelEvent::Ready => ChannelAction::Receive,
    }
}

/// Whether the backend can listen for the signal: only for an interrupt.
pub open spec fn supported(signal: Signal) -> bool {
    signal == Signal::Int
}

/// The notifier that receives interrupts from the process's callback.
#[derive(Debug)]
pub struct Notifier {}

impl Notifier {
    /// Create a new signal notifier, which takes the process's callback slot.
    ///
    /// A second notifier cannot be made while the first holds the slot.
    pub fn new(slot: &mut CallbackSlot) -> (made: Result<Notifier, SignalError>)
        ensures
            final(slot).spec_installed(),
            made.is_ok() <==> !old(slot).spec_installed(),
            made.is_err() ==> made.unwrap_err() == SignalError::AlreadyInstalled,
    {
        match slot.install() {
            Ok(()) => Ok(Notifier {  }),
            Err(error) => Err(error),
        }
    }

    /// Add a signal to the notifier.
    ///
    /// The callback forwards every interrupt as soon as it is installed, so
    /// there is nothing to do for an interrupt, and nothing that can be done
    /// for another signal.
    pub fn add_signal(&self, signal: Signal) -> (added: Result<(), SignalError>)
        ensures
            supported(signal) <==> added == Ok::<(), SignalError>(()),
            !supported(signal) <==> added == Err::<(), SignalError>(SignalError::Unsupported),
    {
        match signal {
            Signal::Int => Ok(()),
            _ => Err(SignalError::Unsupported),
        }
    }

    /// Takes one step of a poll.
    pub fn poll_step(&self, event: ChannelEvent) -> (action: ChannelAction)
        ensures
            action == step(event),
    {
        match event {
            ChannelEvent::Started => ChannelAction::Receive,
            ChannelEvent::Received => ChannelAction::Deliver(Signal::Int),
            ChannelEvent::Empty => ChannelAction::AwaitReady,
            ChannelEvent::Ready => ChannelAction::Receive,
        }
    }
}

/// Whatever happens, a poll delivers nothing but an interrupt.
pub proof fn lemma_delivers_only_interrupt(event: ChannelEvent, signal: Signal)
    requires
        step(event) == ChannelAction::Deliver(signal),
    ensures
        signal == Signal::Int,
        event == ChannelEvent::Received,
{
}

} // verus!

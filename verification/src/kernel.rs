//! The notifier for kernels that report pending signals through a descriptor.
//!
//! Two paths lead from a signal to the consumer. The handler of each signal
//! pushes it onto a bounded queue, which is all that a handler may do. The
//! kernel object, watching the signals of a mask, becomes readable when one of
//! them is pending and hands over a record that names it. A poll looks at the
//! queue first and at the kernel object second, and parks only when both had
//! nothing.

use crate::error::SignalError;
use crate::mask::SignalMask;
use crate::queue::SignalQueue;
use crate::queue::MAX_SIGNALS;
use crate::signal::Signal;
use vstd::prelude::*;

verus! {

/// The size in bytes of the record that the kernel object hands over for one
/// signal.
pub const RECORD_SIZE: usize = 128;

/// What a poll remembers between two of its steps.
#[derive(Copy, Clone, Debug, PartialEq, Eq, Structural)]
pub struct PollState {
    /// Whether the kernel object has not yet answered in this poll that a read
    /// would block.
    pub first_time: bool,
}

/// What happened since the last step of a poll.
#[derive(Copy, Clone, Debug, PartialEq, Eq, Structural)]
pub enum PollEvent {
    /// The consumer began to poll.
    Started,
    /// A read of the kernel object gave `len` bytes, and the record in them
    /// names the signal number `signo`.
    Record { len: usize, signo: u32 },
    /// A read of the kernel object found nothing and would have blocked.
    WouldBlock,
    /// The kernel object was reported readable.
    Readable,
}

/// What the caller of a poll step is to do next.
#[derive(Copy, Clone, Debug, PartialEq, Eq, Structural)]
pub enum PollAction {
    /// Hand this signal to the consumer: the poll is over.
    Deliver(Signal),
    /// Hand this failure to the consumer: the poll is over.
    Fail(SignalError),
    /// Read one record from the kernel object, without blocking, and report
    /// what came of it.
    Read,
    /// Wait until the kernel object is readable, and report it then; until
    /// then the consumer is suspended.
    AwaitReadable,
}

/// What a poll does once it has looked at the queue: a signal found there is
/// delivered, and without one the kernel object is read.
pub open spec fn after_queue(state: PollState, popped: Option<Signal>) -> (PollState, PollAction) {
    match popped {
        Some(signal) => (state, PollAction::Deliver(signal)),
        None => (state, PollAction::Read),
    }
}

/// Whether a step looks at the queue before it decides.
pub open spec fn consults_queue(state: PollState, event: PollEvent) -> bool {
    match event {
        PollEvent::Started => true,
        PollEvent::Record { .. } => false,
        PollEvent::WouldBlock => state.first_time,
        PollEvent::Readable => true,
    }
}

/// One step of a poll: the state and the action that follow from a state, an
/// event, and what the queue gave if the step looked at it.
pub open spec fn step(state: PollState, event: PollEvent, popped: Option<Signal>) -> (
    PollState,
    PollAction,
) {
    match event {
        PollEvent::Started => after_queue(PollState { first_time: true }, popped),
        PollEvent::Record { len, signo } => if len != RECORD_SIZE {
            (state, PollAction::Fail(SignalError::InvalidSize))
        } else {
            match Signal::named_by_word(signo) {
                Some(signal) => (state, PollAction::Deliver(signal)),
                None => (state, PollAction::Fail(SignalError::InvalidSignal)),
            }
        },
        PollEvent::WouldBlock => if state.first_time {
            after_queue(PollState { first_time: false }, popped)
        } else {
            (state, PollAction::AwaitReadable)
        },
        PollEvent::Readable => after_queue(state, popped),
    }
}

/// Decides one step of a poll from what the queue gave.
///
/// `popped` counts only where `consults_queue(state, event)` holds.
pub fn next_step(state: PollState, event: PollEvent, popped: Option<Signal>) -> (next: (
    PollState,
    PollAction,
))
    ensures
        next == step(state, event, popped),
{
    match event {
        PollEvent::Started => check_queue(PollState { first_time: true }, popped),
        PollEvent::Record { len, signo } => {
            if len != RECORD_SIZE {
                (state, PollAction::Fail(SignalError::InvalidSize))
            } else {
                match Signal::from_word(signo) {
                    Some(signal) => (state, PollAction::Deliver(signal)),
                    None => (state, PollAction::Fail(SignalError::InvalidSignal)),
                }
            }
        },
        PollEvent::WouldBlock => {
            if state.first_time {
                check_queue(PollState { first_time: false }, popped)
            } else {
                (state, PollAction::AwaitReadable)
            }
        },
        PollEvent::Readable => check_queue(state, popped),
    }
}

fn check_queue(state: PollState, popped: Option<Signal>) -> (next: (PollState, PollAction))
    ensures
        next == after_queue(state, popped),
{
    match popped {
        Some(signal) => (state, PollAction::Deliver(signal)),
        None => (state, PollAction::Read),
    }
}

/// What the handler of one signal holds: the signal and a handle to the queue.
#[derive(Debug)]
pub struct Sender {
    queue: SignalQueue,
    signal: Signal,
}

impl Sender {
    /// The signal that this sender reports.
    pub closed spec fn spec_signal(&self) -> Signal {
        self.signal
    }

    /// The queue that this sender pushes onto.
    pub closed spec fn spec_queue(&self) -> SignalQueue {
        self.queue
    }

    /// The signal that this sender reports.
    pub fn signal(&self) -> (signal: Signal)
        ensures
            signal == self.spec_signal(),
    {
        self.signal
    }

    /// Reports that the signal arrived, and tells whether the queue took it.
    ///
    /// This is the whole body of a signal handler: one push, which neither
    /// blocks nor allocates. A full queue drops the signal.
    pub fn notify(&self) -> (accepted: bool) {
        self.queue.push(self.signal)
    }
}

/// The notifier that pairs a kernel object with a bounded queue.
#[derive(Debug)]
pub struct Notifier {
    mask: SignalMask,
    queue: SignalQueue,
}

impl Notifier {
    /// The signals that the kernel object is to watch.
    pub closed spec fn spec_mask(&self) -> Set<Signal> {
        self.mask@
    }

    /// The queue that the handlers push onto and a poll pops from.
    pub closed spec fn spec_queue(&self) -> SignalQueue {
        self.queue
    }

    /// Create a new signal notifier, which watches no signal yet.
    pub fn new() -> (notifier: Notifier)
        ensures
            notifier.spec_mask() == Set::<Signal>::empty(),
            notifier.spec_queue().limit() == Some(MAX_SIGNALS),
    {
        Notifier { mask: SignalMask::empty(), queue: SignalQueue::new() }
    }

    /// The mask that the kernel object is to be configured with.
    pub fn mask(&self) -> (mask: SignalMask)
        ensures
            mask@ == self.spec_mask(),
    {
        self.mask
    }

    /// Add a signal to the notifier.
    ///
    /// Returns what the handler of the signal is to hold: the signal, and a
    /// handle to the queue that a poll pops from.
    pub fn add_signal(&mut self, signal: Signal) -> (sender: Sender)
        ensures
            final(self).spec_mask() == old(self).spec_mask().insert(signal),
            final(self).spec_queue() == old(self).spec_queue(),
            sender.spec_signal() == signal,
            sender.spec_queue() == old(self).spec_queue(),
    {
        self.mask.insert(signal);
        Sender { queue: self.queue.handle(), signal }
    }

    /// Remove a signal from the notifier.
    ///
    /// What its handler has pushed already stays in the queue.
    pub fn remove_signal(&mut self, signal: Signal)
        ensures
            final(self).spec_mask() == old(self).spec_mask().remove(signal),
            final(self).spec_queue() == old(self).spec_queue(),
    {
        self.mask.remove(signal);
    }

    /// Takes one step of a poll.
    ///
    /// Where the step looks at the queue, it pops once, and the outcome is what
    /// `step` gives for the signal that left the queue, or for none.
    pub fn poll_step(&self, state: PollState, event: PollEvent) -> (next: (PollState, PollAction))
        ensures
            exists|popped: Option<Signal>| next == step(state, event, popped),
            !consults_queue(state, event) ==> next == step(state, event, None),
    {
        let consults = match event {
            PollEvent::Started => true,
            PollEvent::Record { .. } => false,
            PollEvent::WouldBlock => state.first_time,
            PollEvent::Readable => true,
        };
        let popped = if consults {
            self.queue.pop()
        } else {
            None
        };
        next_step(state, event, popped)
    }
}

/// A step that does not look at the queue gives the same whatever the queue
/// holds.
pub proof fn lemma_step_ignores_queue(state: PollState, event: PollEvent, popped: Option<Signal>)
    requires
        !consults_queue(state, event),
    ensures
        step(state, event, popped) == step(state, event, None),
{
}

/// A signal that the queue gives is delivered, whatever the kernel object
/// holds: the queue comes first.
pub proof fn lemma_queue_comes_first(state: PollState, event: PollEvent, signal: Signal)
    requires
        consults_queue(state, event),
    ensures
        step(state, event, Some(signal)).1 == PollAction::Deliver(signal),
{
}

/// A poll waits for the kernel object only after a read would have blocked
/// for the second time: it has then seen the queue empty twice and the kernel
/// object empty twice.
pub proof fn lemma_parks_after_second_attempt(
    state: PollState,
    event: PollEvent,
    popped: Option<Signal>,
)
    ensures
        step(state, event, popped).1 == PollAction::AwaitReadable <==> (event
            == PollEvent::WouldBlock && !state.first_time),
{
}

/// A record of the right size delivers the signal that its number names, and
/// fails on a number that names none.
pub proof fn lemma_record_decides(state: PollState, signo: u32, popped: Option<Signal>)
    ensures
        step(state, PollEvent::Record { len: RECORD_SIZE, signo }, popped) == (
            state,
            match Signal::named_by_word(signo) {
                Some(signal) => PollAction::Deliver(signal),
                None => PollAction::Fail(SignalError::InvalidSignal),
            },
        ),
{
}

/// A signal is delivered only where the queue gave it or a whole record named
/// it: a poll makes up no signal.
pub proof fn lemma_delivery_has_a_cause(
    state: PollState,
    event: PollEvent,
    popped: Option<Signal>,
    signal: Signal,
)
    requires
        step(state, event, popped).1 == PollAction::Deliver(signal),
    ensures
        (consults_queue(state, event) && popped == Some(signal)) || (exists|signo: u32|
            event == (PollEvent::Record { len: RECORD_SIZE, signo }) && signal.code() == signo),
{
    if let PollEvent::Record { len, signo } = event {
        assert(event == (PollEvent::Record { len: RECORD_SIZE, signo }) && signal.code() == signo);
    }
}

} // verus!

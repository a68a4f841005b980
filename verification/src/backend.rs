//! The three ways in which a signal reaches the consumer, behind one type.

use crate::channel;
use crate::error::SignalError;
use crate::kernel;
use crate::mask::SignalMask;
use crate::pipe;
use crate::pipe::word_bytes;
use crate::signal::Signal;
use vstd::prelude::*;

verus! {

/// The platforms that differ in how a signal can be read.
#[derive(Copy, Clone, Debug, PartialEq, Eq, Hash, Structural)]
pub enum Platform {
    /// Linux, whose kernel reports pending signals through a descriptor.
    Linux,
    /// Android, which has the kernel of Linux.
    Android,
    /// Windows, which has no signals but one callback for control events.
    Windows,
    /// Any other platform with signals and pipes.
    Other,
}

/// The kinds of strategy.
#[derive(Copy, Clone, Debug, PartialEq, Eq, Hash, Structural)]
pub enum BackendKind {
    /// A kernel object that reports pending signals, with a bounded queue.
    KernelQueue,
    /// A pipe that the handlers write into.
    SelfPipe,
    /// The process's one callback, with a channel.
    EventChannel,
}

/// The kind of strategy that a platform gets: the kernel object where there
/// is one, unless the pipe is forced; the callback where there are no
/// signals; the pipe everywhere else.
pub open spec fn preferred_kind(platform: Platform, force_pipe: bool) -> BackendKind {
    if force_pipe {
        BackendKind::SelfPipe
    } else {
        match platform {
            Platform::Linux => BackendKind::KernelQueue,
            Platform::Android => BackendKind::KernelQueue,
            Platform::Windows => BackendKind::EventChannel,
            Platform::Other => BackendKind::SelfPipe,
        }
    }
}

/// Selects the kind of strategy for a platform.
pub fn select_backend(platform: Platform, force_pipe: bool) -> (kind: BackendKind)
    ensures
        kind == preferred_kind(platform, force_pipe),
{
    if force_pipe {
        return BackendKind::SelfPipe;
    }
    match platform {
        Platform::Linux | Platform::Android => BackendKind::KernelQueue,
        Platform::Windows => BackendKind::EventChannel,
        Platform::Other => BackendKind::SelfPipe,
    }
}

/// The strategy used to read the signals.
#[derive(Debug)]
pub enum Backend {
    /// A kernel object that reports pending signals, with a bounded queue.
    KernelQueue(kernel::Notifier),
    /// A pipe that the handlers write into.
    SelfPipe(pipe::Notifier),
    /// The process's one callback, with a channel.
    EventChannel(channel::Notifier),
}

impl Backend {
    /// The kind of this strategy.
    pub open spec fn spec_kind(self) -> BackendKind {
        match self {
            Backend::KernelQueue(_) => BackendKind::KernelQueue,
            Backend::SelfPipe(_) => BackendKind::SelfPipe,
            Backend::EventChannel(_) => BackendKind::EventChannel,
        }
    }

    /// The kind of this strategy.
    pub fn kind(&self) -> (kind: BackendKind)
        ensures
            kind == self.spec_kind(),
    {
        match self {
            Backend::KernelQueue(_) => BackendKind::KernelQueue,
            Backend::SelfPipe(_) => BackendKind::SelfPipe,
            Backend::EventChannel(_) => BackendKind::EventChannel,
        }
    }

    /// The signals that the backend's kernel object is to watch: none where
    /// the backend has no such object.
    pub open spec fn mask(self) -> Set<Signal> {
        match self {
            Backend::KernelQueue(notifier) => notifier.spec_mask(),
            Backend::SelfPipe(_) => Set::<Signal>::empty(),
            Backend::EventChannel(_) => Set::<Signal>::empty(),
        }
    }

    /// Whether the backend can listen for the signal.
    pub open spec fn supports(self, signal: Signal) -> bool {
        match self {
            Backend::KernelQueue(_) => true,
            Backend::SelfPipe(_) => true,
            Backend::EventChannel(_) => channel::supported(signal),
        }
    }

    /// Whether two backends are of the same kind and agree in all but the
    /// signals that they watch.
    pub open spec fn same_but_mask(self, other: Backend) -> bool {
        match (self, other) {
            (Backend::KernelQueue(a), Backend::KernelQueue(b)) => a.spec_queue() == b.spec_queue(),
            (Backend::SelfPipe(a), Backend::SelfPipe(b)) => a.spec_order() == b.spec_order(),
            (Backend::EventChannel(_), Backend::EventChannel(_)) => true,
            _ => false,
        }
    }

    /// The mask once the backend has been told to listen for `signal`.
    pub open spec fn mask_with(self, signal: Signal) -> Set<Signal> {
        match self {
            Backend::KernelQueue(notifier) => notifier.spec_mask().insert(signal),
            _ => Set::<Signal>::empty(),
        }
    }

    /// Add a signal to the notifier.
    ///
    /// Returns the handler that is to be installed for the signal. A backend
    /// that cannot listen for the signal refuses it and stays as it is.
    pub fn add_signal(&mut self, signal: Signal) -> (added: Result<Handler, SignalError>)
        ensures
            final(self).same_but_mask(*old(self)),
            match added {
                Ok(handler) => {
                    &&& old(self).supports(signal)
                    &&& handler.serves(*final(self), signal)
                    &&& final(self).mask() == old(self).mask_with(signal)
                },
                Err(error) => {
                    &&& !old(self).supports(signal)
                    &&& error == SignalError::Unsupported
                    &&& *final(self) == *old(self)
                },
            },
    {
        match self {
            Backend::KernelQueue(notifier) => {
                let sender = notifier.add_signal(signal);
                let mask = notifier.mask();
                Ok(Handler::Queue { sender, mask })
            },
            Backend::SelfPipe(notifier) => {
                let message = notifier.add_signal(signal);
                Ok(Handler::Pipe { message })
            },
            Backend::EventChannel(notifier) => {
                match notifier.add_signal(signal) {
                    Ok(()) => Ok(Handler::Callback),
                    Err(error) => Err(error),
                }
            },
        }
    }

    /// Remove a signal from the notifier.
    ///
    /// Only a kernel object has something to forget: the other backends stay
    /// as they are.
    pub fn remove_signal(&mut self, signal: Signal)
        ensures
            final(self).same_but_mask(*old(self)),
            final(self).mask() == old(self).mask().remove(signal),
            !(*old(self) is KernelQueue) ==> *final(self) == *old(self),
    {
        match self {
            Backend::KernelQueue(notifier) => {
                notifier.remove_signal(signal);
            },
            Backend::SelfPipe(_) => {},
            Backend::EventChannel(_) => {},
        }
    }
}

/// What the handler of a signal is to do when the signal arrives.
#[derive(Debug)]
pub enum Handler {
    /// Call `notify` on the sender. Before the handler is installed, the
    /// kernel object is to be configured with the mask.
    Queue { sender: kernel::Sender, mask: SignalMask },
    /// Write the message into the handler's own end of the pipe, in one write
    /// that does not block, and ignore a failure.
    Pipe { message: [u8; 4] },
    /// Nothing: the process's callback forwards the signal already.
    Callback,
}

impl Handler {
    /// Whether this is the handler that `backend` wants for `signal`.
    pub open spec fn serves(self, backend: Backend, signal: Signal) -> bool {
        match (self, backend) {
            (Handler::Queue { sender, mask }, Backend::KernelQueue(notifier)) => {
                &&& sender.spec_signal() == signal
                &&& sender.spec_queue() == notifier.spec_queue()
                &&& mask@ == notifier.spec_mask()
            },
            (Handler::Pipe { message }, Backend::SelfPipe(notifier)) => message@ == word_bytes(
                signal.code() as u32,
                notifier.spec_order(),
            ),
            (Handler::Callback, Backend::EventChannel(_)) => true,
            _ => false,
        }
    }
}

} // verus!

//! The signals that are being listened for, each with its installed handler.

use crate::backend::Backend;
use crate::backend::Handler;
use crate::error::SignalError;
use crate::signal::Signal;
use crate::signal::MAX_NUMBER;
use crate::signal::MIN_NUMBER;
use signal_hook_registry::SigId;
use std::collections::HashMap;
use vstd::prelude::*;

verus! {

broadcast use vstd::std_specs::hash::group_hash_axioms;

/// Makes `signal_hook_registry::SigId` known: the handle of one installed
/// handler. Nothing is seen of what it holds.
#[verifier::external_type_specification]
#[verifier::external_body]
pub struct ExSigId(SigId);

/// Calls `signal_hook_registry::unregister`, which removes an installed
/// action and tells whether it was still installed. The answer depends on
/// what else the process has done with its handlers, so nothing is promised
/// of it.
#[verifier::external_body]
fn release_handle(id: SigId) -> (removed: bool) {
    signal_hook_registry::unregister(id)
}

/// The handles after `signal` was installed with the handle `id`: a signal
/// that has a handle keeps it.
pub open spec fn after_add(handles: Map<Signal, SigId>, signal: Signal, id: SigId) -> Map<
    Signal,
    SigId,
> {
    if handles.contains_key(signal) {
        handles
    } else {
        handles.insert(signal, id)
    }
}

/// The handles after `signal` was removed.
pub open spec fn after_remove(handles: Map<Signal, SigId>, signal: Signal) -> Map<Signal, SigId> {
    handles.remove(signal)
}

/// The handles after each of `signals` was removed.
pub open spec fn after_remove_all(handles: Map<Signal, SigId>, signals: Seq<Signal>) -> Map<
    Signal,
    SigId,
> {
    handles.remove_keys(signals.to_set())
}

/// The mask after each of `signals` that has a handle was removed: a signal
/// without a handle stays in the mask.
pub open spec fn mask_after_remove_all(
    mask: Set<Signal>,
    handles: Map<Signal, SigId>,
    signals: Seq<Signal>,
) -> Set<Signal> {
    mask.difference(signals.to_set().intersect(handles.dom()))
}

/// The mask after an attempt to add each of `attempted` that had no handle:
/// the notifier is told of a signal before its handler is installed.
pub open spec fn mask_after_add(
    backend: Backend,
    registered: Set<Signal>,
    attempted: Seq<Signal>,
) -> Set<Signal> {
    match backend {
        Backend::KernelQueue(notifier) => notifier.spec_mask().union(
            attempted.to_set().difference(registered),
        ),
        _ => Set::<Signal>::empty(),
    }
}

/// Whether `install` can have installed the handler of `signal` under the
/// handle `id`.
pub open spec fn installed_by<F, E>(install: F, signal: Signal, id: SigId) -> bool where
    F: Fn(Signal, Handler) -> Result<SigId, E>,
 {
    exists|handler: Handler| call_ensures(install, (signal, handler), Ok::<SigId, E>(id))
}

/// Whether `install` can have failed in this way to install the handler of
/// `signal`.
pub open spec fn failed_by<F, E>(install: F, signal: Signal, failure: E) -> bool where
    F: Fn(Signal, Handler) -> Result<SigId, E>,
 {
    exists|handler: Handler| call_ensures(install, (signal, handler), Err::<SigId, E>(failure))
}

/// Why a signal could not be added.
#[derive(Debug)]
pub enum AddFailure<E> {
    /// The backend cannot listen for the signal.
    Refused(SignalError),
    /// The handler could not be installed; this is what the installer said.
    Install(E),
}

/// A signal could not be added.
#[derive(Debug)]
pub struct AddError<E> {
    /// The place of the signal in the list that was to be added. The signals
    /// before it have been added and stay so.
    pub index: usize,
    /// Why it could not be added.
    pub failure: AddFailure<E>,
}

proof fn lemma_take_next(signals: Seq<Signal>, index: int)
    requires
        0 <= index < signals.len(),
    ensures
        signals.take(index + 1) == signals.take(index).push(signals[index]),
        signals.take(index + 1).to_set() == signals.take(index).to_set().insert(signals[index]),
{
    let done = signals.take(index);
    let now = signals.take(index + 1);
    assert(now[index] == signals[index]);
    assert forall|other: Signal| done.to_set().contains(other) implies now.to_set().contains(
        other,
    ) by {
        let i = choose|i: int| 0 <= i < done.len() && done[i] == other;
        assert(now[i] == other);
    }
}

/// Wait for a specific set of signals.
///
/// This is the book that is kept of them: which signals are listened for,
/// under which handle the handler of each is installed, and what the notifier
/// watches.
#[derive(Debug)]
pub struct Signals {
    /// The strategy used to read the signals.
    notifier: Backend,
    /// The map between signal numbers and signal IDs.
    signal_ids: HashMap<i32, SigId>,
}

impl Signals {
    /// The handle under which the handler of each signal is installed.
    pub closed spec fn handles(&self) -> Map<Signal, SigId> {
        Map::new(
            |signal: Signal| self.signal_ids@.contains_key(signal.code()),
            |signal: Signal| self.signal_ids@[signal.code()],
        )
    }

    /// The signals that are listened for.
    pub open spec fn registered(&self) -> Set<Signal> {
        self.handles().dom()
    }

    /// The strategy used to read the signals.
    pub closed spec fn spec_notifier(&self) -> Backend {
        self.notifier
    }

    /// Create a new `Signals` instance that listens for no signal yet.
    pub fn new(notifier: Backend) -> (signals: Signals)
        ensures
            signals.handles() == Map::<Signal, SigId>::empty(),
            signals.spec_notifier() == notifier,
    {
        let signals = Signals { notifier, signal_ids: HashMap::new() };
        signals
    }

    /// The strategy used to read the signals.
    pub fn notifier(&self) -> (notifier: &Backend)
        ensures
            *notifier == self.spec_notifier(),
    {
        &self.notifier
    }

    /// Whether the signal is listened for.
    pub fn is_registered(&self, signal: Signal) -> (registered: bool)
        ensures
            registered == self.registered().contains(signal),
    {
        let number = signal.number();
        self.signal_ids.contains_key(&number)
    }

    /// The signals that are listened for, by increasing number.
    pub fn registered_signals(&self) -> (signals: Vec<Signal>)
        ensures
            forall|signal: Signal| signals@.contains(signal) == self.registered().contains(signal),
            forall|i: int, j: int|
                0 <= i < j < signals@.len() ==> signals@[i].code() < signals@[j].code(),
    {
        let mut signals: Vec<Signal> = Vec::new();
        let mut number: i32 = MIN_NUMBER;
        while number <= MAX_NUMBER
            invariant
                MIN_NUMBER <= number <= MAX_NUMBER + 1,
                forall|signal: Signal|
                    signals@.contains(signal) == (self.registered().contains(signal)
                        && signal.code() < number),
                forall|i: int, j: int|
                    0 <= i < j < signals@.len() ==> signals@[i].code() < signals@[j].code(),
                forall|i: int| 0 <= i < signals@.len() ==> signals@[i].code() < number,
            decreases MAX_NUMBER + 1 - number,
        {
            let ghost before = signals@;
            if let Some(signal) = Signal::from_number(number) {
                if self.signal_ids.contains_key(&number) {
                    signals.push(signal);
                    proof {
                        assert(signals@[before.len() as int] == signal);
                        assert forall|other: Signal|
                            signals@.contains(other) == (self.registered().contains(other)
                                && other.code() < number + 1) by {
                            if before.contains(other) {
                                let i = choose|i: int| 0 <= i < before.len() && before[i] == other;
                                assert(signals@[i] == other);
                            }
                        }
                    }
                }
            }
            number = number + 1;
        }
        signals
    }

    /// Prepares to listen for a signal.
    ///
    /// A signal that is listened for already is skipped: nothing changes and
    /// there is nothing to install. For any other signal the notifier is told
    /// of it and gives the handler that is to be installed; the signal counts
    /// as listened for once `finish_add` has recorded the handle. A backend
    /// that cannot listen for the signal refuses it.
    pub fn begin_add(&mut self, signal: Signal) -> (begun: Result<Option<Handler>, SignalError>)
        ensures
            final(self).handles() == old(self).handles(),
            final(self).spec_notifier().same_but_mask(old(self).spec_notifier()),
            match begun {
                Ok(None) => {
                    &&& old(self).registered().contains(signal)
                    &&& final(self).spec_notifier() == old(self).spec_notifier()
                },
                Ok(Some(handler)) => {
                    &&& !old(self).registered().contains(signal)
                    &&& old(self).spec_notifier().supports(signal)
                    &&& handler.serves(final(self).spec_notifier(), signal)
                    &&& final(self).spec_notifier().mask() == old(self).spec_notifier().mask_with(
                        signal,
                    )
                },
                Err(error) => {
                    &&& !old(self).registered().contains(signal)
                    &&& !old(self).spec_notifier().supports(signal)
                    &&& error == SignalError::Unsupported
                    &&& final(self).spec_notifier() == old(self).spec_notifier()
                },
            },
    {
        if self.is_registered(signal) {
            return Ok(None);
        }
        match self.notifier.add_signal(signal) {
            Ok(handler) => Ok(Some(handler)),
            Err(error) => Err(error),
        }
    }

    /// Records the handle under which the handler of a signal was installed.
    ///
    /// A signal has one handler at most. Where it has one already, that one
    /// stays and `id` comes back: its handler is installed but not recorded,
    /// and it is the caller's to remove.
    pub fn finish_add(&mut self, signal: Signal, id: SigId) -> (surplus: Option<SigId>)
        ensures
            final(self).handles() == after_add(old(self).handles(), signal, id),
            final(self).spec_notifier() == old(self).spec_notifier(),
            surplus == if old(self).registered().contains(signal) {
                Some(id)
            } else {
                None
            },
    {
        let number = signal.number();
        if self.signal_ids.contains_key(&number) {
            Some(id)
        } else {
            self.signal_ids.insert(number, id);
            None
        }
    }

    /// Add signals to the set of signals to wait for.
    ///
    /// One signal cannot be added twice. If a signal that has already been
    /// added is passed to this method, it will be ignored.
    ///
    /// For each other signal `install` is called with the handler that is to
    /// be installed for it, and gives the handle under which it installed the
    /// handler. Where the backend refuses a signal or `install` fails, the
    /// error comes back at once; the signals before it stay added.
    ///
    /// Registering a signal prevents the default behavior of that signal from
    /// occurring.
    pub fn add_signals<F, E>(&mut self, signals: &[Signal], install: F) -> (added: Result<
        (),
        AddError<E>,
    >) where F: Fn(Signal, Handler) -> Result<SigId, E>
        requires
            forall|signal: Signal, handler: Handler| call_requires(install, (signal, handler)),
        ensures
            final(self).spec_notifier().same_but_mask(old(self).spec_notifier()),
            forall|signal: Signal|
                old(self).registered().contains(signal) ==> final(self).handles().contains_key(
                    signal,
                ) && final(self).handles()[signal] == old(self).handles()[signal],
            forall|signal: Signal|
                #[trigger] final(self).registered().contains(signal) && !old(
                    self,
                ).registered().contains(signal) ==> installed_by(
                    install,
                    signal,
                    final(self).handles()[signal],
                ),
            match added {
                Ok(()) => {
                    &&& final(self).registered() == old(self).registered().union(signals@.to_set())
                    &&& final(self).spec_notifier().mask() == mask_after_add(
                        old(self).spec_notifier(),
                        old(self).registered(),
                        signals@,
                    )
                },
                Err(error) => {
                    &&& error.index < signals@.len()
                    &&& final(self).registered() == old(self).registered().union(
                        signals@.take(error.index as int).to_set(),
                    )
                    &&& !final(self).registered().contains(signals@[error.index as int])
                    &&& final(self).spec_notifier().mask() == mask_after_add(
                        old(self).spec_notifier(),
                        old(self).registered(),
                        signals@.take(error.index + 1),
                    )
                    &&& match error.failure {
                        AddFailure::Refused(refusal) => {
                            &&& refusal == SignalError::Unsupported
                            &&& !old(self).spec_notifier().supports(signals@[error.index as int])
                        },
                        AddFailure::Install(failure) => {
                            &&& old(self).spec_notifier().supports(signals@[error.index as int])
                            &&& failed_by(install, signals@[error.index as int], failure)
                        },
                    }
                },
            },
            (forall|i: int|
                0 <= i < signals@.len() ==> old(self).registered().contains(signals@[i]) || old(
                    self,
                ).spec_notifier().supports(signals@[i])) && (forall|
                signal: Signal,
                handler: Handler,
                outcome: Result<SigId, E>,
            |
                call_ensures(install, (signal, handler), outcome) ==> outcome is Ok) ==> added is Ok,
    {
        let mut index: usize = 0;
        proof {
            assert(signals@.take(0).to_set() =~= Set::<Signal>::empty());
            assert(self.spec_notifier().same_but_mask(old(self).spec_notifier()));
        }
        while index < signals.len()
            invariant
                index <= signals@.len(),
                forall|signal: Signal, handler: Handler| call_requires(install, (signal, handler)),
                self.spec_notifier().same_but_mask(old(self).spec_notifier()),
                forall|signal: Signal|
                    old(self).registered().contains(signal) ==> self.handles().contains_key(signal)
                        && self.handles()[signal] == old(self).handles()[signal],
                forall|signal: Signal|
                    #[trigger] self.registered().contains(signal) && !old(
                        self,
                    ).registered().contains(signal) ==> installed_by(
                        install,
                        signal,
                        self.handles()[signal],
                    ),
                self.registered() == old(self).registered().union(
                    signals@.take(index as int).to_set(),
                ),
                self.spec_notifier().mask() == mask_after_add(
                    old(self).spec_notifier(),
                    old(self).registered(),
                    signals@.take(index as int),
                ),
                forall|i: int|
                    0 <= i < index ==> old(self).registered().contains(signals@[i]) || old(
                        self,
                    ).spec_notifier().supports(signals@[i]),
            decreases signals@.len() - index,
        {
            let signal = signals[index];
            proof {
                lemma_take_next(signals@, index as int);
            }
            let begun = self.begin_add(signal);
            assert(self.spec_notifier().mask() =~= mask_after_add(
                old(self).spec_notifier(),
                old(self).registered(),
                signals@.take(index + 1),
            ));
            match begun {
                Ok(None) => {},
                Ok(Some(handler)) => {
                    match install(signal, handler) {
                        Ok(id) => {
                            self.finish_add(signal, id);
                        },
                        Err(failure) => {
                            return Err(AddError { index, failure: AddFailure::Install(failure) });
                        },
                    }
                },
                Err(refusal) => {
                    return Err(AddError { index, failure: AddFailure::Refused(refusal) });
                },
            }
            index = index + 1;
        }
        proof {
            assert(signals@.take(index as int) =~= signals@);
        }
        Ok(())
    }

    /// Stops listening for a signal, and tells whether it was listened for.
    ///
    /// The signal's handle is taken out of the book, the notifier stops
    /// watching the signal, and the handler is removed. A signal that is not
    /// listened for is skipped: nothing changes.
    pub fn remove_signal(&mut self, signal: Signal) -> (removed: bool)
        ensures
            final(self).handles() == after_remove(old(self).handles(), signal),
            removed == old(self).registered().contains(signal),
            final(self).spec_notifier().same_but_mask(old(self).spec_notifier()),
            final(self).spec_notifier().mask() == if removed {
                old(self).spec_notifier().mask().remove(signal)
            } else {
                old(self).spec_notifier().mask()
            },
            !removed ==> final(self).spec_notifier() == old(self).spec_notifier(),
    {
        let number = signal.number();
        let taken = self.signal_ids.remove(&number);
        match taken {
            Some(id) => {
                self.notifier.remove_signal(signal);
                release_handle(id);
                true
            },
            None => false,
        }
    }

    /// Remove signals from the set of signals to wait for.
    ///
    /// Each signal that is listened for is removed as `remove_signal` does it;
    /// a signal that is not listened for is ignored.
    pub fn remove_signals(&mut self, signals: &[Signal])
        ensures
            final(self).handles() == after_remove_all(old(self).handles(), signals@),
            final(self).spec_notifier().same_but_mask(old(self).spec_notifier()),
            final(self).spec_notifier().mask() == mask_after_remove_all(
                old(self).spec_notifier().mask(),
                old(self).handles(),
                signals@,
            ),
            (forall|i: int| 0 <= i < signals@.len() ==> !old(self).registered().contains(signals@[i]))
                ==> final(self).handles() == old(self).handles() && final(self).spec_notifier()
                == old(self).spec_notifier(),
    {
        let mut index: usize = 0;
        while index < signals.len()
            invariant
                index <= signals@.len(),
                self.handles() == after_remove_all(old(self).handles(), signals@.take(index as int)),
                self.spec_notifier().same_but_mask(old(self).spec_notifier()),
                self.spec_notifier().mask() == mask_after_remove_all(
                    old(self).spec_notifier().mask(),
                    old(self).handles(),
                    signals@.take(index as int),
                ),
                (forall|i: int| 0 <= i < index ==> !old(self).registered().contains(signals@[i]))
                    ==> self.spec_notifier() == old(self).spec_notifier(),
            decreases signals@.len() - index,
        {
            self.remove_signal(signals[index]);
            proof {
                lemma_take_next(signals@, index as int);
            }
            index = index + 1;
        }
        proof {
            assert(signals@.take(index as int) =~= signals@);
        }
    }

    /// Stops listening for every signal: each installed handler is removed.
    ///
    /// What the signals did before they were listened for is not restored.
    pub fn teardown(&mut self)
        ensures
            final(self).handles() == Map::<Signal, SigId>::empty(),
            final(self).spec_notifier() == old(self).spec_notifier(),
    {
        let mut number: i32 = MIN_NUMBER;
        while number <= MAX_NUMBER
            invariant
                MIN_NUMBER <= number <= MAX_NUMBER + 1,
                self.spec_notifier() == old(self).spec_notifier(),
                forall|signal: Signal|
                    self.signal_ids@.contains_key(signal.code()) ==> number <= signal.code(),
            decreases MAX_NUMBER + 1 - number,
        {
            if let Some(id) = self.signal_ids.remove(&number) {
                release_handle(id);
            }
            number = number + 1;
        }
    }
}

/// A signal that is added twice is listened for once: the first handle
/// stays, and one removal ends the listening.
pub proof fn lemma_add_twice_remove_once(
    handles: Map<Signal, SigId>,
    signal: Signal,
    first: SigId,
    second: SigId,
)
    ensures
        after_add(after_add(handles, signal, first), signal, second) == after_add(
            handles,
            signal,
            first,
        ),
        !after_remove(
            after_add(after_add(handles, signal, first), signal, second),
            signal,
        ).contains_key(signal),
{
}

/// Adding a signal makes it listened for and touches no other signal.
pub proof fn lemma_add_registers(handles: Map<Signal, SigId>, signal: Signal, id: SigId)
    ensures
        after_add(handles, signal, id).dom() == handles.dom().insert(signal),
        forall|other: Signal|
            handles.contains_key(other) ==> #[trigger] after_add(handles, signal, id)[other]
                == handles[other],
{
}

/// Removing a signal that is not listened for changes nothing.
pub proof fn lemma_remove_absent(handles: Map<Signal, SigId>, signal: Signal)
    requires
        !handles.contains_key(signal),
    ensures
        after_remove(handles, signal) == handles,
{
}

/// Removing signals of which none is listened for changes nothing, neither
/// the handles nor the mask.
pub proof fn lemma_remove_all_absent(
    mask: Set<Signal>,
    handles: Map<Signal, SigId>,
    signals: Seq<Signal>,
)
    requires
        forall|i: int| 0 <= i < signals.len() ==> !handles.contains_key(signals[i]),
    ensures
        after_remove_all(handles, signals) == handles,
        mask_after_remove_all(mask, handles, signals) == mask,
{
}

/// Removing signals one after the other gives what removing them at once
/// gives.
pub proof fn lemma_remove_all_unfolds(
    handles: Map<Signal, SigId>,
    signals: Seq<Signal>,
    signal: Signal,
)
    ensures
        after_remove_all(handles, signals.push(signal)) == after_remove(
            after_remove_all(handles, signals),
            signal,
        ),
{
    let longer = signals.push(signal);
    assert(longer.take(signals.len() as int) =~= signals);
    lemma_take_next(longer, signals.len() as int);
}

} // verus!

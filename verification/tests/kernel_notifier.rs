use async_signal::kernel::next_step;
use async_signal::kernel::Notifier;
use async_signal::kernel::PollAction;
use async_signal::kernel::PollEvent;
use async_signal::kernel::PollState;
use async_signal::kernel::RECORD_SIZE;
use async_signal::Signal;
use async_signal::SignalError;

const FIRST: PollState = PollState { first_time: true };
const LATER: PollState = PollState { first_time: false };

/// Polls as a consumer does whose kernel object never has anything: the poll
/// ends when it would have to wait.
fn poll_until_parked(notifier: &Notifier) -> Option<Result<Signal, SignalError>> {
    let (mut state, mut action) = notifier.poll_step(FIRST, PollEvent::Started);
    loop {
        match action {
            PollAction::Deliver(signal) => return Some(Ok(signal)),
            PollAction::Fail(error) => return Some(Err(error)),
            PollAction::Read => {
                let next = notifier.poll_step(state, PollEvent::WouldBlock);
                state = next.0;
                action = next.1;
            }
            PollAction::AwaitReadable => return None,
        }
    }
}

#[test]
fn record_size_is_that_of_the_kernel() {
    assert_eq!(RECORD_SIZE, 128);
    assert_eq!(RECORD_SIZE, std::mem::size_of::<libc::signalfd_siginfo>());
}

#[test]
fn new_notifier_watches_nothing() {
    let notifier = Notifier::new();
    assert!(notifier.mask().is_empty());
    assert_eq!(poll_until_parked(&notifier), None);
}

#[test]
fn added_signal_is_watched() {
    let mut notifier = Notifier::new();
    let sender = notifier.add_signal(Signal::Int);
    assert_eq!(sender.signal(), Signal::Int);
    assert!(notifier.mask().contains(Signal::Int));
    assert!(!notifier.mask().contains(Signal::Term));
    notifier.add_signal(Signal::Term);
    assert_eq!(notifier.mask().signals(), vec![Signal::Int, Signal::Term]);
}

#[test]
fn removed_signal_is_not_watched() {
    let mut notifier = Notifier::new();
    notifier.add_signal(Signal::Int);
    notifier.add_signal(Signal::Term);
    notifier.remove_signal(Signal::Int);
    assert_eq!(notifier.mask().signals(), vec![Signal::Term]);
    notifier.remove_signal(Signal::Quit);
    assert_eq!(notifier.mask().signals(), vec![Signal::Term]);
}

#[test]
fn notified_signal_is_delivered_by_the_next_poll() {
    let mut notifier = Notifier::new();
    let sender = notifier.add_signal(Signal::Term);
    assert!(sender.notify());
    assert_eq!(
        notifier.poll_step(FIRST, PollEvent::Started),
        (FIRST, PollAction::Deliver(Signal::Term))
    );
    assert_eq!(poll_until_parked(&notifier), None);
}

#[test]
fn removal_keeps_what_is_queued() {
    let mut notifier = Notifier::new();
    let sender = notifier.add_signal(Signal::Hup);
    assert!(sender.notify());
    notifier.remove_signal(Signal::Hup);
    assert_eq!(poll_until_parked(&notifier), Some(Ok(Signal::Hup)));
    assert_eq!(poll_until_parked(&notifier), None);
}

#[test]
fn more_notifications_than_the_queue_holds_are_dropped() {
    let mut notifier = Notifier::new();
    let sender = notifier.add_signal(Signal::Usr1);
    let mut accepted = 0;
    for _ in 0..40 {
        if sender.notify() {
            accepted += 1;
        }
    }
    assert_eq!(accepted, 16);
    let mut delivered = 0;
    while let Some(outcome) = poll_until_parked(&notifier) {
        assert_eq!(outcome, Ok(Signal::Usr1));
        delivered += 1;
    }
    assert_eq!(delivered, 16);
}

#[test]
fn two_senders_lose_nothing() {
    let mut notifier = Notifier::new();
    let interrupt = notifier.add_signal(Signal::Int);
    let terminate = notifier.add_signal(Signal::Term);
    assert!(interrupt.notify());
    assert!(terminate.notify());
    let first = poll_until_parked(&notifier);
    let second = poll_until_parked(&notifier);
    let mut seen = vec![first.unwrap().unwrap(), second.unwrap().unwrap()];
    seen.sort();
    assert_eq!(seen, vec![Signal::Int, Signal::Term]);
    assert_eq!(poll_until_parked(&notifier), None);
}

#[test]
fn start_reads_the_kernel_object_when_the_queue_is_empty() {
    let notifier = Notifier::new();
    assert_eq!(notifier.poll_step(LATER, PollEvent::Started), (FIRST, PollAction::Read));
    assert_eq!(next_step(LATER, PollEvent::Started, None), (FIRST, PollAction::Read));
    assert_eq!(
        next_step(LATER, PollEvent::Started, Some(Signal::Quit)),
        (FIRST, PollAction::Deliver(Signal::Quit))
    );
}

#[test]
fn record_names_the_signal() {
    let notifier = Notifier::new();
    let record = PollEvent::Record { len: 128, signo: 15 };
    assert_eq!(notifier.poll_step(FIRST, record), (FIRST, PollAction::Deliver(Signal::Term)));
    assert_eq!(notifier.poll_step(LATER, record), (LATER, PollAction::Deliver(Signal::Term)));
    let record = PollEvent::Record { len: 128, signo: 2 };
    assert_eq!(next_step(FIRST, record, None), (FIRST, PollAction::Deliver(Signal::Int)));
}

#[test]
fn record_wins_over_the_queue_once_it_was_read() {
    let record = PollEvent::Record { len: 128, signo: 1 };
    assert_eq!(
        next_step(LATER, record, Some(Signal::Term)),
        (LATER, PollAction::Deliver(Signal::Hup))
    );
}

#[test]
fn record_of_an_unknown_number_fails() {
    let notifier = Notifier::new();
    for signo in [0, 16, 30, 32, 1000, 0x8000_0002, u32::MAX] {
        let record = PollEvent::Record { len: 128, signo };
        assert_eq!(
            notifier.poll_step(FIRST, record),
            (FIRST, PollAction::Fail(SignalError::InvalidSignal))
        );
    }
}

#[test]
fn record_of_the_wrong_size_fails() {
    let notifier = Notifier::new();
    for len in [0, 1, 4, 127, 129, 256] {
        let record = PollEvent::Record { len, signo: 2 };
        assert_eq!(
            notifier.poll_step(LATER, record),
            (LATER, PollAction::Fail(SignalError::InvalidSize))
        );
    }
}

#[test]
fn first_would_block_looks_again() {
    let mut notifier = Notifier::new();
    assert_eq!(notifier.poll_step(FIRST, PollEvent::WouldBlock), (LATER, PollAction::Read));
    let sender = notifier.add_signal(Signal::Int);
    sender.notify();
    assert_eq!(
        notifier.poll_step(FIRST, PollEvent::WouldBlock),
        (LATER, PollAction::Deliver(Signal::Int))
    );
}

#[test]
fn second_would_block_waits() {
    let mut notifier = Notifier::new();
    let sender = notifier.add_signal(Signal::Int);
    sender.notify();
    assert_eq!(
        notifier.poll_step(LATER, PollEvent::WouldBlock),
        (LATER, PollAction::AwaitReadable)
    );
    assert_eq!(
        next_step(LATER, PollEvent::WouldBlock, Some(Signal::Int)),
        (LATER, PollAction::AwaitReadable)
    );
    assert_eq!(poll_until_parked(&notifier), Some(Ok(Signal::Int)));
}

#[test]
fn readable_looks_at_the_queue_first() {
    let mut notifier = Notifier::new();
    assert_eq!(notifier.poll_step(LATER, PollEvent::Readable), (LATER, PollAction::Read));
    let sender = notifier.add_signal(Signal::Child);
    sender.notify();
    assert_eq!(
        notifier.poll_step(LATER, PollEvent::Readable),
        (LATER, PollAction::Deliver(Signal::Child))
    );
    assert_eq!(notifier.poll_step(FIRST, PollEvent::Readable), (FIRST, PollAction::Read));
}

#[test]
fn poll_parks_after_two_empty_rounds() {
    let notifier = Notifier::new();
    let (state, action) = notifier.poll_step(FIRST, PollEvent::Started);
    assert_eq!((state, action), (FIRST, PollAction::Read));
    let (state, action) = notifier.poll_step(state, PollEvent::WouldBlock);
    assert_eq!((state, action), (LATER, PollAction::Read));
    let (state, action) = notifier.poll_step(state, PollEvent::WouldBlock);
    assert_eq!((state, action), (LATER, PollAction::AwaitReadable));
    let (state, action) = notifier.poll_step(state, PollEvent::Readable);
    assert_eq!((state, action), (LATER, PollAction::Read));
    let record = PollEvent::Record { len: RECORD_SIZE, signo: 10 };
    assert_eq!(notifier.poll_step(state, record), (LATER, PollAction::Deliver(Signal::Usr1)));
}

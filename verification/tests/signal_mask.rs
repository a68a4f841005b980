use async_signal::Signal;
use async_signal::SignalMask;

#[test]
fn empty_mask_holds_nothing() {
    let mask = SignalMask::empty();
    assert!(mask.is_empty());
    assert!(!mask.contains(Signal::Int));
    assert!(!mask.contains(Signal::Hup));
    assert!(!mask.contains(Signal::Sys));
    assert_eq!(mask.signals(), Vec::<Signal>::new());
}

#[test]
fn inserted_signals_are_members() {
    let mut mask = SignalMask::empty();
    mask.insert(Signal::Term);
    mask.insert(Signal::Int);
    assert!(mask.contains(Signal::Int));
    assert!(mask.contains(Signal::Term));
    assert!(!mask.contains(Signal::Quit));
    assert!(!mask.is_empty());
    assert_eq!(mask.signals(), vec![Signal::Int, Signal::Term]);
}

#[test]
fn inserting_twice_changes_nothing() {
    let mut once = SignalMask::empty();
    once.insert(Signal::Usr1);
    let mut twice = once;
    twice.insert(Signal::Usr1);
    assert_eq!(once, twice);
    assert_eq!(twice.signals(), vec![Signal::Usr1]);
}

#[test]
fn removed_signals_are_no_members() {
    let mut mask = SignalMask::empty();
    mask.insert(Signal::Hup);
    mask.insert(Signal::Sys);
    mask.insert(Signal::Child);
    mask.remove(Signal::Child);
    assert!(mask.contains(Signal::Hup));
    assert!(mask.contains(Signal::Sys));
    assert!(!mask.contains(Signal::Child));
    assert_eq!(mask.signals(), vec![Signal::Hup, Signal::Sys]);
    mask.remove(Signal::Hup);
    mask.remove(Signal::Sys);
    assert!(mask.is_empty());
    assert_eq!(mask, SignalMask::empty());
}

#[test]
fn removing_an_absent_signal_changes_nothing() {
    let mut mask = SignalMask::empty();
    mask.insert(Signal::Winch);
    let before = mask;
    mask.remove(Signal::Int);
    assert_eq!(mask, before);
}

#[test]
fn signals_come_by_increasing_number() {
    let mut mask = SignalMask::empty();
    for signal in [Signal::Sys, Signal::Io, Signal::Hup, Signal::Term, Signal::Child, Signal::Int] {
        mask.insert(signal);
    }
    assert_eq!(
        mask.signals(),
        vec![Signal::Hup, Signal::Int, Signal::Term, Signal::Child, Signal::Io, Signal::Sys]
    );
}

#[test]
fn bits_are_numbered_by_signal() {
    let mut mask = SignalMask::empty();
    assert_eq!(mask.bits(), 0);
    mask.insert(Signal::Int);
    assert_eq!(mask.bits(), 4);
    mask.insert(Signal::Term);
    assert_eq!(mask.bits(), 32772);
    mask.insert(Signal::Sys);
    assert_eq!(mask.bits(), 0x8000_8004);
    mask.remove(Signal::Int);
    assert_eq!(mask.bits(), 0x8000_8000);
}

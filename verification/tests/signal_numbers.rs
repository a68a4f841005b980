use async_signal::signal::MAX_NUMBER;
use async_signal::signal::MIN_NUMBER;
use async_signal::Signal;

fn every_signal() -> Vec<Signal> {
    vec![
        Signal::Hup,
        Signal::Int,
        Signal::Quit,
        Signal::Ill,
        Signal::Trap,
        Signal::Abort,
        Signal::Bus,
        Signal::Fpe,
        Signal::Kill,
        Signal::Usr1,
        Signal::Segv,
        Signal::Usr2,
        Signal::Pipe,
        Signal::Alarm,
        Signal::Term,
        Signal::Child,
        Signal::Cont,
        Signal::Stop,
        Signal::Tstp,
        Signal::Ttin,
        Signal::Ttou,
        Signal::Urg,
        Signal::Xcpu,
        Signal::Xfsz,
        Signal::Vtalarm,
        Signal::Prof,
        Signal::Winch,
        Signal::Io,
        Signal::Sys,
    ]
}

#[test]
fn number_round_trips_for_every_signal() {
    for signal in every_signal() {
        assert_eq!(Signal::from_number(signal.number()), Some(signal));
    }
}

#[test]
fn numbers_are_the_platform_numbers() {
    assert_eq!(Signal::Hup.number(), libc::SIGHUP);
    assert_eq!(Signal::Int.number(), libc::SIGINT);
    assert_eq!(Signal::Quit.number(), libc::SIGQUIT);
    assert_eq!(Signal::Ill.number(), libc::SIGILL);
    assert_eq!(Signal::Trap.number(), libc::SIGTRAP);
    assert_eq!(Signal::Abort.number(), libc::SIGABRT);
    assert_eq!(Signal::Bus.number(), libc::SIGBUS);
    assert_eq!(Signal::Fpe.number(), libc::SIGFPE);
    assert_eq!(Signal::Kill.number(), libc::SIGKILL);
    assert_eq!(Signal::Usr1.number(), libc::SIGUSR1);
    assert_eq!(Signal::Segv.number(), libc::SIGSEGV);
    assert_eq!(Signal::Usr2.number(), libc::SIGUSR2);
    assert_eq!(Signal::Pipe.number(), libc::SIGPIPE);
    assert_eq!(Signal::Alarm.number(), libc::SIGALRM);
    assert_eq!(Signal::Term.number(), libc::SIGTERM);
    assert_eq!(Signal::Child.number(), libc::SIGCHLD);
    assert_eq!(Signal::Cont.number(), libc::SIGCONT);
    assert_eq!(Signal::Stop.number(), libc::SIGSTOP);
    assert_eq!(Signal::Tstp.number(), libc::SIGTSTP);
    assert_eq!(Signal::Ttin.number(), libc::SIGTTIN);
    assert_eq!(Signal::Ttou.number(), libc::SIGTTOU);
    assert_eq!(Signal::Urg.number(), libc::SIGURG);
    assert_eq!(Signal::Xcpu.number(), libc::SIGXCPU);
    assert_eq!(Signal::Xfsz.number(), libc::SIGXFSZ);
    assert_eq!(Signal::Vtalarm.number(), libc::SIGVTALRM);
    assert_eq!(Signal::Prof.number(), libc::SIGPROF);
    assert_eq!(Signal::Winch.number(), libc::SIGWINCH);
    assert_eq!(Signal::Io.number(), libc::SIGIO);
    assert_eq!(Signal::Sys.number(), libc::SIGSYS);
}

#[test]
fn exact_numbers() {
    assert_eq!(Signal::Hup.number(), 1);
    assert_eq!(Signal::Int.number(), 2);
    assert_eq!(Signal::Kill.number(), 9);
    assert_eq!(Signal::Term.number(), 15);
    assert_eq!(Signal::Child.number(), 17);
    assert_eq!(Signal::Io.number(), 29);
    assert_eq!(Signal::Sys.number(), 31);
}

#[test]
fn numbers_are_distinct_and_in_range() {
    let all = every_signal();
    assert_eq!(all.len(), 29);
    for (i, a) in all.iter().enumerate() {
        assert!(MIN_NUMBER <= a.number() && a.number() <= MAX_NUMBER);
        for b in all.iter().skip(i + 1) {
            assert_ne!(a.number(), b.number());
        }
    }
}

#[test]
fn signals_are_ordered_by_number() {
    let all = every_signal();
    for pair in all.windows(2) {
        assert!(pair[0] < pair[1]);
        assert!(pair[0].number() < pair[1].number());
    }
}

#[test]
fn unknown_numbers_name_no_signal() {
    assert_eq!(Signal::from_number(0), None);
    assert_eq!(Signal::from_number(16), None);
    assert_eq!(Signal::from_number(30), None);
    assert_eq!(Signal::from_number(32), None);
    assert_eq!(Signal::from_number(64), None);
    assert_eq!(Signal::from_number(-1), None);
    assert_eq!(Signal::from_number(-2), None);
    assert_eq!(Signal::from_number(i32::MAX), None);
    assert_eq!(Signal::from_number(i32::MIN), None);
}

#[test]
fn every_number_in_range_is_decided() {
    let all = every_signal();
    for number in MIN_NUMBER..=MAX_NUMBER {
        let expected = all.iter().copied().find(|signal| signal.number() == number);
        assert_eq!(Signal::from_number(number), expected);
    }
}

#[test]
fn unsigned_numbers_decode_like_signed_ones() {
    assert_eq!(Signal::from_word(2), Some(Signal::Int));
    assert_eq!(Signal::from_word(15), Some(Signal::Term));
    assert_eq!(Signal::from_word(31), Some(Signal::Sys));
    assert_eq!(Signal::from_word(0), None);
    assert_eq!(Signal::from_word(16), None);
    assert_eq!(Signal::from_word(32), None);
    assert_eq!(Signal::from_word(0x8000_0002), None);
    assert_eq!(Signal::from_word(u32::MAX), None);
}

//! The signals that can be listened for, and their numbers.

use vstd::prelude::*;

verus! {

/// The smallest number that names a signal.
pub const MIN_NUMBER: i32 = 1;

/// The largest number that names a signal.
pub const MAX_NUMBER: i32 = 31;

/// The signal types that we are able to listen for.
///
/// The variants are declared by increasing number, so the derived order is the
/// order of the numbers.
#[derive(Copy, Clone, Debug, PartialEq, Eq, PartialOrd, Ord, Hash, Structural)]
pub enum Signal {
    /// `SIGHUP`
    Hup,
    /// `SIGINT`
    Int,
    /// `SIGQUIT`
    Quit,
    /// `SIGILL`
    Ill,
    /// `SIGTRAP`
    Trap,
    /// `SIGABRT`, aka `SIGIOT`
    Abort,
    /// `SIGBUS`
    Bus,
    /// `SIGFPE`
    Fpe,
    /// `SIGKILL`
    Kill,
    /// `SIGUSR1`
    Usr1,
    /// `SIGSEGV`
    Segv,
    /// `SIGUSR2`
    Usr2,
    /// `SIGPIPE`
    Pipe,
    /// `SIGALRM`
    Alarm,
    /// `SIGTERM`
    Term,
    /// `SIGCHLD`
    Child,
    /// `SIGCONT`
    Cont,
    /// `SIGSTOP`
    Stop,
    /// `SIGTSTP`
    Tstp,
    /// `SIGTTIN`
    Ttin,
    /// `SIGTTOU`
    Ttou,
    /// `SIGURG`
    Urg,
    /// `SIGXCPU`
    Xcpu,
    /// `SIGXFSZ`
    Xfsz,
    /// `SIGVTALRM`
    Vtalarm,
    /// `SIGPROF`
    Prof,
    /// `SIGWINCH`
    Winch,
    /// `SIGIO`, aka `SIGPOLL`
    Io,
    /// `SIGSYS`, aka `SIGUNUSED`
    Sys,
}

impl Signal {
    /// The number of this signal, in the numbering that Linux uses on most
    /// architectures.
    pub open spec fn code(self) -> i32 {
        match self {
            Signal::Hup => 1,
            Signal::Int => 2,
            Signal::Quit => 3,
            Signal::Ill => 4,
            Signal::Trap => 5,
            Signal::Abort => 6,
            Signal::Bus => 7,
            Signal::Fpe => 8,
            Signal::Kill => 9,
            Signal::Usr1 => 10,
            Signal::Segv => 11,
            Signal::Usr2 => 12,
            Signal::Pipe => 13,
            Signal::Alarm => 14,
            Signal::Term => 15,
            Signal::Child => 17,
            Signal::Cont => 18,
            Signal::Stop => 19,
            Signal::Tstp => 20,
            Signal::Ttin => 21,
            Signal::Ttou => 22,
            Signal::Urg => 23,
            Signal::Xcpu => 24,
            Signal::Xfsz => 25,
            Signal::Vtalarm => 26,
            Signal::Prof => 27,
            Signal::Winch => 28,
            Signal::Io => 29,
            Signal::Sys => 31,
        }
    }

    /// The signal that a number names, if it names one.
    pub open spec fn named_by(number: i32) -> Option<Signal> {
        if number == 1 {
            Some(Signal::Hup)
        } else if number == 2 {
            Some(Signal::Int)
        } else if number == 3 {
            Some(Signal::Quit)
        } else if number == 4 {
            Some(Signal::Ill)
        } else if number == 5 {
            Some(Signal::Trap)
        } else if number == 6 {
            Some(Signal::Abort)
        } else if number == 7 {
            Some(Signal::Bus)
        } else if number == 8 {
            Some(Signal::Fpe)
        } else if number == 9 {
            Some(Signal::Kill)
        } else if number == 10 {
            Some(Signal::Usr1)
        } else if number == 11 {
            Some(Signal::Segv)
        } else if number == 12 {
            Some(Signal::Usr2)
        } else if number == 13 {
            Some(Signal::Pipe)
        } else if number == 14 {
            Some(Signal::Alarm)
        } else if number == 15 {
            Some(Signal::Term)
        } else if number == 17 {
            Some(Signal::Child)
        } else if number == 18 {
            Some(Signal::Cont)
        } else if number == 19 {
            Some(Signal::Stop)
        } else if number == 20 {
            Some(Signal::Tstp)
        } else if number == 21 {
            Some(Signal::Ttin)
        } else if number == 22 {
            Some(Signal::Ttou)
        } else if number == 23 {
            Some(Signal::Urg)
        } else if number == 24 {
            Some(Signal::Xcpu)
        } else if number == 25 {
            Some(Signal::Xfsz)
        } else if number == 26 {
            Some(Signal::Vtalarm)
        } else if number == 27 {
            Some(Signal::Prof)
        } else if number == 28 {
            Some(Signal::Winch)
        } else if number == 29 {
            Some(Signal::Io)
        } else if number == 31 {
            Some(Signal::Sys)
        } else {
            None
        }
    }

    /// The signal that an unsigned number names, if it names one.
    pub open spec fn named_by_word(word: u32) -> Option<Signal> {
        if word <= MAX_NUMBER as u32 {
            Signal::named_by(word as i32)
        } else {
            None
        }
    }

    /// Returns the signal number.
    pub fn number(self) -> (number: i32)
        ensures
            number == self.code(),
            MIN_NUMBER <= number <= MAX_NUMBER,
    {
        match self {
            Signal::Hup => 1,
            Signal::Int => 2,
            Signal::Quit => 3,
            Signal::Ill => 4,
            Signal::Trap => 5,
            Signal::Abort => 6,
            Signal::Bus => 7,
            Signal::Fpe => 8,
            Signal::Kill => 9,
            Signal::Usr1 => 10,
            Signal::Segv => 11,
            Signal::Usr2 => 12,
            Signal::Pipe => 13,
            Signal::Alarm => 14,
            Signal::Term => 15,
            Signal::Child => 17,
            Signal::Cont => 18,
            Signal::Stop => 19,
            Signal::Tstp => 20,
            Signal::Ttin => 21,
            Signal::Ttou => 22,
            Signal::Urg => 23,
            Signal::Xcpu => 24,
            Signal::Xfsz => 25,
            Signal::Vtalarm => 26,
            Signal::Prof => 27,
            Signal::Winch => 28,
            Signal::Io => 29,
            Signal::Sys => 31,
        }
    }

    /// Parse a signal from its number.
    ///
    /// A number that names no signal gives `None`.
    pub fn from_number(number: i32) -> (signal: Option<Signal>)
        ensures
            signal == Signal::named_by(number),
            match signal {
                Some(found) => found.code() == number,
                None => forall|other: Signal| other.code() != number,
            },
    {
        match number {
            1 => Some(Signal::Hup),
            2 => Some(Signal::Int),
            3 => Some(Signal::Quit),
            4 => Some(Signal::Ill),
            5 => Some(Signal::Trap),
            6 => Some(Signal::Abort),
            7 => Some(Signal::Bus),
            8 => Some(Signal::Fpe),
            9 => Some(Signal::Kill),
            10 => Some(Signal::Usr1),
            11 => Some(Signal::Segv),
            12 => Some(Signal::Usr2),
            13 => Some(Signal::Pipe),
            14 => Some(Signal::Alarm),
            15 => Some(Signal::Term),
            17 => Some(Signal::Child),
            18 => Some(Signal::Cont),
            19 => Some(Signal::Stop),
            20 => Some(Signal::Tstp),
            21 => Some(Signal::Ttin),
            22 => Some(Signal::Ttou),
            23 => Some(Signal::Urg),
            24 => Some(Signal::Xcpu),
            25 => Some(Signal::Xfsz),
            26 => Some(Signal::Vtalarm),
            27 => Some(Signal::Prof),
            28 => Some(Signal::Winch),
            29 => Some(Signal::Io),
            31 => Some(Signal::Sys),
            _ => None,
        }
    }

    /// Parse a signal from an unsigned number.
    ///
    /// A number that names no signal gives `None`.
    pub fn from_word(word: u32) -> (signal: Option<Signal>)
        ensures
            signal == Signal::named_by_word(word),
            match signal {
                Some(found) => found.code() == word,
                None => forall|other: Signal| other.code() != word,
            },
    {
        if word <= MAX_NUMBER as u32 {
            Signal::from_number(word as i32)
        } else {
            None
        }
    }
}

/// No two signals share a number.
pub proof fn lemma_code_injective(a: Signal, b: Signal)
    ensures
        a.code() == b.code() <==> a == b,
{
}

/// Every signal's number lies between `MIN_NUMBER` and `MAX_NUMBER`.
pub proof fn lemma_code_in_range(signal: Signal)
    ensures
        MIN_NUMBER <= signal.code() <= MAX_NUMBER,
{
}

/// The number of a signal names that signal and no other.
pub proof fn lemma_number_round_trip(signal: Signal)
    ensures
        Signal::named_by(signal.code()) == Some(signal),
{
}

/// The number of a signal, taken as an unsigned number, names that signal.
pub proof fn lemma_word_round_trip(signal: Signal)
    ensures
        Signal::named_by_word(signal.code() as u32) == Some(signal),
{
}

/// A number that names a signal is the number of the signal that it names.
pub proof fn lemma_named_by_inverts_code(number: i32, signal: Signal)
    ensures
        Signal::named_by(number) == Some(signal) <==> signal.code() == number,
{
}

} // verus!

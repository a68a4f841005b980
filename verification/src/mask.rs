//! A set of signals, kept as the kernel keeps it: one bit for each number.

use crate::signal::lemma_code_injective;
use crate::signal::Signal;
use crate::signal::MAX_NUMBER;
use crate::signal::MIN_NUMBER;
use vstd::prelude::*;

verus! {

/// Whether the bit of `number` is set in `bits`.
pub open spec fn bit_is_set(bits: u32, number: u32) -> bool {
    (bits >> number) & 1 == 1
}

proof fn lemma_no_bit_in_zero(number: u32)
    requires
        number < 32,
    ensures
        !bit_is_set(0, number),
{
    assert((0u32 >> number) & 1 == 0) by (bit_vector);
}

proof fn lemma_bit_after_set(bits: u32, set: u32, number: u32)
    requires
        set < 32,
        number < 32,
    ensures
        bit_is_set(bits | (1u32 << set), number) == (number == set || bit_is_set(bits, number)),
{
    assert(((bits | (1u32 << set)) >> number) & 1 == 1 <==> (number == set || (bits >> number) & 1
        == 1)) by (bit_vector)
        requires
            set < 32,
            number < 32,
    ;
}

proof fn lemma_bit_after_clear(bits: u32, cleared: u32, number: u32)
    requires
        cleared < 32,
        number < 32,
    ensures
        bit_is_set(bits & !(1u32 << cleared), number) == (number != cleared && bit_is_set(
            bits,
            number,
        )),
{
    assert(((bits & !(1u32 << cleared)) >> number) & 1 == 1 <==> (number != cleared && (bits
        >> number) & 1 == 1)) by (bit_vector)
        requires
            cleared < 32,
            number < 32,
    ;
}

/// The set of signals that a kernel object is asked to watch.
#[derive(Copy, Clone, Debug, PartialEq, Eq, Hash, Structural)]
pub struct SignalMask {
    bits: u32,
}

impl View for SignalMask {
    type V = Set<Signal>;

    /// The signals in the mask.
    closed spec fn view(&self) -> Set<Signal> {
        Set::new(|signal: Signal| bit_is_set(self.bits, signal.code() as u32))
    }
}

impl SignalMask {
    /// The bits of the mask: bit `n` is set where the signal with number `n`
    /// is in it.
    pub closed spec fn spec_bits(&self) -> u32 {
        self.bits
    }

    /// A mask holds exactly the signals whose bits are set.
    pub proof fn lemma_member_bit(self, signal: Signal)
        ensures
            self@.contains(signal) == bit_is_set(self.spec_bits(), signal.code() as u32),
    {
    }

    /// The bits of the mask: bit `n` is set where the signal with number `n`
    /// is in it.
    pub fn bits(&self) -> (bits: u32)
        ensures
            bits == self.spec_bits(),
    {
        self.bits
    }

    /// The mask without any signal.
    pub fn empty() -> (mask: SignalMask)
        ensures
            mask@ == Set::<Signal>::empty(),
            mask.spec_bits() == 0,
    {
        let mask = SignalMask { bits: 0 };
        proof {
            assert forall|signal: Signal| !mask@.contains(signal) by {
                lemma_no_bit_in_zero(signal.code() as u32);
            }
        }
        mask
    }

    /// Whether the signal is in the mask.
    pub fn contains(&self, signal: Signal) -> (found: bool)
        ensures
            found == self@.contains(signal),
    {
        let number = signal.number() as u32;
        (self.bits >> number) & 1 == 1
    }

    /// Whether no signal is in the mask.
    pub fn is_empty(&self) -> (empty: bool)
        ensures
            empty == (self@ == Set::<Signal>::empty()),
    {
        let signals = self.signals();
        proof {
            if signals@.len() == 0 {
                assert(self@ =~= Set::<Signal>::empty());
            } else {
                assert(self@.contains(signals@[0]));
            }
        }
        signals.len() == 0
    }

    /// Puts the signal into the mask.
    pub fn insert(&mut self, signal: Signal)
        ensures
            final(self)@ == old(self)@.insert(signal),
    {
        let number = signal.number() as u32;
        self.bits = self.bits | (1u32 << number);
        proof {
            assert forall|other: Signal|
                self@.contains(other) == old(self)@.insert(signal).contains(other) by {
                lemma_bit_after_set(old(self).bits, number, other.code() as u32);
                lemma_code_injective(other, signal);
                assert(old(self)@.contains(other) == bit_is_set(
                    old(self).bits,
                    other.code() as u32,
                ));
            }
        }
    }

    /// Takes the signal out of the mask.
    pub fn remove(&mut self, signal: Signal)
        ensures
            final(self)@ == old(self)@.remove(signal),
    {
        let number = signal.number() as u32;
        self.bits = self.bits & !(1u32 << number);
        proof {
            assert forall|other: Signal|
                self@.contains(other) == old(self)@.remove(signal).contains(other) by {
                lemma_bit_after_clear(old(self).bits, number, other.code() as u32);
            }
        }
    }

    /// The signals in the mask, by increasing number.
    pub fn signals(&self) -> (signals: Vec<Signal>)
        ensures
            forall|signal: Signal| signals@.contains(signal) == self@.contains(signal),
            forall|i: int, j: int|
                0 <= i < j < signals@.len() ==> signals@[i].code() < signals@[j].code(),
    {
        let mut signals: Vec<Signal> = Vec::new();
        let mut number: i32 = MIN_NUMBER;
        while number <= MAX_NUMBER
            invariant
                MIN_NUMBER <= number <= MAX_NUMBER + 1,
                forall|signal: Signal|
                    signals@.contains(signal) == (self@.contains(signal) && signal.code() < number),
                forall|i: int, j: int|
                    0 <= i < j < signals@.len() ==> signals@[i].code() < signals@[j].code(),
                forall|i: int| 0 <= i < signals@.len() ==> signals@[i].code() < number,
            decreases MAX_NUMBER + 1 - number,
        {
            let ghost before = signals@;
            if let Some(signal) = Signal::from_number(number) {
                if self.contains(signal) {
                    signals.push(signal);
                    proof {
                        assert(signals@[before.len() as int] == signal);
                        assert forall|other: Signal|
                            signals@.contains(other) == (self@.contains(other) && other.code()
                                < number + 1) by {
                            if before.contains(other) {
                                let i = choose|i: int| 0 <= i < before.len() && before[i] == other;
                                assert(signals@[i] == other);
                            }
                        }
                    }
                }
            }
            number = number + 1;
        }
        signals
    }
}

} // verus!

//! The notifier that works wherever a pipe does.
//!
//! The handler of a signal writes the signal's number into one end of a pipe:
//! four bytes, in one write that does not block. The consumer reads the other
//! end, gathers bytes until it has four, and decodes them. A write that fails
//! because the pipe is full drops the signal.

use crate::error::SignalError;
use crate::signal::lemma_word_round_trip;
use crate::signal::Signal;
use vstd::prelude::*;

verus! {

/// The number of bytes that carry one signal number.
pub const CODE_SIZE: usize = 4;

/// The order in which the bytes of a number are written.
#[derive(Copy, Clone, Debug, PartialEq, Eq, Hash, Structural)]
pub enum ByteOrder {
    /// The byte of least weight comes first.
    Little,
    /// The byte of most weight comes first.
    Big,
}

/// The byte of `word` that has the weight `256` to the power `index`.
pub open spec fn byte_of(word: u32, index: u32) -> u8 {
    ((word >> (8 * index)) & 0xff) as u8
}

/// The number whose bytes are these, by increasing weight.
pub open spec fn word_of(b0: u8, b1: u8, b2: u8, b3: u8) -> u32 {
    (b0 as u32) | ((b1 as u32) << 8) | ((b2 as u32) << 16) | ((b3 as u32) << 24)
}

/// The four bytes that carry `word` in the given order.
pub open spec fn word_bytes(word: u32, order: ByteOrder) -> Seq<u8> {
    match order {
        ByteOrder::Little => seq![
            byte_of(word, 0),
            byte_of(word, 1),
            byte_of(word, 2),
            byte_of(word, 3),
        ],
        ByteOrder::Big => seq![
            byte_of(word, 3),
            byte_of(word, 2),
            byte_of(word, 1),
            byte_of(word, 0),
        ],
    }
}

/// The number that four bytes carry in the given order.
pub open spec fn bytes_word(bytes: Seq<u8>, order: ByteOrder) -> u32
    recommends
        bytes.len() == CODE_SIZE,
{
    match order {
        ByteOrder::Little => word_of(bytes[0], bytes[1], bytes[2], bytes[3]),
        ByteOrder::Big => word_of(bytes[3], bytes[2], bytes[1], bytes[0]),
    }
}

/// The bytes of a number carry that number.
pub proof fn lemma_decode_inverts_encode(word: u32, order: ByteOrder)
    ensures
        word_bytes(word, order).len() == CODE_SIZE,
        bytes_word(word_bytes(word, order), order) == word,
{
    assert(word == ((word >> 0) & 0xff) as u8 as u32 | ((((word >> 8) & 0xff) as u8 as u32) << 8) | (
    (((word >> 16) & 0xff) as u8 as u32) << 16) | ((((word >> 24) & 0xff) as u8 as u32) << 24))
        by (bit_vector);
    assert(8 * 0u32 == 0 && 8 * 1u32 == 8 && 8 * 2u32 == 16 && 8 * 3u32 == 24);
}

/// Four bytes are the bytes of the number that they carry.
pub proof fn lemma_encode_inverts_decode(bytes: Seq<u8>, order: ByteOrder)
    requires
        bytes.len() == CODE_SIZE,
    ensures
        word_bytes(bytes_word(bytes, order), order) == bytes,
{
    let (b0, b1, b2, b3) = match order {
        ByteOrder::Little => (bytes[0], bytes[1], bytes[2], bytes[3]),
        ByteOrder::Big => (bytes[3], bytes[2], bytes[1], bytes[0]),
    };
    assert({
        let w = (b0 as u32) | ((b1 as u32) << 8) | ((b2 as u32) << 16) | ((b3 as u32) << 24);
        &&& ((w >> 0) & 0xff) as u8 == b0
        &&& ((w >> 8) & 0xff) as u8 == b1
        &&& ((w >> 16) & 0xff) as u8 == b2
        &&& ((w >> 24) & 0xff) as u8 == b3
    }) by (bit_vector);
}

/// Writes a number as four bytes in the given order.
pub fn encode(word: u32, order: ByteOrder) -> (bytes: [u8; 4])
    ensures
        bytes@ == word_bytes(word, order),
{
    let b0 = low_byte(word);
    let b1 = low_byte(word >> 8);
    let b2 = low_byte(word >> 16);
    let b3 = low_byte(word >> 24);
    proof {
        assert(word >> 0 == word) by (bit_vector);
    }
    match order {
        ByteOrder::Little => [b0, b1, b2, b3],
        ByteOrder::Big => [b3, b2, b1, b0],
    }
}

fn low_byte(word: u32) -> (byte: u8)
    ensures
        byte == (word & 0xff) as u8,
{
    let low = word & 0xff;
    low as u8
}

/// Reads the number that four bytes carry in the given order.
pub fn decode(bytes: &[u8; 4], order: ByteOrder) -> (word: u32)
    ensures
        word == bytes_word(bytes@, order),
{
    match order {
        ByteOrder::Little => compose(bytes[0], bytes[1], bytes[2], bytes[3]),
        ByteOrder::Big => compose(bytes[3], bytes[2], bytes[1], bytes[0]),
    }
}

fn compose(b0: u8, b1: u8, b2: u8, b3: u8) -> (word: u32)
    ensures
        word == word_of(b0, b1, b2, b3),
{
    (b0 as u32) | ((b1 as u32) << 8) | ((b2 as u32) << 16) | ((b3 as u32) << 24)
}

/// Calls `u32::to_ne_bytes`, which writes a number in the byte order of the
/// machine. Which order that is depends on the machine; it is one of the two.
#[verifier::external_body]
fn native_bytes(word: u32) -> (bytes: [u8; 4])
    ensures
        bytes@ == word_bytes(word, ByteOrder::Little) || bytes@ == word_bytes(
            word,
            ByteOrder::Big,
        ),
{
    word.to_ne_bytes()
}

impl ByteOrder {
    /// The byte order of a machine that writes the number one as `probe`: the
    /// byte of least weight, which alone is not zero, comes first or last.
    pub open spec fn shown_by(probe: Seq<u8>) -> ByteOrder
        recommends
            probe.len() == CODE_SIZE,
    {
        if probe[0] == 1 {
            ByteOrder::Little
        } else {
            ByteOrder::Big
        }
    }

    /// Tells the byte order from the bytes as which the number one was
    /// written.
    pub fn of_probe(probe: &[u8; 4]) -> (order: ByteOrder)
        ensures
            order == ByteOrder::shown_by(probe@),
    {
        if probe[0] == 1 {
            ByteOrder::Little
        } else {
            ByteOrder::Big
        }
    }

    /// The byte order in which this machine writes the number one.
    pub fn native() -> (order: ByteOrder) {
        let probe = native_bytes(1);
        ByteOrder::of_probe(&probe)
    }
}

/// The bytes of the number one show the order in which they were written.
pub proof fn lemma_probe_shows_order(order: ByteOrder)
    ensures
        ByteOrder::shown_by(word_bytes(1, order)) == order,
{
    assert(((1u32 >> 0) & 0xff) as u8 == 1 && ((1u32 >> 24) & 0xff) as u8 == 0) by (bit_vector);
}

/// What happened since the last step of a poll.
#[derive(Copy, Clone, Debug)]
pub enum PipeEvent<'a> {
    /// The consumer began to poll.
    Started,
    /// A read of the pipe gave these bytes; none at all where the writing end
    /// was closed.
    Data(&'a [u8]),
    /// A read of the pipe found nothing and would have blocked.
    WouldBlock,
    /// The pipe was reported readable.
    Readable,
}

/// What the caller of a poll step is to do next.
#[derive(Copy, Clone, Debug, PartialEq, Eq, Structural)]
pub enum PipeAction {
    /// Hand this signal to the consumer: the poll is over.
    Deliver(Signal),
    /// Hand this failure to the consumer: the poll is over.
    Fail(SignalError),
    /// Read at most this many bytes from the pipe, without blocking, and
    /// report what came of it.
    Read(usize),
    /// Wait until the pipe is readable, and report it then; until then the
    /// consumer is suspended.
    AwaitReadable,
}

/// What the consumer is told once four bytes are gathered.
pub open spec fn verdict(code: Seq<u8>, order: ByteOrder) -> PipeAction
    recommends
        code.len() == CODE_SIZE,
{
    match Signal::named_by_word(bytes_word(code, order)) {
        Some(signal) => PipeAction::Deliver(signal),
        None => PipeAction::Fail(SignalError::InvalidSignal),
    }
}

/// The step that follows a read: the bytes gathered after it, and the action.
///
/// No bytes mean that the pipe was closed. Of a chunk that is longer than what
/// is wanted, only the wanted bytes are taken.
pub open spec fn data_step(gathered: Seq<u8>, chunk: Seq<u8>, order: ByteOrder) -> (
    Seq<u8>,
    PipeAction,
)
    recommends
        gathered.len() < CODE_SIZE,
{
    if chunk.len() == 0 {
        (gathered, PipeAction::Fail(SignalError::UnexpectedEof))
    } else {
        let wanted = CODE_SIZE - gathered.len();
        let joined = if chunk.len() <= wanted {
            gathered + chunk
        } else {
            gathered + chunk.take(wanted)
        };
        if joined.len() < CODE_SIZE {
            (joined, PipeAction::Read((CODE_SIZE - joined.len()) as usize))
        } else {
            (Seq::<u8>::empty(), verdict(joined, order))
        }
    }
}

/// One step of a poll: the bytes gathered after it, and the action.
pub open spec fn step(gathered: Seq<u8>, event: PipeEvent, order: ByteOrder) -> (
    Seq<u8>,
    PipeAction,
)
    recommends
        gathered.len() < CODE_SIZE,
{
    match event {
        PipeEvent::Started => (gathered, PipeAction::Read((CODE_SIZE - gathered.len()) as usize)),
        PipeEvent::Data(chunk) => data_step(gathered, chunk@, order),
        PipeEvent::WouldBlock => (gathered, PipeAction::AwaitReadable),
        PipeEvent::Readable => (gathered, PipeAction::Read((CODE_SIZE - gathered.len()) as usize)),
    }
}

/// The bytes of a signal number that have been read so far: fewer than four.
#[derive(Copy, Clone, Debug)]
pub struct Assembly {
    bytes: [u8; 4],
    filled: usize,
}

impl View for Assembly {
    type V = Seq<u8>;

    /// The bytes gathered so far, in the order in which they were read.
    closed spec fn view(&self) -> Seq<u8> {
        self.bytes@.take(self.filled as int)
    }
}

impl Assembly {
    #[verifier::type_invariant]
    spec fn wf(self) -> bool {
        self.filled < CODE_SIZE
    }

    /// An assembly without any byte.
    pub fn new() -> (assembly: Assembly)
        ensures
            assembly@ == Seq::<u8>::empty(),
    {
        Assembly { bytes: [0, 0, 0, 0], filled: 0 }
    }

    /// The number of bytes gathered so far.
    pub fn len(&self) -> (len: usize)
        ensures
            len == self@.len(),
            len < CODE_SIZE,
    {
        proof {
            use_type_invariant(self);
        }
        self.filled
    }

    /// The number of bytes that are still missing.
    pub fn wanted(&self) -> (wanted: usize)
        ensures
            wanted == CODE_SIZE - self@.len(),
            0 < wanted <= CODE_SIZE,
    {
        proof {
            use_type_invariant(self);
        }
        CODE_SIZE - self.filled
    }

    /// Takes in the bytes that a read gave, and decides what follows.
    pub fn feed(self, chunk: &[u8], order: ByteOrder) -> (next: (Assembly, PipeAction))
        ensures
            (next.0@, next.1) == data_step(self@, chunk@, order),
    {
        proof {
            use_type_invariant(self);
        }
        if chunk.len() == 0 {
            return (self, PipeAction::Fail(SignalError::UnexpectedEof));
        }
        let wanted = CODE_SIZE - self.filled;
        let taken = if chunk.len() <= wanted {
            chunk.len()
        } else {
            wanted
        };
        let mut bytes = self.bytes;
        let mut copied: usize = 0;
        while copied < taken
            invariant
                self.filled < CODE_SIZE,
                taken <= chunk@.len(),
                self.filled + taken <= CODE_SIZE,
                copied <= taken,
                bytes@.len() == CODE_SIZE,
                bytes@.take(self.filled + copied) == self@ + chunk@.take(copied as int),
            decreases taken - copied,
        {
            let ghost before = bytes@;
            bytes[self.filled + copied] = chunk[copied];
            proof {
                assert(bytes@.take(self.filled + copied + 1) =~= before.take(
                    self.filled + copied,
                ).push(chunk@[copied as int]));
            }
            copied = copied + 1;
        }
        let filled = self.filled + taken;
        proof {
            assert(chunk@.len() <= wanted ==> chunk@.take(taken as int) =~= chunk@);
        }
        if filled < CODE_SIZE {
            (Assembly { bytes, filled }, PipeAction::Read(CODE_SIZE - filled))
        } else {
            let action = match Signal::from_word(decode(&bytes, order)) {
                Some(signal) => PipeAction::Deliver(signal),
                None => PipeAction::Fail(SignalError::InvalidSignal),
            };
            (Assembly::new(), action)
        }
    }
}

/// The notifier that reads signal numbers from a pipe.
#[derive(Copy, Clone, Debug)]
pub struct Notifier {
    order: ByteOrder,
}

impl Notifier {
    /// The order in which both ends of the pipe write and read a number.
    pub closed spec fn spec_order(&self) -> ByteOrder {
        self.order
    }

    /// Create a new signal notifier whose pipe carries numbers in `order`.
    pub fn new(order: ByteOrder) -> (notifier: Notifier)
        ensures
            notifier.spec_order() == order,
    {
        Notifier { order }
    }

    /// The order in which both ends of the pipe write and read a number.
    pub fn order(&self) -> (order: ByteOrder)
        ensures
            order == self.spec_order(),
    {
        self.order
    }

    /// Add a signal to the notifier.
    ///
    /// Returns the bytes that the handler of the signal is to write into its
    /// end of the pipe, in one write, each time that the signal arrives.
    pub fn add_signal(&self, signal: Signal) -> (message: [u8; 4])
        ensures
            message@ == word_bytes(signal.code() as u32, self.spec_order()),
    {
        encode(signal.number() as u32, self.order)
    }

    /// Takes one step of a poll.
    pub fn poll_step(&self, state: Assembly, event: PipeEvent) -> (next: (Assembly, PipeAction))
        ensures
            (next.0@, next.1) == step(state@, event, self.spec_order()),
    {
        match event {
            PipeEvent::Started => (state, PipeAction::Read(state.wanted())),
            PipeEvent::Data(chunk) => state.feed(chunk, self.order),
            PipeEvent::WouldBlock => (state, PipeAction::AwaitReadable),
            PipeEvent::Readable => (state, PipeAction::Read(state.wanted())),
        }
    }
}

/// The bytes that the handler of a signal writes, read in one piece with
/// nothing gathered before, deliver that signal.
pub proof fn lemma_message_delivers(signal: Signal, order: ByteOrder)
    ensures
        data_step(Seq::<u8>::empty(), word_bytes(signal.code() as u32, order), order) == (
            Seq::<u8>::empty(),
            PipeAction::Deliver(signal),
        ),
{
    lemma_decode_inverts_encode(signal.code() as u32, order);
    lemma_word_round_trip(signal);
}

/// The bytes that the handler of a signal writes, read in two pieces, deliver
/// that signal with the second piece: no byte is lost where a read stops
/// short.
pub proof fn lemma_split_message_delivers(signal: Signal, order: ByteOrder, cut: int)
    requires
        0 < cut < CODE_SIZE,
    ensures
        ({
            let message = word_bytes(signal.code() as u32, order);
            let first = data_step(Seq::<u8>::empty(), message.take(cut), order);
            &&& first == (message.take(cut), PipeAction::Read((CODE_SIZE - cut) as usize))
            &&& data_step(first.0, message.skip(cut), order) == (
                Seq::<u8>::empty(),
                PipeAction::Deliver(signal),
            )
        }),
{
    lemma_decode_inverts_encode(signal.code() as u32, order);
}

/// A signal is delivered only once four bytes are gathered, and it is the
/// signal that those four bytes name: a poll makes up no signal.
pub proof fn lemma_delivery_has_a_cause(
    gathered: Seq<u8>,
    chunk: Seq<u8>,
    order: ByteOrder,
    signal: Signal,
)
    requires
        gathered.len() < CODE_SIZE,
        data_step(gathered, chunk, order).1 == PipeAction::Deliver(signal),
    ensures
        gathered.len() + chunk.len() >= CODE_SIZE,
        signal.code() == bytes_word(
            gathered + chunk.take(CODE_SIZE - gathered.len()),
            order,
        ),
{
}

} // verus!

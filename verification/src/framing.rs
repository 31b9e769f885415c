//! Framing of messages on a peer-to-peer stream: every message is preceded
//! by its length in bytes as four big-endian bytes, which do not count
//! themselves. A reader takes the four length bytes one at a time; if the
//! stream ends before all four have come, it gives up with an empty message.

use vstd::prelude::*;

use crate::bytes::{be_bytes, be_value, lemma_be_bytes_value, push_u32_be};

verus! {

/// The largest number of bytes that a frame's length prefix can count, plus one.
pub open spec fn prefix_modulus() -> int {
    0x1_0000_0000
}

/// What goes on the stream for `message`: the length of the message, taken
/// modulo 2^32 and written big-endian, then the message itself.
pub open spec fn frame_spec(message: Seq<u8>) -> Seq<u8> {
    be_bytes((message.len() as int % prefix_modulus()) as u32) + message
}

/// Appends `message` to `buf`, one byte at a time.
fn push_all(buf: &mut Vec<u8>, message: &[u8])
    ensures
        final(buf)@ == old(buf)@ + message@,
{
    let mut i: usize = 0;
    while i < message.len()
        invariant
            i <= message@.len(),
            buf@ == old(buf)@ + message@.subrange(0, i as int),
        decreases message@.len() - i,
    {
        buf.push(message[i]);
        i = i + 1;
        assert(buf@ =~= old(buf)@ + message@.subrange(0, i as int));
    }
    assert(message@.subrange(0, i as int) =~= message@);
}

/// The bytes that carry `message` on a stream: its length prefix, then the
/// message. A message of 2^32 bytes or more has its length prefix wrap, as
/// the length is cast to 32 bits.
pub fn frame_message(message: &[u8]) -> (r: Vec<u8>)
    ensures
        r@ == frame_spec(message@),
{
    let len = message.len() as u64;
    let len32 = len as u32;
    assert(len32 == len % 0x1_0000_0000) by (bit_vector)
        requires
            len32 == len as u32,
    ;
    let mut buf: Vec<u8> = Vec::new();
    push_u32_be(&mut buf, len32);
    push_all(&mut buf, message);
    buf
}

/// Where a reader of a length prefix stands.
pub ghost enum PrefixOutcome {
    /// `received` bytes have come, which make up the big-endian `length` so far.
    Pending { length: int, received: nat },
    /// The stream ended before the length was complete.
    Ended,
    /// All four bytes have come; the message is `length` bytes long.
    Complete(u32),
}

/// The reader before any byte has come.
pub open spec fn prefix_start() -> PrefixOutcome {
    PrefixOutcome::Pending { length: 0, received: 0 }
}

/// One read of the stream: `Some(byte)` when a byte came, `None` when the
/// stream ended. A reader that is no longer pending stays as it is.
pub open spec fn prefix_step(state: PrefixOutcome, read: Option<u8>) -> PrefixOutcome {
    match state {
        PrefixOutcome::Pending { length, received } => match read {
            None => PrefixOutcome::Ended,
            Some(b) => if received + 1 == 4 {
                PrefixOutcome::Complete((length * 256 + b) as u32)
            } else {
                PrefixOutcome::Pending { length: length * 256 + b, received: received + 1 }
            },
        },
        _ => state,
    }
}

/// The reader after the reads `reads`, one after another.
pub open spec fn prefix_run(state: PrefixOutcome, reads: Seq<Option<u8>>) -> PrefixOutcome
    decreases reads.len(),
{
    if reads.len() == 0 {
        state
    } else {
        prefix_run(prefix_step(state, reads[0]), reads.drop_first())
    }
}

/// The reads that a stream delivering `bytes`, one at a time, gives.
pub open spec fn reads_of(bytes: Seq<u8>) -> Seq<Option<u8>> {
    bytes.map_values(|b: u8| Some(b))
}

/// A reader of a frame's length prefix, fed one read at a time.
pub struct LengthPrefixReader {
    length: u32,
    received: u8,
}

/// The bound below which the length stands after `received` bytes.
spec fn prefix_bound(received: u8) -> int {
    if received == 0 {
        1
    } else if received == 1 {
        0x100
    } else if received == 2 {
        0x1_0000
    } else {
        0x100_0000
    }
}

impl LengthPrefixReader {
    #[verifier::type_invariant]
    spec fn inv(self) -> bool {
        &&& self.received < 4
        &&& self.length < prefix_bound(self.received)
    }
}

impl View for LengthPrefixReader {
    type V = PrefixOutcome;

    closed spec fn view(&self) -> PrefixOutcome {
        PrefixOutcome::Pending { length: self.length as int, received: self.received as nat }
    }
}

/// What a reader does after one read.
pub enum PrefixStep {
    /// More length bytes are to come.
    Pending(LengthPrefixReader),
    /// The stream ended before the length was complete.
    Ended,
    /// The length is complete.
    Complete(u32),
}

impl View for PrefixStep {
    type V = PrefixOutcome;

    open spec fn view(&self) -> PrefixOutcome {
        match self {
            PrefixStep::Pending(r) => r@,
            PrefixStep::Ended => PrefixOutcome::Ended,
            PrefixStep::Complete(n) => PrefixOutcome::Complete(*n),
        }
    }
}

impl LengthPrefixReader {
    /// A reader that has received nothing yet.
    pub fn new() -> (r: Self)
        ensures
            r@ == prefix_start(),
    {
        LengthPrefixReader { length: 0, received: 0 }
    }

    /// Takes one read: a byte shifts into the length, the end of the stream
    /// ends the reading, and the fourth byte completes the length.
    pub fn step(self, read: Option<u8>) -> (r: PrefixStep)
        ensures
            r@ == prefix_step(self@, read),
    {
        proof {
            use_type_invariant(&self);
        }
        match read {
            None => PrefixStep::Ended,
            Some(b) => {
                let old_length = self.length;
                assert(old_length < 0x100_0000);
                let length = (old_length << 8) | (b as u32);
                assert(length == old_length * 256 + b) by (bit_vector)
                    requires
                        old_length < 0x100_0000,
                        length == (old_length << 8) | (b as u32),
                ;
                if self.received == 3 {
                    PrefixStep::Complete(length)
                } else {
                    PrefixStep::Pending(
                        LengthPrefixReader { length, received: self.received + 1 },
                    )
                }
            },
        }
    }
}

/// A reader fed the bytes of a frame decodes the length that the frame was
/// written with, and the message follows right after the prefix: for a
/// message shorter than 2^32 bytes, the reader gets back its exact length
/// and the message itself.
pub proof fn lemma_frame_roundtrip(message: Seq<u8>)
    ensures
        prefix_run(prefix_start(), reads_of(frame_spec(message))) == PrefixOutcome::Complete(
            (message.len() as int % prefix_modulus()) as u32,
        ),
        frame_spec(message).subrange(4, frame_spec(message).len() as int) == message,
        message.len() < prefix_modulus() ==> prefix_run(
            prefix_start(),
            reads_of(frame_spec(message)),
        ) == PrefixOutcome::Complete(message.len() as u32),
{
    let n = (message.len() as int % prefix_modulus()) as u32;
    let frame = frame_spec(message);
    let reads = reads_of(frame);
    lemma_be_bytes_value(n);
    let h = be_bytes(n);
    assert(be_value(h[0], h[1], h[2], h[3]) == n);
    assert(frame.subrange(4, frame.len() as int) =~= message);
    assert(reads.drop_first().drop_first().drop_first().drop_first() =~= reads.subrange(
        4,
        reads.len() as int,
    ));
    let s1 = prefix_step(prefix_start(), reads[0]);
    let s2 = prefix_step(s1, reads[1]);
    let s3 = prefix_step(s2, reads[2]);
    let s4 = prefix_step(s3, reads[3]);
    assert(s4 == PrefixOutcome::Complete(n));
    lemma_prefix_run_done(s4, reads.subrange(4, reads.len() as int));
    assert(prefix_run(s3, reads.drop_first().drop_first().drop_first()) == prefix_run(
        s4,
        reads.drop_first().drop_first().drop_first().drop_first(),
    ));
    assert(prefix_run(s2, reads.drop_first().drop_first()) == prefix_run(
        s3,
        reads.drop_first().drop_first().drop_first(),
    ));
    assert(prefix_run(s1, reads.drop_first()) == prefix_run(
        s2,
        reads.drop_first().drop_first(),
    ));
}

/// A reader that is no longer pending ignores every later read.
proof fn lemma_prefix_run_done(state: PrefixOutcome, reads: Seq<Option<u8>>)
    requires
        !(state is Pending),
    ensures
        prefix_run(state, reads) == state,
    decreases reads.len(),
{
    if reads.len() > 0 {
        lemma_prefix_run_done(prefix_step(state, reads[0]), reads.drop_first());
    }
}

/// A reader is always still reading, so a read that finds the stream
/// ended ends the reading.
pub proof fn lemma_reader_pending(reader: &LengthPrefixReader)
    ensures
        reader@ is Pending,
        prefix_step(reader@, None) == PrefixOutcome::Ended,
{
}

} // verus!

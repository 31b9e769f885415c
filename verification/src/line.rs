//! Newline-delimited text messages on a peer-to-peer stream. A sender writes
//! the message's UTF-8 bytes and then a newline; a reader collects bytes one
//! at a time until the newline, and decodes them, replacing what is not
//! valid UTF-8. A read that yields nothing means the stream is finished.

use vstd::prelude::*;
use vstd::utf8::{decode_utf8, encode_utf8, valid_utf8};

verus! {

/// The byte that ends a line.
pub const NEWLINE: u8 = 0x0a;

/// The bytes that carry `message`: its UTF-8 encoding, then a newline.
pub fn encode_line(message: &str) -> (r: Vec<u8>)
    ensures
        r@ == encode_utf8(message@).push(NEWLINE),
{
    let bytes = message.as_bytes();
    let mut buf: Vec<u8> = Vec::new();
    let mut i: usize = 0;
    while i < bytes.len()
        invariant
            i <= bytes@.len(),
            bytes@ == encode_utf8(message@),
            buf@ == bytes@.subrange(0, i as int),
        decreases bytes@.len() - i,
    {
        buf.push(bytes[i]);
        i = i + 1;
        assert(buf@ =~= bytes@.subrange(0, i as int));
    }
    assert(bytes@.subrange(0, i as int) =~= bytes@);
    buf.push(NEWLINE);
    buf
}

/// The text that `String::from_utf8_lossy` makes of `bytes`.
pub uninterp spec fn lossy_text(bytes: Seq<u8>) -> Seq<char>;

/// Calls `String::from_utf8_lossy`, which decodes `bytes` as UTF-8 and puts
/// U+FFFD REPLACEMENT CHARACTER in place of each invalid sequence; on valid
/// UTF-8 it gives the decoded text. What it gives for invalid input is
/// named by `lossy_text` and not stated further.
#[verifier::external_body]
fn from_utf8_lossy(bytes: &[u8]) -> (r: String)
    ensures
        r@ == lossy_text(bytes@),
        valid_utf8(bytes@) ==> r@ == decode_utf8(bytes@),
{
    String::from_utf8_lossy(bytes).into_owned()
}

/// Where a reader of a line stands.
pub ghost enum LineOutcome {
    /// These bytes of the line have come so far.
    Pending(Seq<u8>),
    /// The stream is finished.
    Ended,
    /// The line is complete; these are its bytes, newline excluded.
    Line(Seq<u8>),
}

/// The reader before any byte has come.
pub open spec fn line_start() -> LineOutcome {
    LineOutcome::Pending(Seq::empty())
}

/// One read of the stream: `read` is how many bytes came (`None` once the
/// stream is finished) and `byte` the byte that came. A reader that is no
/// longer pending stays as it is.
pub open spec fn line_step(state: LineOutcome, read: Option<usize>, byte: u8) -> LineOutcome {
    match state {
        LineOutcome::Pending(line) => match read {
            None => LineOutcome::Ended,
            Some(n) => if n == 0 {
                LineOutcome::Ended
            } else if byte == NEWLINE {
                LineOutcome::Line(line)
            } else {
                LineOutcome::Pending(line.push(byte))
            },
        },
        _ => state,
    }
}

/// The reader after the reads `reads`, one after another.
pub open spec fn line_run(state: LineOutcome, reads: Seq<(Option<usize>, u8)>) -> LineOutcome
    decreases reads.len(),
{
    if reads.len() == 0 {
        state
    } else {
        line_run(line_step(state, reads[0].0, reads[0].1), reads.drop_first())
    }
}

/// The reads that a stream delivering `bytes`, one at a time, gives.
pub open spec fn line_reads_of(bytes: Seq<u8>) -> Seq<(Option<usize>, u8)> {
    bytes.map_values(|b: u8| (Some(1usize), b))
}

/// A reader of one line, fed one read at a time.
pub struct LineReader {
    line: Vec<u8>,
}

impl View for LineReader {
    type V = LineOutcome;

    closed spec fn view(&self) -> LineOutcome {
        LineOutcome::Pending(self.line@)
    }
}

/// What a reader does after one read.
pub enum LineStep {
    /// More bytes of the line are to come.
    Pending(LineReader),
    /// The stream is finished; there is no line.
    Ended,
    /// The line is complete, decoded as text.
    Line(String),
}

impl LineReader {
    /// A reader that has received nothing yet.
    pub fn new() -> (r: Self)
        ensures
            r@ == line_start(),
    {
        LineReader { line: Vec::new() }
    }

    /// Takes one read: no byte ends the stream, a newline completes the line,
    /// and any other byte joins the line.
    pub fn step(self, read: Option<usize>, byte: u8) -> (r: LineStep)
        ensures
            line_step(self@, read, byte) matches LineOutcome::Pending(line) ==> r matches LineStep::Pending(next) && next@ == LineOutcome::Pending(line),
            line_step(self@, read, byte) is Ended ==> r is Ended,
            line_step(self@, read, byte) matches LineOutcome::Line(line) ==> r matches LineStep::Line(text) && text@ == lossy_text(line) && (valid_utf8(line) ==> text@ == decode_utf8(line)),
    {
        match read {
            None => LineStep::Ended,
            Some(n) => {
                if n == 0 {
                    LineStep::Ended
                } else if byte == NEWLINE {
                    LineStep::Line(from_utf8_lossy(self.line.as_slice()))
                } else {
                    let mut line = self.line;
                    line.push(byte);
                    LineStep::Pending(LineReader { line })
                }
            },
        }
    }
}

/// A reader that is no longer pending ignores every later read.
proof fn lemma_line_run_done(state: LineOutcome, reads: Seq<(Option<usize>, u8)>)
    requires
        !(state is Pending),
    ensures
        line_run(state, reads) == state,
    decreases reads.len(),
{
    if reads.len() > 0 {
        lemma_line_run_done(line_step(state, reads[0].0, reads[0].1), reads.drop_first());
    }
}

/// A reader that has `prefix` and is fed `bytes` with no newline, then a
/// newline, then anything, completes the line `prefix + bytes`.
proof fn lemma_line_run_collects(prefix: Seq<u8>, bytes: Seq<u8>, rest: Seq<u8>)
    requires
        !bytes.contains(NEWLINE),
    ensures
        line_run(LineOutcome::Pending(prefix), line_reads_of(bytes.push(NEWLINE) + rest))
            == LineOutcome::Line(prefix + bytes),
    decreases bytes.len(),
{
    let all = bytes.push(NEWLINE) + rest;
    let reads = line_reads_of(all);
    if bytes.len() == 0 {
        assert(reads[0] == (Some(1usize), NEWLINE));
        lemma_line_run_done(LineOutcome::Line(prefix), reads.drop_first());
        assert(prefix + bytes =~= prefix);
    } else {
        assert(reads[0] == (Some(1usize), bytes[0]));
        assert(bytes[0] != NEWLINE);
        let tail = bytes.drop_first();
        assert(!tail.contains(NEWLINE)) by {
            if tail.contains(NEWLINE) {
                let i = choose|i: int| 0 <= i < tail.len() && tail[i] == NEWLINE;
                assert(bytes[i + 1] == NEWLINE);
            }
        }
        assert(all.drop_first() =~= tail.push(NEWLINE) + rest);
        assert(reads.drop_first() =~= line_reads_of(tail.push(NEWLINE) + rest));
        lemma_line_run_collects(prefix.push(bytes[0]), tail, rest);
        assert(prefix.push(bytes[0]) + tail =~= prefix + bytes);
    }
}

/// A reader fed the bytes that `encode_line` writes for a text without a
/// newline gets back the text's bytes, which are valid UTF-8 and decode to
/// the text itself.
pub proof fn lemma_line_roundtrip(text: Seq<char>)
    requires
        !encode_utf8(text).contains(NEWLINE),
    ensures
        line_run(line_start(), line_reads_of(encode_utf8(text).push(NEWLINE)))
            == LineOutcome::Line(encode_utf8(text)),
        valid_utf8(encode_utf8(text)),
        decode_utf8(encode_utf8(text)) == text,
{
    let bytes = encode_utf8(text);
    lemma_line_run_collects(Seq::empty(), bytes, Seq::empty());
    assert(bytes.push(NEWLINE) + Seq::<u8>::empty() =~= bytes.push(NEWLINE));
    assert(Seq::<u8>::empty() + bytes =~= bytes);
    vstd::utf8::encode_utf8_valid_utf8(text);
    vstd::utf8::encode_utf8_decode_utf8(text);
}

/// A reader is always still reading, so a read that yields nothing ends
/// the reading.
pub proof fn lemma_line_reader_pending(reader: &LineReader, byte: u8)
    ensures
        reader@ is Pending,
        line_step(reader@, None, byte) == LineOutcome::Ended,
        line_step(reader@, Some(0), byte) == LineOutcome::Ended,
{
}

/// Whether the text received so far completes the greeting that opens a
/// connection: at least four bytes of it.
pub fn greeting_complete(received: &String) -> (r: bool)
    ensures
        r == (encode_utf8(received@).len() >= 4),
{
    let bytes = received.as_str().as_bytes();
    bytes.len() >= 4
}

} // verus!

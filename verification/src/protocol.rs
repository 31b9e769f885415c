//! The instruction protocol. Every message starts with one instruction byte
//! that names the action; the bytes after it are the action's arguments.
//!
//! | instruction | message            | arguments                    |
//! |-------------|--------------------|------------------------------|
//! | `0x00`      | server information | width, height: big-endian u32 |
//! | `0x10`      | mouse move         | x, y: big-endian u32         |
//! | `0x11`      | mouse click        | one byte: button bit 1, state bit 0 |

pub mod mouse_click;
pub mod mouse_move;

use vstd::prelude::*;

use crate::framing::{
    frame_spec, lemma_frame_roundtrip, prefix_run, prefix_start, reads_of, PrefixOutcome,
};
use crate::bytes::{
    be_bytes, be_u32_at, lemma_be_bytes_value, lemma_be_value_bytes, push_u32_be, read_u32_be,
};

pub use mouse_click::{MouseButton, MouseClick, MouseState};
pub use mouse_move::MouseMove;

verus! {

/// Instruction byte of the server information message.
pub const SERVER_INFORMATION: u8 = 0x00;

/// Instruction byte of the mouse move message.
pub const MOUSE_MOVE: u8 = 0x10;

/// Instruction byte of the mouse click message.
pub const MOUSE_CLICK: u8 = 0x11;

/// A message that can be written to bytes and read back from its arguments.
pub trait IntoBytes: Sized {
    /// The whole message on the wire, instruction byte first.
    spec fn spec_into_bytes(self) -> Seq<u8>;

    /// Whether `bytes`, the arguments after the instruction byte, are long
    /// enough to be read as this message.
    spec fn from_bytes_requires(bytes: Seq<u8>) -> bool;

    /// The message that the arguments `bytes` denote.
    spec fn spec_from_bytes(bytes: Seq<u8>) -> Self;

    /// Writes the message, instruction byte first.
    fn into_bytes(self) -> (r: Vec<u8>)
        ensures
            r@ == self.spec_into_bytes(),
    ;

    /// Reads the message from its arguments (the bytes after the
    /// instruction byte); bytes past the message's length are ignored.
    fn from_bytes(bytes: &[u8]) -> (r: Self)
        requires
            Self::from_bytes_requires(bytes@),
        ensures
            r == Self::spec_from_bytes(bytes@),
    ;
}

/// What the server tells a client about itself once they are connected.
#[derive(Debug, Copy, Clone, PartialEq, Eq, Structural)]
pub struct ServerInformation {
    pub width: u32,
    pub height: u32,
}

impl IntoBytes for ServerInformation {
    open spec fn spec_into_bytes(self) -> Seq<u8> {
        seq![SERVER_INFORMATION] + be_bytes(self.width) + be_bytes(self.height)
    }

    open spec fn from_bytes_requires(bytes: Seq<u8>) -> bool {
        bytes.len() >= 8
    }

    open spec fn spec_from_bytes(bytes: Seq<u8>) -> Self {
        ServerInformation { width: be_u32_at(bytes, 0), height: be_u32_at(bytes, 4) }
    }

    fn into_bytes(self) -> (r: Vec<u8>) {
        let mut buf: Vec<u8> = Vec::new();
        buf.push(SERVER_INFORMATION);
        push_u32_be(&mut buf, self.width);
        push_u32_be(&mut buf, self.height);
        assert(buf@ =~= self.spec_into_bytes());
        buf
    }

    fn from_bytes(bytes: &[u8]) -> (r: Self) {
        Self { width: read_u32_be(bytes, 0), height: read_u32_be(bytes, 4) }
    }
}

/// A message as read off the wire: the payload of one frame, sorted by its
/// instruction byte. An instruction that this protocol does not know keeps
/// the whole message, instruction byte included.
pub enum FromBytes {
    ServerInformation(ServerInformation),
    MouseMove(MouseMove),
    MouseClick(MouseClick),
    UnknownInstruction(Vec<u8>),
}

/// The mathematical value of a [`FromBytes`].
pub ghost enum ParsedMessage {
    ServerInformation(ServerInformation),
    MouseMove(MouseMove),
    MouseClick(MouseClick),
    UnknownInstruction(Seq<u8>),
}

impl View for FromBytes {
    type V = ParsedMessage;

    open spec fn view(&self) -> ParsedMessage {
        match self {
            FromBytes::ServerInformation(m) => ParsedMessage::ServerInformation(*m),
            FromBytes::MouseMove(m) => ParsedMessage::MouseMove(*m),
            FromBytes::MouseClick(m) => ParsedMessage::MouseClick(*m),
            FromBytes::UnknownInstruction(b) => ParsedMessage::UnknownInstruction(b@),
        }
    }
}

/// Whether `bytes` hold an instruction byte and, for a known instruction,
/// all the arguments that it takes.
pub open spec fn parse_requires(bytes: Seq<u8>) -> bool {
    &&& bytes.len() >= 1
    &&& bytes[0] == SERVER_INFORMATION ==> ServerInformation::from_bytes_requires(bytes.drop_first())
    &&& bytes[0] == MOUSE_MOVE ==> MouseMove::from_bytes_requires(bytes.drop_first())
    &&& bytes[0] == MOUSE_CLICK ==> MouseClick::from_bytes_requires(bytes.drop_first())
}

/// The message that `bytes` denote.
pub open spec fn parse_spec(bytes: Seq<u8>) -> ParsedMessage {
    let args = bytes.drop_first();
    if bytes[0] == SERVER_INFORMATION {
        ParsedMessage::ServerInformation(ServerInformation::spec_from_bytes(args))
    } else if bytes[0] == MOUSE_MOVE {
        ParsedMessage::MouseMove(MouseMove::spec_from_bytes(args))
    } else if bytes[0] == MOUSE_CLICK {
        ParsedMessage::MouseClick(MouseClick::spec_from_bytes(args))
    } else {
        ParsedMessage::UnknownInstruction(bytes)
    }
}

impl FromBytes {
    /// Sorts a message by its instruction byte and reads its arguments.
    pub fn parse(bytes: &[u8]) -> (r: Self)
        requires
            parse_requires(bytes@),
        ensures
            r@ == parse_spec(bytes@),
    {
        let instruction = bytes[0];
        if instruction == SERVER_INFORMATION {
            let args = &bytes[1..bytes.len()];
            assert(args@ == bytes@.drop_first());
            Self::ServerInformation(ServerInformation::from_bytes(args))
        } else if instruction == MOUSE_MOVE {
            let args = &bytes[1..bytes.len()];
            assert(args@ == bytes@.drop_first());
            Self::MouseMove(MouseMove::from_bytes(args))
        } else if instruction == MOUSE_CLICK {
            let args = &bytes[1..bytes.len()];
            assert(args@ == bytes@.drop_first());
            Self::MouseClick(MouseClick::from_bytes(args))
        } else {
            Self::UnknownInstruction(vstd::slice::slice_to_vec(bytes))
        }
    }
}

/// Reading back the arguments of a written server information message gives
/// the same information.
pub proof fn lemma_server_information_roundtrip(info: ServerInformation)
    ensures
        ServerInformation::from_bytes_requires(info.spec_into_bytes().drop_first()),
        ServerInformation::spec_from_bytes(info.spec_into_bytes().drop_first()) == info,
{
    let args = info.spec_into_bytes().drop_first();
    assert(args =~= be_bytes(info.width) + be_bytes(info.height));
    lemma_be_bytes_value(info.width);
    lemma_be_bytes_value(info.height);
    assert(args.subrange(4, 8) =~= be_bytes(info.height));
}

/// Reading back the arguments of a written move message gives the same
/// position.
pub proof fn lemma_mouse_move_roundtrip(m: MouseMove)
    ensures
        MouseMove::from_bytes_requires(m.spec_into_bytes().drop_first()),
        MouseMove::spec_from_bytes(m.spec_into_bytes().drop_first()) == m,
{
    let args = m.spec_into_bytes().drop_first();
    assert(args =~= be_bytes(m.x) + be_bytes(m.y));
    lemma_be_bytes_value(m.x);
    lemma_be_bytes_value(m.y);
    assert(args.subrange(4, 8) =~= be_bytes(m.y));
}

/// Reading back the argument of a written click message gives the same
/// button and state.
pub proof fn lemma_mouse_click_roundtrip(c: MouseClick)
    ensures
        MouseClick::from_bytes_requires(c.spec_into_bytes().drop_first()),
        MouseClick::spec_from_bytes(c.spec_into_bytes().drop_first()) == c,
{
}

/// Parsing a written message gives back the message it was written from,
/// whatever its kind.
pub proof fn lemma_parse_written_message(
    info: ServerInformation,
    m: MouseMove,
    c: MouseClick,
)
    ensures
        parse_requires(info.spec_into_bytes()),
        parse_spec(info.spec_into_bytes()) == ParsedMessage::ServerInformation(info),
        parse_requires(m.spec_into_bytes()),
        parse_spec(m.spec_into_bytes()) == ParsedMessage::MouseMove(m),
        parse_requires(c.spec_into_bytes()),
        parse_spec(c.spec_into_bytes()) == ParsedMessage::MouseClick(c),
{
    lemma_server_information_roundtrip(info);
    lemma_mouse_move_roundtrip(m);
    lemma_mouse_click_roundtrip(c);
}

/// The encoding is canonical: arguments read as server information and
/// written again give the same instruction and the first eight argument
/// bytes.
pub proof fn lemma_server_information_canonical(bytes: Seq<u8>)
    requires
        ServerInformation::from_bytes_requires(bytes),
    ensures
        ServerInformation::spec_from_bytes(bytes).spec_into_bytes() == seq![SERVER_INFORMATION]
            + bytes.subrange(0, 8),
{
    lemma_be_value_bytes(bytes[0], bytes[1], bytes[2], bytes[3]);
    lemma_be_value_bytes(bytes[4], bytes[5], bytes[6], bytes[7]);
    assert(ServerInformation::spec_from_bytes(bytes).spec_into_bytes() =~= seq![SERVER_INFORMATION]
        + bytes.subrange(0, 8));
}

/// The encoding is canonical: arguments read as a move and written again
/// give the same instruction and the first eight argument bytes.
pub proof fn lemma_mouse_move_canonical(bytes: Seq<u8>)
    requires
        MouseMove::from_bytes_requires(bytes),
    ensures
        MouseMove::spec_from_bytes(bytes).spec_into_bytes() == seq![MOUSE_MOVE] + bytes.subrange(
            0,
            8,
        ),
{
    lemma_be_value_bytes(bytes[0], bytes[1], bytes[2], bytes[3]);
    lemma_be_value_bytes(bytes[4], bytes[5], bytes[6], bytes[7]);
    assert(MouseMove::spec_from_bytes(bytes).spec_into_bytes() =~= seq![MOUSE_MOVE]
        + bytes.subrange(0, 8));
}

/// An argument byte read as a click and written again keeps its two low
/// bits and loses the others.
pub proof fn lemma_mouse_click_canonical(bytes: Seq<u8>)
    requires
        MouseClick::from_bytes_requires(bytes),
    ensures
        MouseClick::spec_from_bytes(bytes).spec_into_bytes() == seq![MOUSE_CLICK, bytes[0] % 4],
{
    let b = bytes[0];
    assert(((b / 2) % 2) * 2 + b % 2 == b % 4) by (nonlinear_arith)
        requires
            0 <= b < 256,
    ;
    assert(MouseClick::spec_from_bytes(bytes).spec_into_bytes() =~= seq![MOUSE_CLICK, b % 4]);
}

/// What a peer reads off the stream is what the other wrote: for each kind
/// of message, the reader of the frame decodes the message's length, and the
/// bytes after the length prefix parse back to the message.
pub proof fn lemma_framed_message_roundtrip(
    info: ServerInformation,
    m: MouseMove,
    c: MouseClick,
)
    ensures
        ({
            let frame = frame_spec(info.spec_into_bytes());
            &&& prefix_run(prefix_start(), reads_of(frame)) == PrefixOutcome::Complete(9)
            &&& parse_spec(frame.subrange(4, 13)) == ParsedMessage::ServerInformation(info)
        }),
        ({
            let frame = frame_spec(m.spec_into_bytes());
            &&& prefix_run(prefix_start(), reads_of(frame)) == PrefixOutcome::Complete(9)
            &&& parse_spec(frame.subrange(4, 13)) == ParsedMessage::MouseMove(m)
        }),
        ({
            let frame = frame_spec(c.spec_into_bytes());
            &&& prefix_run(prefix_start(), reads_of(frame)) == PrefixOutcome::Complete(2)
            &&& parse_spec(frame.subrange(4, 6)) == ParsedMessage::MouseClick(c)
        }),
{
    lemma_parse_written_message(info, m, c);
    lemma_frame_roundtrip(info.spec_into_bytes());
    lemma_frame_roundtrip(m.spec_into_bytes());
    lemma_frame_roundtrip(c.spec_into_bytes());
}

/// The server information message on the wire: nine bytes, instruction
/// 0x00, then the width and then the height, each most significant byte
/// first; reading arguments takes the width from the first four of them and
/// the height from the next four, in the same order.
pub proof fn lemma_server_information_layout(info: ServerInformation, args: Seq<u8>)
    ensures
        ({
            let b = info.spec_into_bytes();
            &&& b.len() == 9
            &&& b[0] == 0x00
            &&& b[1] * 0x100_0000 + b[2] * 0x1_0000 + b[3] * 0x100 + b[4] == info.width
            &&& b[5] * 0x100_0000 + b[6] * 0x1_0000 + b[7] * 0x100 + b[8] == info.height
        }),
        args.len() >= 8 ==> ServerInformation::spec_from_bytes(args).width == args[0] * 0x100_0000
            + args[1] * 0x1_0000 + args[2] * 0x100 + args[3],
        args.len() >= 8 ==> ServerInformation::spec_from_bytes(args).height == args[4]
            * 0x100_0000 + args[5] * 0x1_0000 + args[6] * 0x100 + args[7],
{
    lemma_be_bytes_value(info.width);
    lemma_be_bytes_value(info.height);
    let b = info.spec_into_bytes();
    assert(b.subrange(1, 5) =~= be_bytes(info.width));
    assert(b.subrange(5, 9) =~= be_bytes(info.height));
    if args.len() >= 8 {
        lemma_be_value_bytes(args[0], args[1], args[2], args[3]);
        lemma_be_value_bytes(args[4], args[5], args[6], args[7]);
    }
}

/// The move message on the wire: nine bytes, instruction 0x10, then x and
/// then y, each most significant byte first; reading arguments takes x from
/// the first four of them and y from the next four, in the same order.
pub proof fn lemma_mouse_move_layout(m: MouseMove, args: Seq<u8>)
    ensures
        ({
            let b = m.spec_into_bytes();
            &&& b.len() == 9
            &&& b[0] == 0x10
            &&& b[1] * 0x100_0000 + b[2] * 0x1_0000 + b[3] * 0x100 + b[4] == m.x
            &&& b[5] * 0x100_0000 + b[6] * 0x1_0000 + b[7] * 0x100 + b[8] == m.y
        }),
        args.len() >= 8 ==> MouseMove::spec_from_bytes(args).x == args[0] * 0x100_0000 + args[1]
            * 0x1_0000 + args[2] * 0x100 + args[3],
        args.len() >= 8 ==> MouseMove::spec_from_bytes(args).y == args[4] * 0x100_0000 + args[5]
            * 0x1_0000 + args[6] * 0x100 + args[7],
{
    lemma_be_bytes_value(m.x);
    lemma_be_bytes_value(m.y);
    let b = m.spec_into_bytes();
    assert(b.subrange(1, 5) =~= be_bytes(m.x));
    assert(b.subrange(5, 9) =~= be_bytes(m.y));
    if args.len() >= 8 {
        lemma_be_value_bytes(args[0], args[1], args[2], args[3]);
        lemma_be_value_bytes(args[4], args[5], args[6], args[7]);
    }
}

/// The click message on the wire: two bytes, instruction 0x11, then an
/// argument whose bit 1 is set for the right button and bit 0 for a press;
/// reading an argument byte takes the button from bit 1 and the state from
/// bit 0, whatever its other bits.
pub proof fn lemma_mouse_click_layout(c: MouseClick, args: Seq<u8>)
    ensures
        ({
            let b = c.spec_into_bytes();
            &&& b.len() == 2
            &&& b[0] == 0x11
            &&& b[1] == (if c.button == MouseButton::Right { 2int } else { 0int }) + (if c.state
                == MouseState::Pressed {
                1int
            } else {
                0int
            })
        }),
        args.len() >= 1 ==> (MouseClick::spec_from_bytes(args).button == MouseButton::Right <==> (
        args[0] / 2) % 2 == 1),
        args.len() >= 1 ==> (MouseClick::spec_from_bytes(args).state == MouseState::Pressed <==> args[0]
            % 2 == 1),
{
}

} // verus!

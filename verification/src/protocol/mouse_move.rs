//! The move message: the absolute position the pointer is to go to.

use vstd::prelude::*;

use super::{IntoBytes, MOUSE_MOVE};
use crate::bytes::{be_bytes, be_u32_at, push_u32_be, read_u32_be};

verus! {

/// An absolute pointer position on the server's screen.
#[derive(Debug, Copy, Clone, PartialEq, Eq, Structural)]
pub struct MouseMove {
    pub x: u32,
    pub y: u32,
}

impl IntoBytes for MouseMove {
    open spec fn spec_into_bytes(self) -> Seq<u8> {
        seq![MOUSE_MOVE] + be_bytes(self.x) + be_bytes(self.y)
    }

    open spec fn from_bytes_requires(bytes: Seq<u8>) -> bool {
        bytes.len() >= 8
    }

    open spec fn spec_from_bytes(bytes: Seq<u8>) -> Self {
        MouseMove { x: be_u32_at(bytes, 0), y: be_u32_at(bytes, 4) }
    }

    fn into_bytes(self) -> (r: Vec<u8>) {
        let mut buf: Vec<u8> = Vec::new();
        buf.push(MOUSE_MOVE);
        push_u32_be(&mut buf, self.x);
        push_u32_be(&mut buf, self.y);
        assert(buf@ =~= self.spec_into_bytes());
        buf
    }

    fn from_bytes(bytes: &[u8]) -> (r: Self) {
        Self { x: read_u32_be(bytes, 0), y: read_u32_be(bytes, 4) }
    }
}

} // verus!

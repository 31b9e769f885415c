//! Wire formats and decision logic of a remote mouse-sharing tool: the
//! instruction protocol spoken between client and server, the framing of
//! messages on a peer-to-peer stream, the key store that pairs peers, and
//! the state machine behind the server's window.

pub mod bytes;
pub mod framing;
pub mod key_store;
pub mod line;
pub mod protocol;
pub mod window;

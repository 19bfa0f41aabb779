//! The first-stage protocol packet a client sends: target server address and
//! port, protocol version, and the requested next state. The decoded form is
//! kept beside the raw received bytes, so the passthrough path can forward
//! fields the parser does not fully model.

use vstd::prelude::*;

verus! {

/// The protocol state the client asks to enter after the handshake.
#[derive(Clone, Copy, Debug, PartialEq, Eq, Structural)]
pub enum NextState {
    Status,
    Login,
}

/// A decoded handshake. The server address is held as the UTF-8 bytes of its
/// text field, the form the wire carries and the forwarding strategies
/// rewrite.
pub struct Handshake {
    pub protocol_version: i32,
    pub server_address: Vec<u8>,
    pub server_port: u16,
    pub next_state: NextState,
}

/// The mathematical shape of a handshake.
pub struct HandshakeView {
    pub protocol_version: int,
    pub server_address: Seq<u8>,
    pub server_port: int,
    pub next_state: NextState,
}

impl View for Handshake {
    type V = HandshakeView;

    open spec fn view(&self) -> HandshakeView {
        HandshakeView {
            protocol_version: self.protocol_version as int,
            server_address: self.server_address@,
            server_port: self.server_port as int,
            next_state: self.next_state,
        }
    }
}

/// A handshake as received: the raw bytes of the original packet beside the
/// parsed structure.
pub struct DecodedHandshake {
    pub raw: Vec<u8>,
    pub data: Handshake,
}

/// The mathematical shape of a received handshake.
pub struct DecodedHandshakeView {
    pub raw: Seq<u8>,
    pub data: HandshakeView,
}

impl View for DecodedHandshake {
    type V = DecodedHandshakeView;

    open spec fn view(&self) -> DecodedHandshakeView {
        DecodedHandshakeView { raw: self.raw@, data: self.data@ }
    }
}

impl DecodedHandshake {
    /// Gives up the raw form and keeps the parsed handshake.
    pub fn into_data(self) -> (h: Handshake)
        ensures
            h@ == self@.data,
    {
        self.data
    }
}

} // verus!

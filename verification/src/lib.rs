//! Connection priming for a game-protocol reverse proxy.
//!
//! After the proxy has opened an outbound connection to a backend, the
//! configured primer decides the first bytes to send on it, so the backend
//! learns the real client address and identity even though its TCP peer is
//! the proxy. Three strategies exist: passthrough (forward the raw handshake
//! verbatim), BungeeCord-style forwarding (extend the address field with the
//! peer IP and a derived identifier), and RealIP-style forwarding (insert a
//! `///`-marked peer address into the address field). Both active strategies
//! reject handshakes that already carry their own marker, since such input is
//! proof of a spoofing attempt.

pub mod bytes;
pub mod forwarding;
pub mod handshake;
pub mod peer;
pub mod uuid;

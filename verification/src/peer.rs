//! The client's observed address: the textual IP and the source port,
//! captured by the connection-acceptance layer and immutable for the life of
//! the connection.

use vstd::prelude::*;
use crate::bytes::{contains_byte, dec_rep, push_all, u16_to_dec};

verus! {

/// The peer's IP and source port. The IP is held in its textual form, as the
/// acceptance layer rendered it (dotted decimal, or colon-grouped hex for an
/// IPv6 peer).
pub struct PeerAddr {
    ip: Vec<u8>,
    port: u16,
}

/// The mathematical shape of a peer address.
pub struct PeerAddrView {
    pub ip: Seq<u8>,
    pub port: u16,
}

impl View for PeerAddr {
    type V = PeerAddrView;

    closed spec fn view(&self) -> PeerAddrView {
        PeerAddrView { ip: self.ip@, port: self.port }
    }
}

/// The textual `ip:port` form of a peer address: an IPv6 IP (recognized by
/// the colons it contains) is bracketed, as socket addresses render it.
pub open spec fn sock_text(ip: Seq<u8>, port: u16) -> Seq<u8> {
    if ip.contains(58u8) {
        seq![91u8] + ip + seq![93u8, 58u8] + dec_rep(port as nat)
    } else {
        ip + seq![58u8] + dec_rep(port as nat)
    }
}

impl PeerAddr {
    /// Captures a peer address from its textual IP and its port.
    pub fn new(ip: Vec<u8>, port: u16) -> (p: PeerAddr)
        ensures
            p@.ip == ip@,
            p@.port == port,
    {
        PeerAddr { ip, port }
    }

    /// The textual IP alone.
    pub fn ip_text(&self) -> (r: Vec<u8>)
        ensures
            r@ == self@.ip,
    {
        let mut r: Vec<u8> = Vec::new();
        push_all(&mut r, &self.ip);
        proof {
            assert(r@ =~= self@.ip);
        }
        r
    }

    /// The textual `ip:port` form.
    pub fn socket_text(&self) -> (r: Vec<u8>)
        ensures
            r@ == sock_text(self@.ip, self@.port),
    {
        let mut r: Vec<u8> = Vec::new();
        let port_text = u16_to_dec(self.port);
        if contains_byte(&self.ip, 58) {
            r.push(91);
            push_all(&mut r, &self.ip);
            r.push(93);
            r.push(58);
            push_all(&mut r, &port_text);
        } else {
            push_all(&mut r, &self.ip);
            r.push(58);
            push_all(&mut r, &port_text);
        }
        proof {
            assert(r@ =~= sock_text(self@.ip, self@.port));
        }
        r
    }
}

} // verus!

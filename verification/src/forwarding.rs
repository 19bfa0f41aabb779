//! The connection primers: what is sent first on a fresh outbound backend
//! connection so the backend learns the real client address and identity.
//!
//! Each primer either produces one well-formed packet to transmit, or fails
//! with [`PrimeError::Invalid`] and produces nothing — there is no partial
//! state. The active strategies reject a handshake whose address field
//! already carries their own reserved marker, since such input is proof of a
//! spoofing or hijack attempt.

use vstd::prelude::*;
use crate::bytes::{contains_byte, find_byte, first_index, lemma_first_index, lemma_first_index_unique, push_all, splice};
use crate::handshake::{DecodedHandshake, DecodedHandshakeView, Handshake, HandshakeView};
use crate::peer::{sock_text, PeerAddr, PeerAddrView};
use crate::uuid::{offline_uuid_seq, uuid_str_bytes, PlayerUuid};

verus! {

/// The configured forwarding convention, chosen once per proxy instance or
/// route: `Passthrough` forwards the raw handshake untouched, the other two
/// rewrite its address field in their own wire format.
#[derive(Clone, Copy, Debug, PartialEq, Eq, Structural)]
pub enum ForwardStrategy {
    Passthrough,
    BungeeCord,
    RealIP,
}

impl Default for ForwardStrategy {
    /// Without configuration, nothing is forwarded.
    fn default() -> (s: Self)
        ensures
            s == ForwardStrategy::Passthrough,
    {
        ForwardStrategy::Passthrough
    }
}

/// Why priming refused to produce a packet.
#[derive(Clone, Copy, Debug, PartialEq, Eq, Structural)]
pub enum PrimeError {
    /// The address field already contains a byte reserved for the active
    /// forwarding mechanism: a spoof or hijack attempt. The connection must
    /// be aborted; nothing may be sent to the backend.
    Invalid,
}

/// The packet a primer asks the caller to transmit: either the original raw
/// bytes verbatim, or a rewritten handshake to serialize.
pub enum PrimedPacket {
    Raw(Vec<u8>),
    Rewritten(Handshake),
}

/// The mathematical shape of a primed packet.
pub enum PrimedModel {
    Raw(Seq<u8>),
    Rewritten(HandshakeView),
}

impl View for PrimedPacket {
    type V = PrimedModel;

    open spec fn view(&self) -> PrimedModel {
        match self {
            PrimedPacket::Raw(raw) => PrimedModel::Raw(raw@),
            PrimedPacket::Rewritten(h) => PrimedModel::Rewritten(h@),
        }
    }
}

/// The shape of a priming outcome: the packet's model on success, the error
/// untouched on failure.
pub open spec fn prime_result_view(r: Result<PrimedPacket, PrimeError>) -> Result<
    PrimedModel,
    PrimeError,
> {
    match r {
        Ok(p) => Ok(p@),
        Err(e) => Err(e),
    }
}

/// One polymorphic operation: given the original handshake the client sent,
/// produce the exact packet the backend must receive first, or refuse. The
/// handshake is consumed — it is mutated or discarded, never reused by the
/// caller.
pub trait ConnectionPrimer: Sized {
    /// The packet this primer produces, or the error, as a function of the
    /// original handshake.
    spec fn spec_prime(self, og: DecodedHandshakeView) -> Result<PrimedModel, PrimeError>;

    /// Produces the packet to transmit to the backend. On `Err`, nothing is
    /// to be transmitted and the connection must be closed.
    fn prime_connection(self, og_handshake: DecodedHandshake) -> (r: Result<
        PrimedPacket,
        PrimeError,
    >)
        ensures
            prime_result_view(r) == self.spec_prime(og_handshake@),
    ;
}

/// The BungeeCord wire format: the original address, the peer IP and the
/// identifier text, separated by the reserved delimiter byte.
pub open spec fn bungee_primed_address(a: Seq<u8>, ip: Seq<u8>, uuid_text: Seq<u8>) -> Seq<u8> {
    a + seq![0u8] + ip + seq![0u8] + uuid_text
}

/// What BungeeCord priming yields: `Invalid` as soon as the address already
/// contains the delimiter byte, else the same handshake with the extended
/// address field.
pub open spec fn bungee_prime_model(
    ip: Seq<u8>,
    uuid: Seq<u8>,
    og: DecodedHandshakeView,
) -> Result<PrimedModel, PrimeError> {
    if og.data.server_address.contains(0u8) {
        Err(PrimeError::Invalid)
    } else {
        Ok(
            PrimedModel::Rewritten(
                HandshakeView {
                    server_address: bungee_primed_address(
                        og.data.server_address,
                        ip,
                        uuid_str_bytes(uuid),
                    ),
                    ..og.data
                },
            ),
        )
    }
}

/// BungeeCord-style forwarding: extends the address field with the peer IP
/// and the identifier derived from the player's name.
pub struct BungeeCord {
    player_addr: PeerAddr,
    player_uuid: PlayerUuid,
}

/// The mathematical shape of a BungeeCord primer: the peer address and the
/// derived identifier bytes.
pub struct BungeeCordView {
    pub player_addr: PeerAddrView,
    pub player_uuid: Seq<u8>,
}

impl View for BungeeCord {
    type V = BungeeCordView;

    closed spec fn view(&self) -> BungeeCordView {
        BungeeCordView { player_addr: self.player_addr@, player_uuid: self.player_uuid@ }
    }
}

impl BungeeCord {
    /// Builds the primer, deriving the player's offline identifier once, up
    /// front. It is always sent: a backend in verified mode ignores it, so no
    /// branch on backend trust is needed.
    pub fn from_username(player_addr: PeerAddr, player_name: &str) -> (s: Self)
        ensures
            s@.player_addr == player_addr@,
            s@.player_uuid == offline_uuid_seq(player_name@),
    {
        BungeeCord { player_addr, player_uuid: PlayerUuid::offline_player(player_name) }
    }
}

impl ConnectionPrimer for BungeeCord {
    open spec fn spec_prime(self, og: DecodedHandshakeView) -> Result<PrimedModel, PrimeError> {
        bungee_prime_model(self@.player_addr.ip, self@.player_uuid, og)
    }

    fn prime_connection(self, og_handshake: DecodedHandshake) -> (r: Result<
        PrimedPacket,
        PrimeError,
    >) {
        let handshake = og_handshake.into_data();
        let Handshake { protocol_version, server_address, server_port, next_state } = handshake;

        // A delimiter byte in the client-supplied address means someone is
        // trying to hijack the connection or connect through another proxy.
        if contains_byte(&server_address, 0) {
            return Err(PrimeError::Invalid);
        }

        let mut address = server_address;
        let ip = self.player_addr.ip_text();
        let uuid_text = self.player_uuid.to_text();
        address.push(0);
        push_all(&mut address, &ip);
        address.push(0);
        push_all(&mut address, &uuid_text);

        let primed = Handshake { protocol_version, server_address: address, server_port, next_state };
        proof {
            assert(primed@.server_address =~= bungee_primed_address(
                og_handshake@.data.server_address,
                self@.player_addr.ip,
                uuid_str_bytes(self@.player_uuid),
            ));
        }
        Ok(PrimedPacket::Rewritten(primed))
    }
}

/// Where RealIP inserts its marker: immediately before the first delimiter
/// byte when one is present (the suffix some mod-loader clients append stays
/// a suffix), else at the end of the address.
pub open spec fn realip_insert_at(a: Seq<u8>) -> int {
    first_index(a, 0u8)
}

/// The RealIP wire format: the literal `///` and the textual `ip:port` of
/// the peer, spliced into the address at the insertion point.
pub open spec fn realip_primed_address(a: Seq<u8>, sock: Seq<u8>) -> Seq<u8> {
    a.subrange(0, realip_insert_at(a)) + seq![47u8, 47u8, 47u8] + sock + a.subrange(
        realip_insert_at(a),
        a.len() as int,
    )
}

/// What RealIP priming yields: `Invalid` as soon as the address already
/// contains a `/` (that character is exclusive to this mechanism's own
/// marker), else the same handshake with the marker spliced in.
pub open spec fn realip_prime_model(peer: PeerAddrView, og: DecodedHandshakeView) -> Result<
    PrimedModel,
    PrimeError,
> {
    if og.data.server_address.contains(47u8) {
        Err(PrimeError::Invalid)
    } else {
        Ok(
            PrimedModel::Rewritten(
                HandshakeView {
                    server_address: realip_primed_address(
                        og.data.server_address,
                        sock_text(peer.ip, peer.port),
                    ),
                    ..og.data
                },
            ),
        )
    }
}

/// RealIP-style forwarding: splices the peer's `ip:port`, behind a `///`
/// marker, into the address field.
pub struct RealIP {
    player_addr: PeerAddr,
}

/// The mathematical shape of a RealIP primer.
pub struct RealIPView {
    pub player_addr: PeerAddrView,
}

impl View for RealIP {
    type V = RealIPView;

    closed spec fn view(&self) -> RealIPView {
        RealIPView { player_addr: self.player_addr@ }
    }
}

impl RealIP {
    /// Builds the primer from the peer's address.
    pub fn new(player_addr: PeerAddr) -> (s: Self)
        ensures
            s@.player_addr == player_addr@,
    {
        RealIP { player_addr }
    }
}

impl ConnectionPrimer for RealIP {
    open spec fn spec_prime(self, og: DecodedHandshakeView) -> Result<PrimedModel, PrimeError> {
        realip_prime_model(self@.player_addr, og)
    }

    fn prime_connection(self, og_handshake: DecodedHandshake) -> (r: Result<
        PrimedPacket,
        PrimeError,
    >) {
        let handshake = og_handshake.into_data();
        let Handshake { protocol_version, server_address, server_port, next_state } = handshake;

        // A `/` in the client-supplied address means the client is trying to
        // forge this mechanism's own marker.
        if contains_byte(&server_address, 47) {
            return Err(PrimeError::Invalid);
        }

        let insert_index = find_byte(&server_address, 0);
        proof {
            lemma_first_index(server_address@, 0u8);
        }

        let mut realip_data: Vec<u8> = Vec::new();
        realip_data.push(47);
        realip_data.push(47);
        realip_data.push(47);
        let sock = self.player_addr.socket_text();
        push_all(&mut realip_data, &sock);

        let address = splice(&server_address, insert_index, &realip_data);
        let primed = Handshake { protocol_version, server_address: address, server_port, next_state };
        proof {
            assert(primed@.server_address =~= realip_primed_address(
                og_handshake@.data.server_address,
                sock_text(self@.player_addr.ip, self@.player_addr.port),
            ));
        }
        Ok(PrimedPacket::Rewritten(primed))
    }
}

/// Passthrough: no forwarding. The original received byte sequence is
/// re-emitted verbatim — not a re-serialization — so protocol extension
/// fields unknown to the parser survive unchanged.
pub struct Passthrough;

impl ConnectionPrimer for Passthrough {
    open spec fn spec_prime(self, og: DecodedHandshakeView) -> Result<PrimedModel, PrimeError> {
        Ok(PrimedModel::Raw(og.raw))
    }

    fn prime_connection(self, og_handshake: DecodedHandshake) -> (r: Result<
        PrimedPacket,
        PrimeError,
    >) {
        Ok(PrimedPacket::Raw(og_handshake.raw))
    }
}

/// A primer of any of the three strategies, as selection hands it out.
pub enum Primer {
    Passthrough(Passthrough),
    BungeeCord(BungeeCord),
    RealIP(RealIP),
}

impl ConnectionPrimer for Primer {
    open spec fn spec_prime(self, og: DecodedHandshakeView) -> Result<PrimedModel, PrimeError> {
        match self {
            Primer::Passthrough(p) => p.spec_prime(og),
            Primer::BungeeCord(p) => p.spec_prime(og),
            Primer::RealIP(p) => p.spec_prime(og),
        }
    }

    fn prime_connection(self, og_handshake: DecodedHandshake) -> (r: Result<
        PrimedPacket,
        PrimeError,
    >) {
        match self {
            Primer::Passthrough(p) => p.prime_connection(og_handshake),
            Primer::BungeeCord(p) => p.prime_connection(og_handshake),
            Primer::RealIP(p) => p.prime_connection(og_handshake),
        }
    }
}

/// The pure mapping from the configured strategy to a constructed primer.
/// Selection happens once per accepted connection and holds no state.
pub fn select_primer(strategy: ForwardStrategy, player_addr: PeerAddr, player_name: &str) -> (p:
    Primer)
    ensures
        strategy == ForwardStrategy::Passthrough ==> p matches Primer::Passthrough(_),
        strategy == ForwardStrategy::BungeeCord ==> (p matches Primer::BungeeCord(b)
            && b@.player_addr == player_addr@
            && b@.player_uuid == offline_uuid_seq(player_name@)),
        strategy == ForwardStrategy::RealIP ==> (p matches Primer::RealIP(r)
            && r@.player_addr == player_addr@),
{
    match strategy {
        ForwardStrategy::Passthrough => Primer::Passthrough(Passthrough),
        ForwardStrategy::BungeeCord => Primer::BungeeCord(
            BungeeCord::from_username(player_addr, player_name),
        ),
        ForwardStrategy::RealIP => Primer::RealIP(RealIP::new(player_addr)),
    }
}

/// Law: on an address free of the delimiter byte, BungeeCord priming yields
/// exactly the original address, the delimiter, the peer IP, the delimiter
/// and the identifier text — and every other handshake field unchanged.
pub proof fn lemma_bungee_clean_address(ip: Seq<u8>, uuid: Seq<u8>, og: DecodedHandshakeView)
    requires
        !og.data.server_address.contains(0u8),
    ensures
        bungee_prime_model(ip, uuid, og) matches Ok(PrimedModel::Rewritten(h))
            && h.server_address == og.data.server_address + seq![0u8] + ip + seq![0u8]
            + uuid_str_bytes(uuid)
            && h.protocol_version == og.data.protocol_version
            && h.server_port == og.data.server_port
            && h.next_state == og.data.next_state,
{
}

/// Law: on an address that already contains the delimiter byte, BungeeCord
/// priming fails with `Invalid`, and no packet exists to be written.
pub proof fn lemma_bungee_rejects_delimiter(ip: Seq<u8>, uuid: Seq<u8>, og: DecodedHandshakeView)
    requires
        og.data.server_address.contains(0u8),
    ensures
        bungee_prime_model(ip, uuid, og) == Err::<PrimedModel, PrimeError>(PrimeError::Invalid),
{
}

/// Law: on an address free of `/` and of the delimiter byte, RealIP priming
/// appends `///` and the textual `ip:port` of the peer at the end of the
/// address, and leaves every other handshake field unchanged.
pub proof fn lemma_realip_clean_address(peer: PeerAddrView, og: DecodedHandshakeView)
    requires
        !og.data.server_address.contains(47u8),
        !og.data.server_address.contains(0u8),
    ensures
        realip_prime_model(peer, og) matches Ok(PrimedModel::Rewritten(h))
            && h.server_address == og.data.server_address + seq![47u8, 47u8, 47u8] + sock_text(
            peer.ip,
            peer.port,
        )
            && h.protocol_version == og.data.protocol_version
            && h.server_port == og.data.server_port
            && h.next_state == og.data.next_state,
{
    let a = og.data.server_address;
    lemma_first_index(a, 0u8);
    if first_index(a, 0u8) < a.len() {
        assert(a.contains(0u8));
    }
    assert(realip_primed_address(a, sock_text(peer.ip, peer.port)) =~= a + seq![47u8, 47u8, 47u8]
        + sock_text(peer.ip, peer.port));
}

/// Law: on an address of the form `a1 + delimiter + a2` — a mod-loader
/// suffix marker — with `a1` free of the delimiter and the whole free of
/// `/`, RealIP priming splices its marker strictly before the delimiter:
/// the suffix survives as a suffix.
pub proof fn lemma_realip_preserves_suffix(
    peer: PeerAddrView,
    og: DecodedHandshakeView,
    a1: Seq<u8>,
    a2: Seq<u8>,
)
    requires
        og.data.server_address == a1 + seq![0u8] + a2,
        !a1.contains(0u8),
        !og.data.server_address.contains(47u8),
    ensures
        realip_prime_model(peer, og) matches Ok(PrimedModel::Rewritten(h))
            && h.server_address == a1 + seq![47u8, 47u8, 47u8] + sock_text(peer.ip, peer.port)
            + seq![0u8] + a2,
{
    let a = og.data.server_address;
    let sock = sock_text(peer.ip, peer.port);
    assert forall|j: int| 0 <= j < a1.len() implies a[j] != 0u8 by {
        assert(a[j] == a1[j]);
        if a1[j] == 0u8 {
            assert(a1.contains(0u8));
        }
    }
    assert(a[a1.len() as int] == 0u8);
    lemma_first_index_unique(a, 0u8, a1.len() as int);
    assert(a.subrange(0, a1.len() as int) =~= a1);
    assert(a.subrange(a1.len() as int, a.len() as int) =~= seq![0u8] + a2);
    assert(realip_primed_address(a, sock) =~= a1 + seq![47u8, 47u8, 47u8] + sock + seq![0u8] + a2);
}

/// Law: on an address containing `/`, RealIP priming fails with `Invalid`,
/// and no packet exists to be written.
pub proof fn lemma_realip_rejects_slash(peer: PeerAddrView, og: DecodedHandshakeView)
    requires
        og.data.server_address.contains(47u8),
    ensures
        realip_prime_model(peer, og) == Err::<PrimedModel, PrimeError>(PrimeError::Invalid),
{
}

} // verus!

use hopper_forwarding::forwarding::{
    BungeeCord, ConnectionPrimer, ForwardStrategy, Passthrough, PrimeError, PrimedPacket, Primer,
    RealIP, select_primer,
};
use hopper_forwarding::handshake::{DecodedHandshake, Handshake, NextState};
use hopper_forwarding::peer::PeerAddr;
use hopper_forwarding::uuid::PlayerUuid;

fn decoded(address: &[u8]) -> DecodedHandshake {
    DecodedHandshake {
        raw: b"raw-handshake-bytes".to_vec(),
        data: Handshake {
            protocol_version: 763,
            server_address: address.to_vec(),
            server_port: 25565,
            next_state: NextState::Login,
        },
    }
}

fn peer() -> PeerAddr {
    PeerAddr::new(b"203.0.113.5".to_vec(), 54321)
}

fn rewritten(r: Result<PrimedPacket, PrimeError>) -> Handshake {
    match r {
        Ok(PrimedPacket::Rewritten(h)) => h,
        Ok(PrimedPacket::Raw(_)) => panic!("expected a rewritten handshake, got raw bytes"),
        Err(_) => panic!("expected success"),
    }
}

#[test]
fn bungeecord_appends_ip_and_uuid() {
    let primer = BungeeCord::from_username(peer(), "Notch");
    let h = rewritten(primer.prime_connection(decoded(b"mc.example.com")));
    let expected: Vec<u8> =
        b"mc.example.com\x00203.0.113.5\x00b50ad385-829d-3141-a216-7e7d7539ba7f".to_vec();
    assert_eq!(h.server_address, expected);
    assert_eq!(h.protocol_version, 763);
    assert_eq!(h.server_port, 25565);
    assert_eq!(h.next_state, NextState::Login);
}

#[test]
fn bungeecord_uuid_matches_derivation() {
    let primer = BungeeCord::from_username(peer(), "Notch");
    let h = rewritten(primer.prime_connection(decoded(b"mc.example.com")));
    let uuid_text = PlayerUuid::offline_player("Notch").to_text();
    let mut expected: Vec<u8> = b"mc.example.com\x00203.0.113.5\x00".to_vec();
    expected.extend_from_slice(&uuid_text);
    assert_eq!(h.server_address, expected);
}

#[test]
fn bungeecord_rejects_embedded_delimiter() {
    let primer = BungeeCord::from_username(peer(), "Notch");
    let r = primer.prime_connection(decoded(b"mc.example.com\x00forged"));
    assert!(matches!(r, Err(PrimeError::Invalid)));
}

#[test]
fn realip_appends_peer_address() {
    let primer = RealIP::new(peer());
    let h = rewritten(primer.prime_connection(decoded(b"mc.example.com")));
    assert_eq!(h.server_address, b"mc.example.com///203.0.113.5:54321".to_vec());
    assert_eq!(h.protocol_version, 763);
    assert_eq!(h.server_port, 25565);
    assert_eq!(h.next_state, NextState::Login);
}

#[test]
fn realip_preserves_modloader_suffix() {
    let primer = RealIP::new(peer());
    let h = rewritten(primer.prime_connection(decoded(b"mc.example.com\x00FML\x00")));
    assert_eq!(
        h.server_address,
        b"mc.example.com///203.0.113.5:54321\x00FML\x00".to_vec()
    );
}

#[test]
fn realip_delimiter_at_start_inserts_at_start() {
    let primer = RealIP::new(peer());
    let h = rewritten(primer.prime_connection(decoded(b"\x00FML\x00")));
    assert_eq!(h.server_address, b"///203.0.113.5:54321\x00FML\x00".to_vec());
}

#[test]
fn realip_rejects_slash() {
    let primer = RealIP::new(peer());
    let r = primer.prime_connection(decoded(b"mc.example.com///1.2.3.4:5"));
    assert!(matches!(r, Err(PrimeError::Invalid)));
}

#[test]
fn realip_ipv6_peer_is_bracketed() {
    let primer = RealIP::new(PeerAddr::new(b"2001:db8::1".to_vec(), 80));
    let h = rewritten(primer.prime_connection(decoded(b"mc.example.com")));
    assert_eq!(h.server_address, b"mc.example.com///[2001:db8::1]:80".to_vec());
}

#[test]
fn passthrough_forwards_raw_bytes() {
    let raw: Vec<u8> = vec![0x17, 0x00, 0xff, 0x2f, 0x00, 0x80, 0x01];
    let og = DecodedHandshake {
        raw: raw.clone(),
        data: Handshake {
            protocol_version: -1,
            server_address: b"unparsed\x00///junk".to_vec(),
            server_port: 0,
            next_state: NextState::Status,
        },
    };
    match Passthrough.prime_connection(og) {
        Ok(PrimedPacket::Raw(v)) => assert_eq!(v, raw),
        _ => panic!("expected the raw bytes back"),
    }
}

#[test]
fn select_primer_maps_strategies() {
    let p = select_primer(ForwardStrategy::Passthrough, peer(), "Notch");
    assert!(matches!(p, Primer::Passthrough(_)));
    match select_primer(ForwardStrategy::BungeeCord, peer(), "Notch") {
        Primer::BungeeCord(b) => {
            let h = rewritten(b.prime_connection(decoded(b"mc.example.com")));
            let expected: Vec<u8> =
                b"mc.example.com\x00203.0.113.5\x00b50ad385-829d-3141-a216-7e7d7539ba7f".to_vec();
            assert_eq!(h.server_address, expected);
        }
        _ => panic!("expected a BungeeCord primer"),
    }
    match select_primer(ForwardStrategy::RealIP, peer(), "Notch") {
        Primer::RealIP(r) => {
            let h = rewritten(r.prime_connection(decoded(b"mc.example.com")));
            assert_eq!(h.server_address, b"mc.example.com///203.0.113.5:54321".to_vec());
        }
        _ => panic!("expected a RealIP primer"),
    }
}

#[test]
fn selected_primer_dispatches_and_rejects() {
    let p = select_primer(ForwardStrategy::BungeeCord, peer(), "Notch");
    let r = p.prime_connection(decoded(b"has\x00delimiter"));
    assert!(matches!(r, Err(PrimeError::Invalid)));
}

#[test]
fn default_strategy_is_passthrough() {
    assert_eq!(ForwardStrategy::default(), ForwardStrategy::Passthrough);
}

#[test]
fn realip_port_zero_renders_as_zero() {
    let primer = RealIP::new(PeerAddr::new(b"10.0.0.1".to_vec(), 0));
    let h = rewritten(primer.prime_connection(decoded(b"host")));
    assert_eq!(h.server_address, b"host///10.0.0.1:0".to_vec());
}

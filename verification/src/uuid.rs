//! Offline player identity: a 128-bit identifier derived deterministically
//! from the player's display name, rendered in canonical hyphenated hex form.
//!
//! The derivation digests `"OfflinePlayer:" + name` and stamps the version
//! and variant bits of a name-based identifier onto the digest, so the same
//! name always yields the same identifier.

use vstd::prelude::*;
use vstd::string::StrSliceExecFns;
use crate::bytes::push_all;

verus! {

/// The 16-byte MD5 digest of `data`.
pub uninterp spec fn md5_of(data: Seq<u8>) -> Seq<u8>;

/// Relies on md5::compute: the 16-byte MD5 digest, a function of the input
/// bytes alone.
#[verifier::external_body]
fn md5_digest(data: &Vec<u8>) -> (r: Vec<u8>)
    ensures
        r@ == md5_of(data@),
        r@.len() == 16,
{
    md5::compute(data.as_slice()).0.to_vec()
}

/// The ASCII bytes of `"OfflinePlayer:"`, the prefix the derivation digests
/// ahead of the name.
pub open spec fn offline_prefix() -> Seq<u8> {
    seq![79u8, 102u8, 102u8, 108u8, 105u8, 110u8, 101u8, 80u8, 108u8, 97u8, 121u8, 101u8, 114u8, 58u8]
}

fn offline_prefix_bytes() -> (r: Vec<u8>)
    ensures
        r@ == offline_prefix(),
{
    let mut v: Vec<u8> = Vec::new();
    v.push(79);
    v.push(102);
    v.push(102);
    v.push(108);
    v.push(105);
    v.push(110);
    v.push(101);
    v.push(80);
    v.push(108);
    v.push(97);
    v.push(121);
    v.push(101);
    v.push(114);
    v.push(58);
    proof {
        assert(v@ =~= offline_prefix());
    }
    v
}

/// The identifier bytes derived from `name`: the digest of the prefixed
/// UTF-8 name, with the version nibble forced to 3 (name-based) and the
/// variant bits forced to the canonical `10` pattern.
pub open spec fn offline_uuid_seq(name: Seq<char>) -> Seq<u8> {
    let d = md5_of(offline_prefix() + vstd::utf8::encode_utf8(name));
    d.update(6, (d[6] & 0x0f) | 0x30).update(8, (d[8] & 0x3f) | 0x80)
}

/// ASCII hex digit (lower case) for a nibble.
pub open spec fn hex_digit(n: u8) -> u8 {
    if n < 10 {
        (48 + n) as u8
    } else {
        (87 + n) as u8
    }
}

fn hex_char(n: u8) -> (r: u8)
    requires
        n < 16,
    ensures
        r == hex_digit(n),
{
    if n < 10 {
        48 + n
    } else {
        87 + n
    }
}

/// The first `i` bytes of `d` in hex, hyphenated after bytes 4, 6, 8 and 10,
/// as the canonical text form groups them.
pub open spec fn uuid_text_upto(d: Seq<u8>, i: int) -> Seq<u8>
    decreases i,
{
    if i <= 0 {
        Seq::empty()
    } else {
        let upto = uuid_text_upto(d, i - 1) + seq![hex_digit(d[i - 1] / 16), hex_digit(d[i - 1] % 16)];
        if i == 4 || i == 6 || i == 8 || i == 10 {
            upto + seq![45u8]
        } else {
            upto
        }
    }
}

/// The canonical hyphenated hex text of a 16-byte identifier.
pub open spec fn uuid_str_bytes(d: Seq<u8>) -> Seq<u8> {
    uuid_text_upto(d, 16)
}

/// A 128-bit player identifier.
pub struct PlayerUuid {
    bytes: Vec<u8>,
}

impl View for PlayerUuid {
    type V = Seq<u8>;

    closed spec fn view(&self) -> Seq<u8> {
        self.bytes@
    }
}

impl PlayerUuid {
    #[verifier::type_invariant]
    spec fn wf(self) -> bool {
        self.bytes@.len() == 16
    }

    /// Derives the stable pseudo-identifier of an unauthenticated player
    /// from its display name: same name, same identifier, always.
    pub fn offline_player(name: &str) -> (u: PlayerUuid)
        ensures
            u@ == offline_uuid_seq(name@),
    {
        let mut data = offline_prefix_bytes();
        let name_bytes = name.as_bytes_vec();
        push_all(&mut data, &name_bytes);
        let d = md5_digest(&data);
        let mut bytes: Vec<u8> = Vec::new();
        let mut i: usize = 0;
        while i < 16
            invariant
                d@ == md5_of(offline_prefix() + vstd::utf8::encode_utf8(name@)),
                d@.len() == 16,
                bytes@.len() == i <= 16,
                forall|j: int| 0 <= j < i ==> bytes@[j] == offline_uuid_seq(name@)[j],
            decreases 16 - i,
        {
            let b = if i == 6 {
                (d[i] & 0x0f) | 0x30
            } else if i == 8 {
                (d[i] & 0x3f) | 0x80
            } else {
                d[i]
            };
            bytes.push(b);
            i = i + 1;
        }
        proof {
            assert(bytes@ =~= offline_uuid_seq(name@));
        }
        PlayerUuid { bytes }
    }

    /// The identifier in canonical hyphenated hex text, as it is sent on the
    /// wire.
    pub fn to_text(&self) -> (r: Vec<u8>)
        ensures
            r@ == uuid_str_bytes(self@),
    {
        proof {
            use_type_invariant(&*self);
        }
        let mut r: Vec<u8> = Vec::new();
        let mut i: usize = 0;
        while i < 16
            invariant
                self.bytes@.len() == 16,
                i <= 16,
                r@ == uuid_text_upto(self.bytes@, i as int),
            decreases 16 - i,
        {
            let b = self.bytes[i];
            r.push(hex_char(b / 16));
            r.push(hex_char(b % 16));
            if i == 3 || i == 5 || i == 7 || i == 9 {
                r.push(45);
            }
            i = i + 1;
            proof {
                assert(r@ =~= uuid_text_upto(self.bytes@, i as int));
            }
        }
        r
    }
}

/// Law: identity derivation is idempotent — it is a function of the name
/// alone, so deriving twice from the same name yields the same identifier.
pub proof fn lemma_offline_identity_deterministic(n1: Seq<char>, n2: Seq<char>)
    requires
        n1 == n2,
    ensures
        offline_uuid_seq(n1) == offline_uuid_seq(n2),
{
}

} // verus!

//! Packet prefixes and the per-process connection identity.

use rand::distributions::Alphanumeric;
use rand::rngs::ThreadRng;
use rand::Rng;
use vstd::prelude::*;

use crate::util::{is_alphanumeric_byte, thread_rng};

pub mod auth;
pub mod udp;

verus! {

/// The kind of a packet, which decides its first byte on the wire.
#[derive(Debug, Clone, Copy, PartialEq, Eq, Structural)]
pub enum PrefixKind {
    /// Unencrypted client packets (the authentication request).
    Client,
    /// Packets whose body is encrypted under the session key.
    Encrypted,
}

/// The wire byte of each prefix kind.
pub open spec fn prefix_byte(kind: PrefixKind) -> u8 {
    match kind {
        PrefixKind::Client => 99u8,
        PrefixKind::Encrypted => 101u8,
    }
}

impl PrefixKind {
    /// The first byte of a packet of this kind: `b'c'` or `b'e'`.
    pub fn byte(&self) -> (b: u8)
        ensures
            b == prefix_byte(*self),
    {
        match self {
            PrefixKind::Client => 99u8,
            PrefixKind::Encrypted => 101u8,
        }
    }
}

/// A connection id: four ASCII letters or digits.
pub open spec fn valid_conn_id(id: Seq<u8>) -> bool {
    &&& id.len() == 4
    &&& forall|i: int| 0 <= i < 4 ==> is_alphanumeric_byte(#[trigger] id[i])
}

/// Calls `rng.sample(Alphanumeric)` of rand. rand's source picks the byte
/// from the 62 ASCII letters and digits; that is the claim. Which one is chance
/// and left unsaid.
#[verifier::external_body]
fn random_letter_byte(rng: &mut ThreadRng) -> (b: u8)
    ensures
        is_alphanumeric_byte(b),
{
    rng.sample(Alphanumeric)
}

/// The state a client keeps for its connection: the random id that tags its
/// unencrypted packets, and the key under which its traffic is encrypted.
pub struct Session {
    pub(crate) conn_id: Vec<u8>,
    pub(crate) encryption_key: Vec<u8>,
}

impl Session {
    /// The connection id.
    pub open(crate) spec fn conn_id_view(&self) -> Seq<u8> {
        self.conn_id@
    }

    /// The stored encryption key.
    pub open(crate) spec fn key_view(&self) -> Seq<u8> {
        self.encryption_key@
    }

    /// Every session's connection id is valid.
    #[verifier::type_invariant]
    pub open(crate) spec fn inv(&self) -> bool {
        valid_conn_id(self.conn_id@)
    }

    /// A new session: a fresh random connection id and no key yet.
    pub fn new() -> (s: Session)
        ensures
            valid_conn_id(s.conn_id_view()),
            s.key_view() == Seq::<u8>::empty(),
    {
        let mut rng = thread_rng();
        let mut conn_id: Vec<u8> = Vec::new();
        let mut i: usize = 0;
        while i < 4
            invariant
                i <= 4,
                conn_id@.len() == i,
                forall|j: int| 0 <= j < i ==> is_alphanumeric_byte(#[trigger] conn_id@[j]),
            decreases 4 - i,
        {
            let b = random_letter_byte(&mut rng);
            conn_id.push(b);
            i = i + 1;
        }
        Session { conn_id, encryption_key: Vec::new() }
    }

    /// The connection id.
    pub fn conn_id(&self) -> (id: Vec<u8>)
        ensures
            id@ == self.conn_id_view(),
            valid_conn_id(id@),
    {
        proof {
            use_type_invariant(self);
        }
        let id = self.conn_id.clone();
        assert(id@ =~= self.conn_id@);
        id
    }
}

/// The framing of an unencrypted packet: the kind's byte, the connection id,
/// a colon, then the body.
pub open spec fn prefixed(kind: PrefixKind, conn_id: Seq<u8>, body: Seq<u8>) -> Seq<u8> {
    seq![prefix_byte(kind)] + conn_id + seq![58u8] + body
}

/// Frames `data` as a packet of kind `prefix` from this session, taking the
/// bytes out of `data`.
pub fn prefix_message(session: &Session, prefix: PrefixKind, data: &mut Vec<u8>) -> (packet: Vec<
    u8,
>)
    ensures
        packet@ == prefixed(prefix, session.conn_id_view(), old(data)@),
        packet@ == seq![prefix_byte(prefix)] + session.conn_id_view() + seq![58u8] + old(data)@,
        packet@.len() == old(data)@.len() + 6,
        packet@.subrange(1, 5) == session.conn_id_view(),
        packet@[5] == 58u8,
        packet@.subrange(6, packet@.len() as int) == old(data)@,
        valid_conn_id(session.conn_id_view()),
        final(data)@ == Seq::<u8>::empty(),
{
    proof {
        use_type_invariant(session);
    }
    let mut packet: Vec<u8> = Vec::new();
    packet.push(prefix.byte());
    let mut id = session.conn_id();
    packet.append(&mut id);
    packet.push(58u8);
    packet.append(data);
    assert(packet@ =~= prefixed(prefix, session.conn_id_view(), old(data)@));
    assert(packet@.subrange(1, 5) =~= session.conn_id_view());
    assert(packet@.subrange(6, packet@.len() as int) =~= old(data)@);
    packet
}

/// The prefix bytes are `c` for client packets and `e` for encrypted ones.
pub proof fn lemma_prefix_bytes()
    ensures
        prefix_byte(PrefixKind::Client) == 99u8,
        prefix_byte(PrefixKind::Encrypted) == 101u8,
{
}

/// A framed packet is the kind's byte, the connection id, a colon and the
/// whole body, in that order; with a valid id the body starts at byte 6.
pub proof fn lemma_prefixed_layout(kind: PrefixKind, conn_id: Seq<u8>, body: Seq<u8>)
    ensures
        ({
            let p = prefixed(kind, conn_id, body);
            &&& p.len() == conn_id.len() + body.len() + 2
            &&& p[0] == prefix_byte(kind)
            &&& p.subrange(1, conn_id.len() + 1int) == conn_id
            &&& p[conn_id.len() + 1int] == 58u8
            &&& p.subrange(conn_id.len() + 2int, p.len() as int) == body
        }),
        valid_conn_id(conn_id) ==> prefixed(kind, conn_id, body).len() == body.len() + 6,
{
    let p = prefixed(kind, conn_id, body);
    assert(p.subrange(1, conn_id.len() + 1int) =~= conn_id);
    assert(p.subrange(conn_id.len() + 2int, p.len() as int) =~= body);
}

} // verus!

//! The client side of the connection handshake, as a state machine.
//!
//! A connection attempt binds a local socket, connects it to the server,
//! stores the key derived from the user's id and sends the authentication
//! packet. The client then waits for the server's reply: a reply whose text is
//! the id completes the handshake; any other reply is answered with a
//! confirmation request, at most `MAX_CONFIRMS` times; a failed receive starts
//! a new attempt, at most `MAX_TRIES` times after the first. The I/O itself is
//! done by the caller, which performs each `Action` and reports the outcome as
//! the next `Event`.

use rand::rngs::ThreadRng;
use rand::Rng;
use vstd::prelude::*;
use vstd::string::StringSliceAdditionalSpecFns;
use vstd::utf8::{
    decode_utf8, decode_utf8_encode_utf8, encode_utf8, encode_utf8_decode_utf8,
    encode_utf8_valid_utf8, valid_utf8,
};

use super::auth::{auth_body, auth_packet, base64_no_pad, get_auth_prefix};
use super::{prefixed, prefix_message, valid_conn_id, PrefixKind, Session};
use crate::util::thread_rng;

verus! {

/// The highest attempt number that is still tried (attempts are numbered from 0).
pub const MAX_TRIES: u8 = 5;

/// The highest number of confirmation requests sent within one attempt.
pub const MAX_CONFIRMS: u8 = 5;

/// Why a handshake ended without a session.
#[derive(Debug, Clone, Copy, PartialEq, Eq, Structural)]
pub enum Failure {
    /// Every attempt ended in a failed receive ("Could not connect").
    CouldNotConnect,
    /// Binding, connecting or sending on the socket failed.
    SocketError,
    /// The server never echoed the id back ("Could not authenticate").
    CouldNotAuthenticate,
}

/// Where a handshake stands.
#[derive(Debug, Clone, Copy, PartialEq, Eq, Structural)]
pub enum Phase {
    /// Attempt `tries` is setting up its socket and sending the auth packet.
    Connecting { tries: u8 },
    /// Waiting for the server's reply, after `confirms` confirmation requests.
    Waiting { tries: u8, confirms: u8 },
    /// A reply did not echo the id; a confirmation request is being sent.
    Confirming { tries: u8, confirms: u8 },
    /// The server echoed the id: the session can start.
    Authenticated,
    /// The handshake gave up.
    Failed(Failure),
}

/// What the caller observed while performing the last action.
#[derive(Debug, Clone, Copy, PartialEq, Eq, Structural)]
pub enum Event {
    /// The socket is up and the authentication packet was sent.
    AuthSent,
    /// Binding, connecting or sending failed.
    SocketError,
    /// Receiving failed or gave no bytes.
    NothingReceived,
    /// A reply arrived; `confirmed` tells whether its text is the id
    /// (see `reply_confirms`).
    Reply { confirmed: bool },
    /// The confirmation request was sent.
    ConfirmSent,
}

/// What the caller has to do next.
#[derive(Debug, Clone, Copy, PartialEq, Eq, Structural)]
pub enum Action {
    /// Bind a local socket, connect it, read the id, store its key and send
    /// the authentication packet.
    OpenSocket,
    /// Receive the server's reply.
    Receive,
    /// Wait a second, then receive the server's reply.
    PauseThenReceive,
    /// Send the confirmation request.
    SendConfirm,
    /// Start the session threads: the handshake succeeded.
    StartSession,
    /// Report the failure and stop.
    Abort(Failure),
    /// Wait a second, then report the failure and stop.
    PauseThenAbort(Failure),
    /// The event does not belong to this phase: nothing to do.
    Ignore,
}

/// The counters of a phase stay within their limits.
pub open spec fn phase_valid(p: Phase) -> bool {
    match p {
        Phase::Connecting { tries } => tries <= MAX_TRIES,
        Phase::Waiting { tries, confirms } => tries <= MAX_TRIES && confirms <= MAX_CONFIRMS,
        Phase::Confirming { tries, confirms } => tries <= MAX_TRIES && confirms <= MAX_CONFIRMS,
        _ => true,
    }
}

/// The handshake has ended.
pub open spec fn is_terminal(p: Phase) -> bool {
    p is Authenticated || p is Failed
}

/// Starting attempt number `tries`: give up once the attempts are used up.
pub open spec fn attempt(tries: int) -> (Phase, Action) {
    if tries > MAX_TRIES {
        (Phase::Failed(Failure::CouldNotConnect), Action::Abort(Failure::CouldNotConnect))
    } else {
        (Phase::Connecting { tries: tries as u8 }, Action::OpenSocket)
    }
}

/// The transition relation of the handshake.
pub open spec fn next(p: Phase, e: Event) -> (Phase, Action) {
    match (p, e) {
        (Phase::Connecting { tries }, Event::AuthSent) => (
            Phase::Waiting { tries, confirms: 0 },
            Action::Receive,
        ),
        (Phase::Connecting { .. }, Event::SocketError) => (
            Phase::Failed(Failure::SocketError),
            Action::Abort(Failure::SocketError),
        ),
        (Phase::Waiting { tries, .. }, Event::NothingReceived) => attempt(tries + 1),
        (Phase::Waiting { .. }, Event::Reply { confirmed: true }) => (
            Phase::Authenticated,
            Action::StartSession,
        ),
        (Phase::Waiting { tries, confirms }, Event::Reply { confirmed: false }) => (
            Phase::Confirming { tries, confirms },
            Action::SendConfirm,
        ),
        (Phase::Confirming { tries, confirms }, Event::ConfirmSent) => if confirms + 1
            > MAX_CONFIRMS {
            (
                Phase::Failed(Failure::CouldNotAuthenticate),
                Action::PauseThenAbort(Failure::CouldNotAuthenticate),
            )
        } else {
            (Phase::Waiting { tries, confirms: (confirms + 1) as u8 }, Action::PauseThenReceive)
        },
        (Phase::Confirming { .. }, Event::SocketError) => (
            Phase::Failed(Failure::SocketError),
            Action::Abort(Failure::SocketError),
        ),
        _ => (p, Action::Ignore),
    }
}

/// An upper bound on the number of steps before the handshake ends.
pub open spec fn steps_left(p: Phase) -> int {
    match p {
        Phase::Connecting { tries } => 20 * (MAX_TRIES - tries) + 13,
        Phase::Waiting { tries, confirms } => 20 * (MAX_TRIES - tries) + 2 * (MAX_CONFIRMS
            - confirms) + 2,
        Phase::Confirming { tries, confirms } => 20 * (MAX_TRIES - tries) + 2 * (MAX_CONFIRMS
            - confirms) + 1,
        _ => 0,
    }
}

/// Starts a handshake: the first attempt opens a socket.
pub fn connect() -> (r: (Phase, Action))
    ensures
        r == attempt(0),
        r == (Phase::Connecting { tries: 0 }, Action::OpenSocket),
{
    (Phase::Connecting { tries: 0 }, Action::OpenSocket)
}

/// Takes the handshake one step: from the current phase and the outcome of the
/// last action to the next phase and the action to perform.
pub fn step(p: Phase, e: Event) -> (r: (Phase, Action))
    requires
        phase_valid(p),
    ensures
        r == next(p, e),
{
    match (p, e) {
        (Phase::Connecting { tries }, Event::AuthSent) => (
            Phase::Waiting { tries, confirms: 0 },
            Action::Receive,
        ),
        (Phase::Connecting { .. }, Event::SocketError) => (
            Phase::Failed(Failure::SocketError),
            Action::Abort(Failure::SocketError),
        ),
        (Phase::Waiting { tries, .. }, Event::NothingReceived) => {
            if tries >= MAX_TRIES {
                (Phase::Failed(Failure::CouldNotConnect), Action::Abort(Failure::CouldNotConnect))
            } else {
                (Phase::Connecting { tries: tries + 1 }, Action::OpenSocket)
            }
        },
        (Phase::Waiting { tries, confirms }, Event::Reply { confirmed }) => {
            if confirmed {
                (Phase::Authenticated, Action::StartSession)
            } else {
                (Phase::Confirming { tries, confirms }, Action::SendConfirm)
            }
        },
        (Phase::Confirming { tries, confirms }, Event::ConfirmSent) => {
            if confirms >= MAX_CONFIRMS {
                (
                    Phase::Failed(Failure::CouldNotAuthenticate),
                    Action::PauseThenAbort(Failure::CouldNotAuthenticate),
                )
            } else {
                (Phase::Waiting { tries, confirms: confirms + 1 }, Action::PauseThenReceive)
            }
        },
        (Phase::Confirming { .. }, Event::SocketError) => (
            Phase::Failed(Failure::SocketError),
            Action::Abort(Failure::SocketError),
        ),
        _ => (p, Action::Ignore),
    }
}

/// Every step keeps the counters within their limits.
pub proof fn lemma_step_keeps_valid(p: Phase, e: Event)
    requires
        phase_valid(p),
    ensures
        phase_valid(next(p, e).0),
{
}

/// The handshake always ends: every step that is not ignored brings the phase
/// strictly closer to an end, and an ended handshake stays where it is.
pub proof fn lemma_step_progresses(p: Phase, e: Event)
    requires
        phase_valid(p),
    ensures
        next(p, e).1 is Ignore ==> next(p, e).0 == p,
        !(next(p, e).1 is Ignore) ==> 0 <= steps_left(next(p, e).0) < steps_left(p),
        is_terminal(p) ==> next(p, e) == (p, Action::Ignore),
        is_terminal(next(p, e).0) <==> steps_left(next(p, e).0) == 0,
{
}

/// A handshake takes at most 113 steps from its start.
pub proof fn lemma_start_bound()
    ensures
        steps_left(attempt(0).0) == 113,
        phase_valid(attempt(0).0),
{
}

/// How a valid handshake answers each event it handles: the auth packet
/// starts the wait with no confirmation sent; a reply that echoes the id
/// authenticates at any point of the wait, whatever was sent before; any other
/// reply is answered with a confirmation request, counters unchanged; a sent
/// request leads back to waiting (one more request counted) or, after the
/// last one, to a pause and giving up; socket errors end the handshake.
pub proof fn lemma_transitions(tries: u8, confirms: u8)
    requires
        tries <= MAX_TRIES,
        confirms <= MAX_CONFIRMS,
    ensures
        next(Phase::Connecting { tries }, Event::AuthSent) == (
        Phase::Waiting { tries, confirms: 0 }, Action::Receive),
        next(Phase::Connecting { tries }, Event::SocketError) == (
        Phase::Failed(Failure::SocketError), Action::Abort(Failure::SocketError)),
        next(Phase::Waiting { tries, confirms }, Event::Reply { confirmed: true }) == (
        Phase::Authenticated, Action::StartSession),
        next(Phase::Waiting { tries, confirms }, Event::Reply { confirmed: false }) == (
        Phase::Confirming { tries, confirms }, Action::SendConfirm),
        confirms < MAX_CONFIRMS ==> next(Phase::Confirming { tries, confirms }, Event::ConfirmSent)
            == (Phase::Waiting { tries, confirms: (confirms + 1) as u8 }, Action::PauseThenReceive),
        confirms == MAX_CONFIRMS ==> next(Phase::Confirming { tries, confirms }, Event::ConfirmSent)
            == (Phase::Failed(Failure::CouldNotAuthenticate), Action::PauseThenAbort(
            Failure::CouldNotAuthenticate,
        )),
        next(Phase::Confirming { tries, confirms }, Event::SocketError) == (
        Phase::Failed(Failure::SocketError), Action::Abort(Failure::SocketError)),
{
}

/// Every valid waiting phase authenticates on an echoed id.
pub proof fn lemma_echo_always_authenticates()
    ensures
        forall|tries: u8, confirms: u8|
            tries <= MAX_TRIES && confirms <= MAX_CONFIRMS ==> #[trigger] next(
                Phase::Waiting { tries, confirms },
                Event::Reply { confirmed: true },
            ) == (Phase::Authenticated, Action::StartSession),
{
}

/// Only a reply that echoes the id authenticates.
pub proof fn lemma_only_confirmed_reply_authenticates(p: Phase, e: Event)
    requires
        !(p is Authenticated),
        next(p, e).0 is Authenticated,
    ensures
        p is Waiting,
        e == (Event::Reply { confirmed: true }),
{
}

/// A failed receive starts a new attempt with the next number, and giving up
/// for want of attempts happens only after attempt `MAX_TRIES`.
pub proof fn lemma_retry(tries: u8, confirms: u8)
    requires
        phase_valid(Phase::Waiting { tries, confirms }),
    ensures
        tries < MAX_TRIES ==> next(Phase::Waiting { tries, confirms }, Event::NothingReceived) == (
        Phase::Connecting { tries: (tries + 1) as u8 }, Action::OpenSocket),
        tries == MAX_TRIES ==> next(Phase::Waiting { tries, confirms }, Event::NothingReceived) == (
        Phase::Failed(Failure::CouldNotConnect), Action::Abort(Failure::CouldNotConnect)),
{
}

/// The text that `String::from_utf8_lossy` makes of some bytes.
pub uninterp spec fn utf8_lossy(bytes: Seq<u8>) -> Seq<char>;

/// Calls `String::from_utf8_lossy` of std. Claims that the result is named
/// `utf8_lossy` of the bytes, and, as std documents, that bytes which are valid
/// UTF-8 come back as the text they encode.
#[verifier::external_body]
fn lossy_text(bytes: &[u8]) -> (text: String)
    ensures
        text@ == utf8_lossy(bytes@),
        valid_utf8(bytes@) ==> text@ == decode_utf8(bytes@),
{
    String::from_utf8_lossy(bytes).into_owned()
}

/// Whether the server's (decrypted) reply echoes the id: its bytes, read as
/// UTF-8 with invalid sequences replaced, are the id's text.
pub fn reply_confirms(reply: &[u8], id: &str) -> (confirmed: bool)
    ensures
        confirmed == (utf8_lossy(reply@) == id@),
        reply@ == id.spec_bytes() ==> confirmed,
        valid_utf8(reply@) ==> (confirmed <==> reply@ == id.spec_bytes()),
{
    let text = lossy_text(reply);
    let expected = id.to_owned();
    proof {
        encode_utf8_valid_utf8(id@);
        encode_utf8_decode_utf8(id@);
        if valid_utf8(reply@) {
            decode_utf8_encode_utf8(reply@);
        }
    }
    text == expected
}

/// The room that the handshake asks to join.
pub open spec fn handshake_room() -> Seq<u8> {
    seq![116u8, 101u8, 115u8, 116u8]
}

/// The authentication request that opens an attempt: the id, the room `test`
/// and the sealed secret, framed as a client packet of this session.
pub fn authentication_request(session: &Session, id: &str, sealed_secret: &[u8]) -> (packet: Vec<
    u8,
>)
    ensures
        packet@ == prefixed(
            PrefixKind::Client,
            session.conn_id_view(),
            auth_body(id.spec_bytes(), handshake_room(), sealed_secret@),
        ),
        packet@ == seq![99u8] + session.conn_id_view() + seq![58u8] + id.spec_bytes() + seq![
            58u8,
            116u8,
            101u8,
            115u8,
            116u8,
            58u8,
        ] + encode_utf8(base64_no_pad(sealed_secret@)),
        valid_conn_id(session.conn_id_view()),
{
    let room = "test";
    proof {
        reveal_strlit("test");
        vstd::string::is_ascii_spec_bytes(room);
        assert(room.spec_bytes() =~= handshake_room());
    }
    let mut body = auth_packet(id, room, sealed_secret);
    let packet = prefix_message(session, get_auth_prefix(), &mut body);
    assert(packet@ =~= seq![99u8] + session.conn_id_view() + seq![58u8] + id.spec_bytes() + seq![
        58u8,
        116u8,
        101u8,
        115u8,
        116u8,
        58u8,
    ] + encode_utf8(base64_no_pad(sealed_secret@)));
    packet
}

/// Calls `rng.gen_range(low..high)` of rand, which panics on an empty range
/// and otherwise returns a number in it; that is the claim. Which one is chance.
#[verifier::external_body]
fn random_in_range(rng: &mut ThreadRng, low: u16, high: u16) -> (n: u16)
    requires
        low < high,
    ensures
        low <= n < high,
{
    rng.gen_range(low..high)
}

/// A random local port for the next attempt, from 3000 up to 3999.
pub fn pick_local_port() -> (port: u16)
    ensures
        3000 <= port < 4000,
{
    let mut rng = thread_rng();
    random_in_range(&mut rng, 3000, 4000)
}

} // verus!

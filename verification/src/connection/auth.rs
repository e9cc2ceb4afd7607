//! The session key and the packets built with it.
//!
//! Encryption itself happens outside this module: the functions that frame an
//! encrypted body take the ciphertext, sealed under the session key by the
//! caller.

use base64::engine::general_purpose;
use base64::Engine;
use vstd::prelude::*;
use vstd::string::StringSliceAdditionalSpecFns;
use vstd::utf8::encode_utf8;

use super::{prefix_byte, PrefixKind, Session};
use crate::util::hasher::{sha256, sha256_digest};

verus! {

/// The text that base64's `STANDARD_NO_PAD` engine makes of some bytes.
pub uninterp spec fn base64_no_pad(data: Seq<u8>) -> Seq<char>;

/// The length of the unpadded Base64 text of `n` bytes: four characters for
/// every three bytes, and two or three for a tail of one or two bytes.
pub open spec fn base64_no_pad_len(n: int) -> int {
    4 * (n / 3) + if n % 3 == 0 {
        0
    } else {
        n % 3 + 1
    }
}

/// A character of the standard Base64 alphabet: `A`-`Z`, `a`-`z`, `0`-`9`,
/// `+` and `/`.
pub open spec fn is_base64_char(c: char) -> bool {
    (65 <= c as u32 <= 90) || (97 <= c as u32 <= 122) || (48 <= c as u32 <= 57) || c as u32
        == 43 || c as u32 == 47
}

/// A byte of the standard Base64 alphabet.
pub open spec fn is_base64_byte(b: u8) -> bool {
    (65 <= b <= 90) || (97 <= b <= 122) || (48 <= b <= 57) || b == 43 || b == 47
}

/// A Base64 character is ASCII, and its byte is its code.
proof fn lemma_base64_char_is_ascii(c: char)
    requires
        is_base64_char(c),
    ensures
        '\0' <= c <= '\u{7f}',
        c as u8 == c as u32,
{
    let k = c as u32;
    assert(k <= 127);
    assert(c as u8 == k as u8);
    assert(k as u8 == k) by (bit_vector)
        requires
            k <= 127,
    ;
}

/// Calls `general_purpose::STANDARD_NO_PAD.encode_string` of base64 on an
/// empty string. Claims that the string then holds the standard, unpadded
/// Base64 text of the input, named `base64_no_pad`; that its length is the
/// one base64's `encoded_len` gives without padding; that it is made of the
/// standard alphabet; and that it decodes to the input alone (base64
/// documents that decoding gives the encoded bytes back).
#[verifier::external_body]
fn encode_no_pad(data: &[u8]) -> (text: String)
    ensures
        text@ == base64_no_pad(data@),
        text@.len() == base64_no_pad_len(data@.len() as int),
        forall|i: int| 0 <= i < text@.len() ==> is_base64_char(#[trigger] text@[i]),
        forall|other: Seq<u8>| #[trigger] base64_no_pad(other) == text@ ==> other == data@,
{
    let mut text = String::new();
    general_purpose::STANDARD_NO_PAD.encode_string(data, &mut text);
    text
}

/// A body behind a one-byte tag and a colon.
pub open spec fn tagged(tag: u8, body: Seq<u8>) -> Seq<u8> {
    seq![tag, 58u8] + body
}

/// Puts `tag` and a colon in front of `body`.
pub fn tag_body(tag: u8, body: Vec<u8>) -> (out: Vec<u8>)
    ensures
        out@ == tagged(tag, body@),
        out@.len() == body@.len() + 2,
        out@[0] == tag,
        out@[1] == 58u8,
        forall|i: int| 0 <= i < body@.len() ==> out@[i + 2] == #[trigger] body@[i],
{
    let ghost given = body@;
    let mut body = body;
    let mut out: Vec<u8> = Vec::new();
    out.push(tag);
    out.push(58u8);
    out.append(&mut body);
    assert(out@ =~= tagged(tag, given));
    out
}

/// A tagged body is the tag, a colon and the whole body, byte for byte.
pub proof fn lemma_tagged_layout(tag: u8, body: Seq<u8>)
    ensures
        tagged(tag, body).len() == body.len() + 2,
        tagged(tag, body)[0] == tag,
        tagged(tag, body)[1] == 58u8,
        tagged(tag, body).subrange(2, body.len() + 2int) == body,
        forall|i: int| 0 <= i < body.len() ==> tagged(tag, body)[i + 2] == #[trigger] body[i],
{
    assert(tagged(tag, body).subrange(2, body.len() + 2int) =~= body);
}

/// An authentication body is the id, a colon, the room, a colon and the
/// Base64 text of the whole sealed secret, in that order.
pub proof fn lemma_auth_body_layout(id: Seq<u8>, room: Seq<u8>, sealed_secret: Seq<u8>)
    ensures
        ({
            let b = auth_body(id, room, sealed_secret);
            let text = encode_utf8(base64_no_pad(sealed_secret));
            &&& b.len() == id.len() + room.len() + 2 + text.len()
            &&& b.subrange(0, id.len() as int) == id
            &&& b[id.len() as int] == 58u8
            &&& b.subrange(id.len() + 1int, id.len() + 1int + room.len()) == room
            &&& b[id.len() + 1int + room.len()] == 58u8
            &&& b.subrange(id.len() + room.len() + 2int, b.len() as int) == text
        }),
{
    let b = auth_body(id, room, sealed_secret);
    let text = encode_utf8(base64_no_pad(sealed_secret));
    assert(b.subrange(0, id.len() as int) =~= id);
    assert(b.subrange(id.len() + 1int, id.len() + 1int + room.len()) =~= room);
    assert(b.subrange(id.len() + room.len() + 2int, b.len() as int) =~= text);
}

/// Stores the key under which the session's traffic is encrypted.
pub fn set_encryption_key(session: &mut Session, key: Vec<u8>)
    ensures
        final(session).key_view() == key@,
        final(session).conn_id_view() == old(session).conn_id_view(),
{
    proof {
        use_type_invariant(&*session);
    }
    let mut key = key;
    std::mem::swap(&mut session.encryption_key, &mut key);
}

/// The key under which the session's traffic is encrypted.
pub fn get_encryption_key(session: &Session) -> (key: Vec<u8>)
    ensures
        key@ == session.key_view(),
{
    let key = session.encryption_key.clone();
    assert(key@ =~= session.encryption_key@);
    key
}

/// Frames an encrypted body: the encrypted prefix's byte, a colon, then the
/// ciphertext (the payload sealed under the session key).
pub fn encrypted_packet(ciphertext: Vec<u8>) -> (packet: Vec<u8>)
    ensures
        packet@ == tagged(prefix_byte(PrefixKind::Encrypted), ciphertext@),
        packet@ == seq![101u8, 58u8] + ciphertext@,
{
    let prefix = get_prefix();
    tag_body(prefix.byte(), ciphertext)
}

/// The body of an authentication request.
pub open spec fn auth_body(id: Seq<u8>, room: Seq<u8>, sealed_secret: Seq<u8>) -> Seq<u8> {
    id + seq![58u8] + room + seq![58u8] + encode_utf8(base64_no_pad(sealed_secret))
}

/// The authentication request: the user's id, the room, and the secret sealed
/// under the key of the token, in unpadded Base64, separated by colons.
pub fn auth_packet(id: &str, room: &str, sealed_secret: &[u8]) -> (packet: Vec<u8>)
    ensures
        packet@ == auth_body(id.spec_bytes(), room.spec_bytes(), sealed_secret@),
        packet@ == id.spec_bytes() + seq![58u8] + room.spec_bytes() + seq![58u8] + encode_utf8(
            base64_no_pad(sealed_secret@),
        ),
        packet@.len() == id.spec_bytes().len() + room.spec_bytes().len() + 2 + base64_no_pad_len(
            sealed_secret@.len() as int,
        ),
        forall|other: Seq<u8>|
            #[trigger] base64_no_pad(other) == base64_no_pad(sealed_secret@) ==> other
                == sealed_secret@,
        forall|i: int|
            id.spec_bytes().len() + room.spec_bytes().len() + 2 <= i < packet@.len()
                ==> is_base64_byte(#[trigger] packet@[i]),
{
    let encoded = encode_no_pad(sealed_secret);
    proof {
        assert forall|i: int| 0 <= i < encoded@.len() implies '\0' <= #[trigger] encoded@[i]
            <= '\u{7f}' by {
            lemma_base64_char_is_ascii(encoded@[i]);
        }
        vstd::utf8::is_ascii_chars_encode_utf8(encoded@);
    }
    let mut packet: Vec<u8> = Vec::new();
    packet.extend_from_slice(id.as_bytes());
    packet.push(58u8);
    packet.extend_from_slice(room.as_bytes());
    packet.push(58u8);
    packet.extend_from_slice(encoded.as_str().as_bytes());
    proof {
        let start = id.spec_bytes().len() + room.spec_bytes().len() + 2;
        assert forall|i: int| start <= i < packet@.len() implies is_base64_byte(
            #[trigger] packet@[i],
        ) by {
            let c = encoded@[i - start];
            assert(packet@[i] == encode_utf8(encoded@)[i - start]);
            assert(is_base64_char(c));
            lemma_base64_char_is_ascii(c);
            assert(c as u8 == packet@[i]);
        }
    }
    packet
}

/// The plaintext of the confirmation request, `c:c`.
pub fn confirm_message() -> (message: Vec<u8>)
    ensures
        message@ == seq![99u8, 58u8, 99u8],
{
    let mut message: Vec<u8> = Vec::new();
    message.push(99u8);
    message.push(58u8);
    message.push(99u8);
    message
}

/// The plaintext of the keep-alive request, `r:r`.
pub fn refresh_message() -> (message: Vec<u8>)
    ensures
        message@ == seq![114u8, 58u8, 114u8],
{
    let mut message: Vec<u8> = Vec::new();
    message.push(114u8);
    message.push(58u8);
    message.push(114u8);
    message
}

/// The confirmation request, from the ciphertext of `confirm_message` under
/// the session key.
pub fn confirm_packet(sealed_confirm: Vec<u8>) -> (packet: Vec<u8>)
    ensures
        packet@ == tagged(prefix_byte(PrefixKind::Encrypted), sealed_confirm@),
        packet@ == seq![101u8, 58u8] + sealed_confirm@,
{
    encrypted_packet(sealed_confirm)
}

/// The prefix of the authentication request.
pub fn get_auth_prefix() -> (kind: PrefixKind)
    ensures
        kind == PrefixKind::Client,
{
    PrefixKind::Client
}

/// The prefix of encrypted packets.
pub fn get_prefix() -> (kind: PrefixKind)
    ensures
        kind == PrefixKind::Encrypted,
{
    PrefixKind::Encrypted
}

/// The key that a token stands for: the SHA-256 digest of its UTF-8 bytes.
pub fn get_key(token: &str) -> (key: Vec<u8>)
    ensures
        key@ == sha256_digest(token.spec_bytes()),
        key@.len() == 32,
{
    let bytes = token.as_bytes();
    let mut data: Vec<u8> = Vec::new();
    data.extend_from_slice(bytes);
    assert(data@ =~= bytes@);
    sha256(data)
}

} // verus!

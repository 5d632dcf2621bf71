//! The commitment that a provider seals: what is hashed, and that it can be opened in one way only.

use vstd::prelude::*;

use crate::hash::Hash32;

verus! {

/// Domain separator, so a digest produced here can never be mistaken for one produced by another
/// protocol that happens to hash the same bytes.
const DOMAIN: &'static str = "tari.ootle.signal_vault.commitment.v1";

/// The domain separator in bytes.
pub open spec fn domain() -> Seq<u8> {
    vstd::utf8::encode_utf8("tari.ootle.signal_vault.commitment.v1"@)
}

/// One part of the hashed message: its length in eight little-endian bytes, then the part itself.
pub open spec fn framed(part: Seq<u8>) -> Seq<u8> {
    vstd::bytes::spec_u64_to_le_bytes(part.len() as u64) + part
}

/// The message that is hashed for a payload and a nonce.
pub open spec fn message(payload: Seq<char>, nonce: Seq<u8>) -> Seq<u8> {
    framed(domain()) + framed(vstd::utf8::encode_utf8(payload)) + framed(nonce)
}

/// The BLAKE2b digest, of 32 bytes, of a message.
pub uninterp spec fn blake2b_256(message: Seq<u8>) -> Seq<u8>;

/// The commitment to a payload and a nonce.
pub open spec fn commitment(payload: Seq<char>, nonce: Seq<u8>) -> Seq<u8> {
    blake2b_256(message(payload, nonce))
}

/// Calls `blake2::Digest::digest` of `blake2::Blake2b` with an output of 32 bytes. Trusted: the
/// digest is a function of the message alone, which `blake2b_256` names. Which function that is, and
/// that collisions of it are hard to find, is left unsaid.
#[verifier::external_body]
fn blake2b_digest(message: &[u8]) -> (digest: [u8; 32])
    ensures
        digest@ == blake2b_256(message@),
{
    <blake2::Blake2b<blake2::digest::consts::U32> as blake2::Digest>::digest(message).into()
}

/// Appends one part of the hashed message.
fn push_framed(buffer: &mut Vec<u8>, part: &[u8])
    ensures
        final(buffer)@ == old(buffer)@ + framed(part@),
{
    let length = vstd::bytes::u64_to_le_bytes(part.len() as u64);
    buffer.extend_from_slice(length.as_slice());
    buffer.extend_from_slice(part);
}

/// The message that is hashed for a payload and a nonce.
pub fn commitment_message(payload: &str, nonce: &[u8]) -> (bytes: Vec<u8>)
    ensures
        bytes@ == message(payload@, nonce@),
{
    let mut bytes: Vec<u8> = Vec::new();
    push_framed(&mut bytes, DOMAIN.as_bytes());
    push_framed(&mut bytes, payload.as_bytes());
    push_framed(&mut bytes, nonce);
    bytes
}

/// The commitment a provider seals, and the value `reveal_signal` checks against.
///
/// Every part is length-prefixed before hashing, so `("ab", "c")` and `("a", "bc")` produce
/// different messages. Without that, a provider could open one commitment with two different
/// payload/nonce splits and pick whichever one aged better.
pub fn commitment_of(payload: &str, nonce: &[u8]) -> (hash: Hash32)
    ensures
        hash@ == commitment(payload@, nonce@),
        hash@.len() == 32,
{
    let bytes = commitment_message(payload, nonce);
    let hash = Hash32::from_array(blake2b_digest(bytes.as_slice()));
    proof {
        crate::hash::hash_is_32_bytes(hash);
    }
    hash
}

/// Whether a payload and a nonce have lengths that fit into a length prefix, as those of every
/// string and slice in memory do.
pub open spec fn fits(payload: Seq<char>, nonce: Seq<u8>) -> bool {
    vstd::utf8::encode_utf8(payload).len() <= u64::MAX && nonce.len() <= u64::MAX
}

/// A framed part can be read back from the front of a message: the part and what follows it are
/// determined.
proof fn lemma_framed_splits(a: Seq<u8>, rest_a: Seq<u8>, b: Seq<u8>, rest_b: Seq<u8>)
    requires
        a.len() <= u64::MAX,
        b.len() <= u64::MAX,
        framed(a) + rest_a == framed(b) + rest_b,
    ensures
        a == b,
        rest_a == rest_b,
{
    vstd::bytes::lemma_auto_spec_u64_to_from_le_bytes();
    let left = framed(a) + rest_a;
    let right = framed(b) + rest_b;
    assert(left.take(8) =~= vstd::bytes::spec_u64_to_le_bytes(a.len() as u64));
    assert(right.take(8) =~= vstd::bytes::spec_u64_to_le_bytes(b.len() as u64));
    assert(left.subrange(8, 8 + a.len() as int) =~= a);
    assert(right.subrange(8, 8 + b.len() as int) =~= b);
    assert(left.skip(8 + a.len() as int) =~= rest_a);
    assert(right.skip(8 + b.len() as int) =~= rest_b);
}

/// The hashed message determines payload and nonce: no two pairs are framed into the same message,
/// however their bytes are shifted between payload and nonce.
pub proof fn message_is_injective(
    payload: Seq<char>,
    nonce: Seq<u8>,
    other_payload: Seq<char>,
    other_nonce: Seq<u8>,
)
    requires
        fits(payload, nonce),
        fits(other_payload, other_nonce),
    ensures
        message(payload, nonce) == message(other_payload, other_nonce) ==> payload == other_payload
            && nonce == other_nonce,
{
    if message(payload, nonce) == message(other_payload, other_nonce) {
        let bytes = vstd::utf8::encode_utf8(payload);
        let other_bytes = vstd::utf8::encode_utf8(other_payload);
        let tail = framed(bytes) + framed(nonce);
        let other_tail = framed(other_bytes) + framed(other_nonce);
        assert(tail =~= message(payload, nonce).skip(framed(domain()).len() as int));
        assert(other_tail =~= message(other_payload, other_nonce).skip(
            framed(domain()).len() as int,
        ));
        lemma_framed_splits(bytes, framed(nonce), other_bytes, framed(other_nonce));
        lemma_framed_splits(nonce, Seq::empty(), other_nonce, Seq::empty());
        vstd::utf8::encode_utf8_decode_utf8(payload);
        vstd::utf8::encode_utf8_decode_utf8(other_payload);
    }
}

/// A commitment binds: whoever opens one commitment in two ways has found two different messages
/// with the same BLAKE2b digest.
pub proof fn two_openings_are_a_collision(
    payload: Seq<char>,
    nonce: Seq<u8>,
    other_payload: Seq<char>,
    other_nonce: Seq<u8>,
)
    requires
        fits(payload, nonce),
        fits(other_payload, other_nonce),
        payload != other_payload || nonce != other_nonce,
        commitment(payload, nonce) == commitment(other_payload, other_nonce),
    ensures
        message(payload, nonce) != message(other_payload, other_nonce),
        blake2b_256(message(payload, nonce)) == blake2b_256(message(other_payload, other_nonce)),
{
    message_is_injective(payload, nonce, other_payload, other_nonce);
}

/// Every hashed message starts with the domain separator and its length, so no message without
/// that start is ever hashed here.
pub proof fn message_starts_with_domain(payload: Seq<char>, nonce: Seq<u8>)
    ensures
        framed(domain()).is_prefix_of(message(payload, nonce)),
{
}

/// The hashed message holds the domain separator, the payload and the nonce, each once and each
/// behind its length, in this order and with nothing between or after them.
pub proof fn message_holds_each_part_once(payload: Seq<char>, nonce: Seq<u8>)
    ensures
        ({
            let name = vstd::utf8::encode_utf8("tari.ootle.signal_vault.commitment.v1"@);
            let text = vstd::utf8::encode_utf8(payload);
            let bytes = message(payload, nonce);
            let payload_at = 8 + name.len() as int;
            let nonce_at = payload_at + 8 + text.len() as int;
            &&& name.len() == 37
            &&& bytes.len() == 24 + name.len() + text.len() + nonce.len()
            &&& bytes.subrange(0, 8) == vstd::bytes::spec_u64_to_le_bytes(name.len() as u64)
            &&& bytes.subrange(8, payload_at) == name
            &&& bytes.subrange(payload_at, payload_at + 8) == vstd::bytes::spec_u64_to_le_bytes(
                text.len() as u64,
            )
            &&& bytes.subrange(payload_at + 8, nonce_at) == text
            &&& bytes.subrange(nonce_at, nonce_at + 8) == vstd::bytes::spec_u64_to_le_bytes(
                nonce.len() as u64,
            )
            &&& bytes.subrange(nonce_at + 8, bytes.len() as int) == nonce
        }),
{
    vstd::bytes::lemma_auto_spec_u64_to_from_le_bytes();
    reveal_strlit("tari.ootle.signal_vault.commitment.v1");
    vstd::utf8::is_ascii_chars_encode_utf8("tari.ootle.signal_vault.commitment.v1"@);
}

/// A commitment is the BLAKE2b digest of exactly that message, for every payload and nonce.
pub proof fn commitment_hashes_each_part_once(
    payload: Seq<char>,
    nonce: Seq<u8>,
    bytes: Seq<u8>,
)
    requires
        ({
            let name = vstd::utf8::encode_utf8("tari.ootle.signal_vault.commitment.v1"@);
            let text = vstd::utf8::encode_utf8(payload);
            bytes == vstd::bytes::spec_u64_to_le_bytes(name.len() as u64) + name
                + vstd::bytes::spec_u64_to_le_bytes(text.len() as u64) + text
                + vstd::bytes::spec_u64_to_le_bytes(nonce.len() as u64) + nonce
        }),
    ensures
        commitment(payload, nonce) == blake2b_256(bytes),
{
    assert(bytes =~= message(payload, nonce));
}

}

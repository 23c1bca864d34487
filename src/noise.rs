//! The Noise protocol state of the `snow` crate, as this library uses it:
//! the declared outside types and one wrapper for each call made into them.

use vstd::prelude::*;
use snow::params::NoiseParams;
use snow::{Builder, HandshakeState, StatelessTransportState};

verus! {

#[verifier::external_type_specification]
#[verifier::external_body]
pub struct ExHandshakeState(HandshakeState);

#[verifier::external_type_specification]
#[verifier::external_body]
pub struct ExStatelessTransportState(StatelessTransportState);

#[verifier::external_type_specification]
#[verifier::external_body]
pub struct ExSnowError(snow::Error);

/// Relies on snow's `Builder::build_initiator`, after parsing the protocol
/// name (`NoiseParams`'s `FromStr`), `local_private_key` and `psk`: the
/// initiator's handshake state. For the channel's protocol every step
/// succeeds: the name parses, the default resolver has all its primitives,
/// the keys have the lengths the protocol asks for, and building draws no
/// randomness. `Builder::psk` indexes an array of ten slots, hence the bound
/// on `psk_slot`.
#[verifier::external_body]
pub(crate) fn build_initiator(
    name: &str,
    local_secret: &[u8; 32],
    psk_slot: u8,
    psk: &[u8; 32],
) -> (r: Result<HandshakeState, snow::Error>)
    requires
        psk_slot < 10,
    ensures
        name@ == "Noise_XXpsk3_25519_ChaChaPoly_BLAKE2s"@ ==> r is Ok,
{
    let params: NoiseParams = name.parse()?;
    Builder::new(params).local_private_key(local_secret).psk(psk_slot, psk).build_initiator()
}

/// Relies on snow's `Builder::build_responder`, after parsing the protocol
/// name (`NoiseParams`'s `FromStr`), `local_private_key` and `psk`: the
/// responder's handshake state. For the channel's protocol every step
/// succeeds, as for the initiator. `Builder::psk` indexes an array of ten
/// slots, hence the bound on `psk_slot`.
#[verifier::external_body]
pub(crate) fn build_responder(
    name: &str,
    local_secret: &[u8; 32],
    psk_slot: u8,
    psk: &[u8; 32],
) -> (r: Result<HandshakeState, snow::Error>)
    requires
        psk_slot < 10,
    ensures
        name@ == "Noise_XXpsk3_25519_ChaChaPoly_BLAKE2s"@ ==> r is Ok,
{
    let params: NoiseParams = name.parse()?;
    Builder::new(params).local_private_key(local_secret).psk(psk_slot, psk).build_responder()
}

/// Relies on snow's `Builder::generate_keypair`, after parsing the protocol
/// name: a secret drawn from the operating system's random source. For the
/// channel's protocol (X25519) it is 32 bytes; nothing is known of them.
#[verifier::external_body]
pub(crate) fn generate_secret(name: &str) -> (r: Result<Vec<u8>, snow::Error>)
    ensures
        name@ == "Noise_XXpsk3_25519_ChaChaPoly_BLAKE2s"@ ==> r is Ok && r->Ok_0@.len() == 32,
{
    let params: NoiseParams = name.parse()?;
    Builder::new(params).generate_keypair().map(|k| k.private)
}

/// Relies on snow's `HandshakeState::write_message` with an empty payload,
/// into a buffer of `cap` bytes: the next handshake message, which fits in
/// that buffer. `write_message` checks the room for a key before writing it
/// but not for the tag that follows, so the buffer is held at the Noise
/// message limit, where every handshake message fits.
#[verifier::external_body]
pub(crate) fn write_handshake(hs: &mut HandshakeState, cap: usize) -> (r: Result<Vec<u8>, snow::Error>)
    requires
        cap == 65535,
    ensures
        r is Ok ==> r->Ok_0@.len() <= cap,
{
    let mut buf = vec![0u8; cap];
    let n = hs.write_message(&[], &mut buf)?;
    buf.truncate(n);
    Ok(buf)
}

/// Relies on snow's `HandshakeState::read_message`, into a buffer of `cap`
/// bytes: takes in the peer's next handshake message, or refuses it.
#[verifier::external_body]
pub(crate) fn read_handshake(hs: &mut HandshakeState, msg: &[u8], cap: usize) -> (r: Result<usize, snow::Error>) {
    let mut buf = vec![0u8; cap];
    hs.read_message(msg, &mut buf)
}

/// Relies on snow's `HandshakeState::into_stateless_transport_mode`: the
/// transport state of a finished handshake, or an error before then.
#[verifier::external_body]
pub(crate) fn into_stateless(hs: HandshakeState) -> (r: Result<StatelessTransportState, snow::Error>) {
    hs.into_stateless_transport_mode()
}

/// Relies on snow's `StatelessTransportState::write_message`, into a buffer
/// of `cap` bytes: the payload sealed under the sending key and `nonce`,
/// followed by its 16-byte tag.
#[verifier::external_body]
pub(crate) fn seal(t: &StatelessTransportState, nonce: u64, payload: &[u8], cap: usize) -> (r: Result<Vec<u8>, snow::Error>)
    ensures
        r is Ok ==> r->Ok_0@.len() == payload@.len() + 16,
{
    let mut buf = vec![0u8; cap];
    let n = t.write_message(nonce, payload, &mut buf)?;
    buf.truncate(n);
    Ok(buf)
}

/// Relies on snow's `StatelessTransportState::read_message`: the plaintext
/// of a record sealed under the receiving key and `nonce`, which is the
/// record less its 16-byte tag, or an error where the tag does not verify.
#[verifier::external_body]
pub(crate) fn open(t: &StatelessTransportState, nonce: u64, record: &[u8]) -> (r: Result<Vec<u8>, snow::Error>)
    ensures
        r is Ok ==> r->Ok_0@.len() + 16 == record@.len(),
{
    let mut buf = vec![0u8; record.len()];
    let n = t.read_message(nonce, record, &mut buf)?;
    buf.truncate(n);
    Ok(buf)
}

} // verus!

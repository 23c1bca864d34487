//! The handshake engine: the three messages of `Noise_XXpsk3`, taken in
//! turn by the two roles, with the pre-shared key mixed in after the third.

use vstd::prelude::*;
use snow::HandshakeState;
use crate::dh::Dh25519;
use crate::error::{ChannelError, HandshakeFailure};
use crate::frame::MAX_RECORD_LEN;
use crate::noise::{build_initiator, build_responder, generate_secret, into_stateless, read_handshake, write_handshake};
use crate::transport::TransportCipher;

verus! {

/// The Noise protocol the channel runs: the XX pattern with the pre-shared
/// key in the third slot, X25519, ChaCha20-Poly1305 and BLAKE2s.
pub const NOISE_PATTERN: &'static str = "Noise_XXpsk3_25519_ChaChaPoly_BLAKE2s";

/// The slot of the pattern at which the pre-shared key is mixed in.
pub const PSK_SLOT: u8 = 3;

/// Messages in the handshake.
pub const HANDSHAKE_MESSAGES: u8 = 3;

/// The side a party takes in the handshake.
#[derive(Debug, Clone, Copy, PartialEq, Eq, Structural)]
pub enum Role {
    /// Sends the first message, and sends with the first transport key.
    Initiator,
    /// Receives the first message, and sends with the second transport key.
    Responder,
}

/// Where a handshake stands.
#[derive(Debug, Clone, Copy, PartialEq, Eq, Structural)]
pub enum HandshakeStatus {
    InProgress,
    /// All three messages passed: the transport keys can be derived.
    TransportReady,
    /// A step failed: the engine takes no further step.
    Failed,
}

/// The configuration shared by every channel of a process: the pre-shared
/// key. It is made once and only read after that.
pub struct ChannelConfig {
    psk: [u8; 32],
}

/// A 32-byte secret from key material: refused unless it is exactly 32
/// bytes.
pub fn secret_from_bytes(bytes: &Vec<u8>) -> (r: Result<[u8; 32], ChannelError>)
    ensures
        bytes@.len() == 32 ==> r is Ok && r->Ok_0@ == bytes@,
        bytes@.len() != 32 ==> r == Err::<[u8; 32], ChannelError>(ChannelError::KeyError),
{
    if bytes.len() != 32 {
        return Err(ChannelError::KeyError);
    }
    let mut out = [0u8; 32];
    let mut i: usize = 0;
    while i < 32
        invariant
            bytes@.len() == 32,
            i <= 32,
            forall|j: int| 0 <= j < i ==> out@[j] == bytes@[j],
        decreases 32 - i,
    {
        out[i] = bytes[i];
        i += 1;
    }
    assert(out@ == bytes@);
    Ok(out)
}

impl ChannelConfig {
    /// The configuration with the given pre-shared key.
    pub fn new(psk: [u8; 32]) -> (r: ChannelConfig)
        ensures
            r.psk() == psk,
    {
        ChannelConfig { psk }
    }

    /// The pre-shared key.
    pub closed spec fn psk(&self) -> [u8; 32] {
        self.psk
    }

    /// A fresh random secret for a key pair, drawn from the operating
    /// system's random source.
    pub fn random_secret(&self) -> (r: Result<[u8; 32], ChannelError>)
        ensures
            r is Ok,
    {
        proof {
            reveal_strlit("Noise_XXpsk3_25519_ChaChaPoly_BLAKE2s");
        }
        match generate_secret(NOISE_PATTERN) {
            Ok(bytes) => secret_from_bytes(&bytes),
            Err(_) => Err(ChannelError::KeyError),
        }
    }
}

/// Whether `role` writes (rather than reads) the message after `step`
/// messages have passed: the initiator writes the first and third, the
/// responder the second.
pub open spec fn writes_at(role: Role, step: nat) -> bool {
    match role {
        Role::Initiator => step == 0 || step == 2,
        Role::Responder => step == 1,
    }
}

/// The length of each handshake message, with its empty payload: the first
/// carries an ephemeral key and a tag, the second an ephemeral key, the
/// encrypted static key and a tag, the third the encrypted static key and a
/// tag.
pub open spec fn message_len(step: nat) -> nat {
    if step == 0 {
        48
    } else if step == 1 {
        96
    } else {
        64
    }
}

/// What a handshake engine is: its role, the messages that have passed, and
/// its status.
pub struct HandshakeView {
    pub role: Role,
    pub step: nat,
    pub status: HandshakeStatus,
}

/// The view after one more message passed.
pub open spec fn advanced(v: HandshakeView) -> HandshakeView {
    HandshakeView {
        role: v.role,
        step: v.step + 1,
        status: if v.step + 1 == 3 { HandshakeStatus::TransportReady } else { HandshakeStatus::InProgress },
    }
}

/// The view after a failed step.
pub open spec fn failed(v: HandshakeView) -> HandshakeView {
    HandshakeView { role: v.role, step: v.step, status: HandshakeStatus::Failed }
}

/// The error of a failed step.
pub open spec fn step_error(v: HandshakeView, cause: HandshakeFailure) -> ChannelError {
    ChannelError::HandshakeError { step: v.step as u8, cause }
}

/// One side's handshake, message by message.
pub struct HandshakeEngine {
    role: Role,
    step: u8,
    status: HandshakeStatus,
    noise: HandshakeState,
}

impl View for HandshakeEngine {
    type V = HandshakeView;

    closed spec fn view(&self) -> HandshakeView {
        HandshakeView { role: self.role, step: self.step as nat, status: self.status }
    }
}

impl HandshakeEngine {
    /// The step counter stays within the pattern; the keys are ready only at
    /// its end, and a handshake at its end is no longer in progress.
    pub closed spec fn wf(&self) -> bool {
        &&& self.step <= 3
        &&& (self.status == HandshakeStatus::TransportReady ==> self.step == 3)
        &&& (self.step == 3 ==> self.status != HandshakeStatus::InProgress)
    }

    /// A handshake in `role` with the static key pair `local` and the
    /// configuration's pre-shared key.
    pub fn new(role: Role, local: &Dh25519, config: &ChannelConfig) -> (r: Result<HandshakeEngine, ChannelError>)
        ensures
            r is Ok,
            r is Ok ==> r->Ok_0.wf() && r->Ok_0@ == (HandshakeView { role, step: 0, status: HandshakeStatus::InProgress }),
    {
        proof {
            reveal_strlit("Noise_XXpsk3_25519_ChaChaPoly_BLAKE2s");
        }
        let built = match role {
            Role::Initiator => build_initiator(NOISE_PATTERN, &local.privkey, PSK_SLOT, &config.psk),
            Role::Responder => build_responder(NOISE_PATTERN, &local.privkey, PSK_SLOT, &config.psk),
        };
        match built {
            Ok(noise) => Ok(HandshakeEngine { role, step: 0, status: HandshakeStatus::InProgress, noise }),
            Err(_) => Err(ChannelError::KeyError),
        }
    }

    /// The side this engine takes.
    pub fn role(&self) -> (r: Role)
        ensures
            r == self@.role,
    {
        self.role
    }

    /// The messages that have passed.
    pub fn step(&self) -> (r: u8)
        ensures
            r as nat == self@.step,
    {
        self.step
    }

    /// Where the handshake stands.
    pub fn status(&self) -> (r: HandshakeStatus)
        ensures
            r == self@.status,
    {
        self.status
    }

    /// Whether the next message is this side's to write.
    pub fn is_my_turn(&self) -> (r: bool)
        ensures
            r == (self@.status == HandshakeStatus::InProgress && writes_at(self@.role, self@.step)),
    {
        self.status == HandshakeStatus::InProgress && match self.role {
            Role::Initiator => self.step == 0 || self.step == 2,
            Role::Responder => self.step == 1,
        }
    }

    /// Writes this side's next handshake message. Out of turn, or once the
    /// handshake is over, the engine fails; it fails too where the Noise
    /// state refuses the step.
    pub fn write_message(&mut self) -> (r: Result<Vec<u8>, ChannelError>)
        requires
            old(self).wf(),
        ensures
            final(self).wf(),
            !(old(self)@.status == HandshakeStatus::InProgress && writes_at(old(self)@.role, old(self)@.step))
                ==> r == Err::<Vec<u8>, ChannelError>(step_error(old(self)@, HandshakeFailure::OutOfOrder))
                && final(self)@ == failed(old(self)@),
            old(self)@.status == HandshakeStatus::InProgress && writes_at(old(self)@.role, old(self)@.step)
                ==> match r {
                Ok(m) => final(self)@ == advanced(old(self)@) && m@.len() <= MAX_RECORD_LEN,
                Err(e) => e == step_error(old(self)@, HandshakeFailure::Rejected) && final(self)@ == failed(old(self)@),
            },
    {
        if !self.is_my_turn() {
            self.status = HandshakeStatus::Failed;
            return Err(ChannelError::HandshakeError { step: self.step, cause: HandshakeFailure::OutOfOrder });
        }
        match write_handshake(&mut self.noise, MAX_RECORD_LEN) {
            Ok(m) => {
                self.step = self.step + 1;
                self.status = if self.step == HANDSHAKE_MESSAGES { HandshakeStatus::TransportReady } else { HandshakeStatus::InProgress };
                Ok(m)
            },
            Err(_) => {
                self.status = HandshakeStatus::Failed;
                Err(ChannelError::HandshakeError { step: self.step, cause: HandshakeFailure::Rejected })
            },
        }
    }

    /// Takes in the peer's next handshake message. Out of turn, once the
    /// handshake is over, or with a message of the wrong length for its
    /// step, the engine fails without looking further; it fails too where
    /// the Noise state refuses the message.
    pub fn read_message(&mut self, msg: &[u8]) -> (r: Result<(), ChannelError>)
        requires
            old(self).wf(),
        ensures
            final(self).wf(),
            !(old(self)@.status == HandshakeStatus::InProgress && !writes_at(old(self)@.role, old(self)@.step))
                ==> r == Err::<(), ChannelError>(step_error(old(self)@, HandshakeFailure::OutOfOrder))
                && final(self)@ == failed(old(self)@),
            old(self)@.status == HandshakeStatus::InProgress && !writes_at(old(self)@.role, old(self)@.step)
                && msg@.len() != message_len(old(self)@.step)
                ==> r == Err::<(), ChannelError>(step_error(old(self)@, HandshakeFailure::WrongLength))
                && final(self)@ == failed(old(self)@),
            old(self)@.status == HandshakeStatus::InProgress && !writes_at(old(self)@.role, old(self)@.step)
                && msg@.len() == message_len(old(self)@.step)
                ==> match r {
                Ok(()) => final(self)@ == advanced(old(self)@),
                Err(e) => e == step_error(old(self)@, HandshakeFailure::Rejected) && final(self)@ == failed(old(self)@),
            },
    {
        if self.status != HandshakeStatus::InProgress || self.is_my_turn() {
            self.status = HandshakeStatus::Failed;
            return Err(ChannelError::HandshakeError { step: self.step, cause: HandshakeFailure::OutOfOrder });
        }
        let expected: usize = if self.step == 0 { 48 } else if self.step == 1 { 96 } else { 64 };
        if msg.len() != expected {
            self.status = HandshakeStatus::Failed;
            return Err(ChannelError::HandshakeError { step: self.step, cause: HandshakeFailure::WrongLength });
        }
        match read_handshake(&mut self.noise, msg, MAX_RECORD_LEN) {
            Ok(_) => {
                self.step = self.step + 1;
                self.status = if self.step == HANDSHAKE_MESSAGES { HandshakeStatus::TransportReady } else { HandshakeStatus::InProgress };
                Ok(())
            },
            Err(_) => {
                self.status = HandshakeStatus::Failed;
                Err(ChannelError::HandshakeError { step: self.step, cause: HandshakeFailure::Rejected })
            },
        }
    }

    /// The transport cipher of a finished handshake, with both nonces at
    /// zero. Before the handshake is finished, or after it failed, this is
    /// refused.
    pub fn into_transport(self) -> (r: Result<TransportCipher, ChannelError>)
        requires
            self.wf(),
        ensures
            self@.status != HandshakeStatus::TransportReady
                ==> r == Err::<TransportCipher, ChannelError>(step_error(self@, HandshakeFailure::OutOfOrder)),
            self@.status == HandshakeStatus::TransportReady ==> match r {
                Ok(t) => t@.send_nonce == 0 && t@.recv_nonce == 0 && t@.role == self@.role,
                Err(e) => e == step_error(self@, HandshakeFailure::Rejected),
            },
    {
        if self.status != HandshakeStatus::TransportReady {
            return Err(ChannelError::HandshakeError { step: self.step, cause: HandshakeFailure::OutOfOrder });
        }
        let role = self.role;
        let step = self.step;
        match into_stateless(self.noise) {
            Ok(state) => Ok(TransportCipher::new(role, state)),
            Err(_) => Err(ChannelError::HandshakeError { step, cause: HandshakeFailure::Rejected }),
        }
    }
}

} // verus!

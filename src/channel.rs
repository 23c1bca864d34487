//! The secure channel: a handshake, then the transport cipher of its keys,
//! with every message carried in one frame.

use vstd::prelude::*;
use crate::dh::Dh25519;
use crate::error::{ChannelError, HandshakeFailure};
use crate::frame::{declared_len, frame_record, FramingError, MAX_PAYLOAD_LEN, MAX_RECORD_LEN, TAG_LEN};
use crate::handshake::{advanced, message_len, step_error, writes_at, ChannelConfig, HandshakeEngine, HandshakeStatus, HandshakeView, Role};
use crate::transport::{TransportCipher, TransportView, NONCE_LIMIT};

verus! {

/// Where a channel stands.
pub enum ChannelView {
    Handshaking(HandshakeView),
    Established(TransportView),
    /// Ended normally; nothing more passes.
    Closed,
    /// Ended by an error; nothing more passes.
    Failed,
}

/// What follows a handshake step that succeeded: the next step, or after the
/// third message the transport with both nonces at zero.
pub open spec fn after_step(v: HandshakeView) -> ChannelView {
    if v.step + 1 == 3 {
        ChannelView::Established(TransportView { role: v.role, send_nonce: 0, recv_nonce: 0 })
    } else {
        ChannelView::Handshaking(advanced(v))
    }
}

/// `f` is exactly one whole frame.
pub open spec fn one_frame(f: Seq<u8>) -> bool {
    f.len() >= 2 && declared_len(f) + 2 == f.len()
}

/// The error with which `receive` refuses `record` before trying to open
/// it, if any: on an ended channel, during the handshake, for a record
/// shorter than a tag or longer than a frame allows, and once the receiving
/// nonce has reached its limit.
pub open spec fn receive_refusal(v: ChannelView, record: Seq<u8>) -> Option<ChannelError> {
    match v {
        ChannelView::Closed => Some(ChannelError::Closed),
        ChannelView::Failed => Some(ChannelError::Closed),
        ChannelView::Handshaking(h) => Some(step_error(h, HandshakeFailure::OutOfOrder)),
        ChannelView::Established(t) => if record.len() < TAG_LEN || record.len() > MAX_RECORD_LEN {
            Some(ChannelError::DecryptError)
        } else if t.recv_nonce == NONCE_LIMIT {
            Some(ChannelError::NonceExhausted)
        } else {
            None
        },
    }
}

/// Where a refused call leaves a channel: an ended one as it was, any other
/// failed.
pub open spec fn after_refusal(v: ChannelView) -> ChannelView {
    match v {
        ChannelView::Closed => ChannelView::Closed,
        ChannelView::Failed => ChannelView::Failed,
        _ => ChannelView::Failed,
    }
}

enum Phase {
    Handshaking(HandshakeEngine),
    Established(TransportCipher),
    Closed,
    Failed,
}

/// An authenticated, encrypted channel over one connection.
pub struct SecureChannel {
    phase: Phase,
}

impl View for SecureChannel {
    type V = ChannelView;

    closed spec fn view(&self) -> ChannelView {
        match self.phase {
            Phase::Handshaking(e) => ChannelView::Handshaking(e@),
            Phase::Established(t) => ChannelView::Established(t@),
            Phase::Closed => ChannelView::Closed,
            Phase::Failed => ChannelView::Failed,
        }
    }
}

impl SecureChannel {
    /// A handshake in progress is well formed; a finished one has already
    /// given way to the transport.
    pub closed spec fn wf(&self) -> bool {
        match self.phase {
            Phase::Handshaking(e) => e.wf() && e@.status == HandshakeStatus::InProgress && e@.step < 3,
            _ => true,
        }
    }

    /// A channel about to start its handshake in `role`.
    pub fn new(role: Role, local: &Dh25519, config: &ChannelConfig) -> (r: Result<SecureChannel, ChannelError>)
        ensures
            r is Ok,
            r is Ok ==> r->Ok_0.wf()
                && r->Ok_0@ == ChannelView::Handshaking(HandshakeView { role, step: 0, status: HandshakeStatus::InProgress }),
    {
        match HandshakeEngine::new(role, local, config) {
            Ok(e) => Ok(SecureChannel { phase: Phase::Handshaking(e) }),
            Err(err) => Err(err),
        }
    }

    /// Whether the handshake has finished and records can pass.
    pub fn is_established(&self) -> (r: bool)
        ensures
            r == (self@ is Established),
    {
        match self.phase {
            Phase::Established(_) => true,
            _ => false,
        }
    }

    /// Whether the channel ended normally.
    pub fn is_closed(&self) -> (r: bool)
        ensures
            r == (self@ is Closed),
    {
        match self.phase {
            Phase::Closed => true,
            _ => false,
        }
    }

    /// Whether the channel ended by an error.
    pub fn is_failed(&self) -> (r: bool)
        ensures
            r == (self@ is Failed),
    {
        match self.phase {
            Phase::Failed => true,
            _ => false,
        }
    }

    /// Whether the next handshake message is this side's to write.
    pub fn is_my_turn(&self) -> (r: bool)
        requires
            self.wf(),
        ensures
            r == (self@ is Handshaking && writes_at(self@->Handshaking_0.role, self@->Handshaking_0.step)),
    {
        match &self.phase {
            Phase::Handshaking(e) => e.is_my_turn(),
            _ => false,
        }
    }

    /// Ends the channel normally.
    pub fn close(&mut self)
        ensures
            final(self)@ == ChannelView::Closed,
            final(self).wf(),
    {
        self.phase = Phase::Closed;
    }

    /// After the last handshake step: the transport, or a failed channel.
    fn finish(&mut self, e: HandshakeEngine) -> (r: Result<(), ChannelError>)
        requires
            e.wf(),
            e@.step == 3,
            e@.status == HandshakeStatus::TransportReady,
        ensures
            final(self).wf(),
            r is Ok ==> final(self)@ == ChannelView::Established(TransportView { role: e@.role, send_nonce: 0, recv_nonce: 0 }),
            r is Err ==> final(self)@ == ChannelView::Failed,
    {
        match e.into_transport() {
            Ok(t) => {
                self.phase = Phase::Established(t);
                Ok(())
            },
            Err(err) => {
                self.phase = Phase::Failed;
                Err(err)
            },
        }
    }

    /// The error for a call that the phase does not allow, and the phase
    /// after it: an ended channel stays as it is, any other fails.
    fn refuse(&mut self) -> (r: ChannelError)
        ensures
            old(self)@ is Closed || old(self)@ is Failed ==> r == ChannelError::Closed && final(self)@ == old(self)@,
            old(self)@ is Handshaking ==> r == step_error(old(self)@->Handshaking_0, HandshakeFailure::OutOfOrder)
                && final(self)@ == ChannelView::Failed,
            old(self)@ is Established ==> r == (ChannelError::HandshakeError { step: 3, cause: HandshakeFailure::OutOfOrder })
                && final(self)@ == ChannelView::Failed,
            final(self).wf(),
    {
        let r = match &self.phase {
            Phase::Closed => return ChannelError::Closed,
            Phase::Failed => return ChannelError::Closed,
            Phase::Handshaking(e) => ChannelError::HandshakeError { step: e.step(), cause: HandshakeFailure::OutOfOrder },
            Phase::Established(_) => ChannelError::HandshakeError { step: 3, cause: HandshakeFailure::OutOfOrder },
        };
        self.phase = Phase::Failed;
        r
    }

    /// Writes this side's next handshake message, framed. Out of turn, or
    /// outside the handshake, the channel fails (an ended one stays as it
    /// is); it fails too where the Noise state refuses the step. After the
    /// third message the channel is established.
    pub fn handshake_output(&mut self) -> (r: Result<Vec<u8>, ChannelError>)
        requires
            old(self).wf(),
        ensures
            final(self).wf(),
            old(self)@ is Closed || old(self)@ is Failed ==> r == Err::<Vec<u8>, ChannelError>(ChannelError::Closed)
                && final(self)@ == old(self)@,
            old(self)@ is Established ==> r == Err::<Vec<u8>, ChannelError>(ChannelError::HandshakeError { step: 3, cause: HandshakeFailure::OutOfOrder })
                && final(self)@ == ChannelView::Failed,
            old(self)@ is Handshaking && !writes_at(old(self)@->Handshaking_0.role, old(self)@->Handshaking_0.step)
                ==> r == Err::<Vec<u8>, ChannelError>(step_error(old(self)@->Handshaking_0, HandshakeFailure::OutOfOrder))
                && final(self)@ == ChannelView::Failed,
            old(self)@ is Handshaking && writes_at(old(self)@->Handshaking_0.role, old(self)@->Handshaking_0.step)
                ==> match r {
                Ok(f) => one_frame(f@) && final(self)@ == after_step(old(self)@->Handshaking_0),
                Err(_) => final(self)@ == ChannelView::Failed,
            },
    {
        let mut phase = Phase::Failed;
        std::mem::swap(&mut self.phase, &mut phase);
        match phase {
            Phase::Handshaking(mut e) => {
                match e.write_message() {
                    Ok(m) => {
                        let f = frame_record(m.as_slice());
                        if e.step() == 3 {
                            match self.finish(e) {
                                Ok(()) => Ok(f),
                                Err(err) => Err(err),
                            }
                        } else {
                            self.phase = Phase::Handshaking(e);
                            Ok(f)
                        }
                    },
                    Err(err) => Err(err),
                }
            },
            other => {
                self.phase = other;
                Err(self.refuse())
            },
        }
    }

    /// Takes in the peer's next handshake message (the content of one
    /// frame). Out of turn, outside the handshake, or with a message of the
    /// wrong length for its step, the channel fails (an ended one stays as
    /// it is); it fails too where the Noise state refuses the message.
    /// After the third message the channel is established.
    pub fn handshake_input(&mut self, msg: &[u8]) -> (r: Result<(), ChannelError>)
        requires
            old(self).wf(),
        ensures
            final(self).wf(),
            old(self)@ is Closed || old(self)@ is Failed ==> r == Err::<(), ChannelError>(ChannelError::Closed)
                && final(self)@ == old(self)@,
            old(self)@ is Established ==> r == Err::<(), ChannelError>(ChannelError::HandshakeError { step: 3, cause: HandshakeFailure::OutOfOrder })
                && final(self)@ == ChannelView::Failed,
            old(self)@ is Handshaking && writes_at(old(self)@->Handshaking_0.role, old(self)@->Handshaking_0.step)
                ==> r == Err::<(), ChannelError>(step_error(old(self)@->Handshaking_0, HandshakeFailure::OutOfOrder))
                && final(self)@ == ChannelView::Failed,
            old(self)@ is Handshaking && !writes_at(old(self)@->Handshaking_0.role, old(self)@->Handshaking_0.step)
                && msg@.len() != message_len(old(self)@->Handshaking_0.step)
                ==> r == Err::<(), ChannelError>(step_error(old(self)@->Handshaking_0, HandshakeFailure::WrongLength))
                && final(self)@ == ChannelView::Failed,
            old(self)@ is Handshaking && !writes_at(old(self)@->Handshaking_0.role, old(self)@->Handshaking_0.step)
                && msg@.len() == message_len(old(self)@->Handshaking_0.step)
                ==> match r {
                Ok(()) => final(self)@ == after_step(old(self)@->Handshaking_0),
                Err(_) => final(self)@ == ChannelView::Failed,
            },
    {
        let mut phase = Phase::Failed;
        std::mem::swap(&mut self.phase, &mut phase);
        match phase {
            Phase::Handshaking(mut e) => {
                match e.read_message(msg) {
                    Ok(()) => {
                        if e.step() == 3 {
                            self.finish(e)
                        } else {
                            self.phase = Phase::Handshaking(e);
                            Ok(())
                        }
                    },
                    Err(err) => Err(err),
                }
            },
            other => {
                self.phase = other;
                Err(self.refuse())
            },
        }
    }

    /// Seals `plaintext` and frames the record. Once the sending nonce has
    /// reached its limit the channel fails; below it, a payload over
    /// `MAX_PAYLOAD_LEN` bytes is refused and the channel stays as it was.
    /// Any other failure, and a send before the handshake has finished,
    /// fails the channel (an ended one stays as it is).
    pub fn send(&mut self, plaintext: &[u8]) -> (r: Result<Vec<u8>, ChannelError>)
        requires
            old(self).wf(),
        ensures
            final(self).wf(),
            old(self)@ is Closed || old(self)@ is Failed ==> r == Err::<Vec<u8>, ChannelError>(ChannelError::Closed)
                && final(self)@ == old(self)@,
            old(self)@ is Handshaking ==> r == Err::<Vec<u8>, ChannelError>(step_error(old(self)@->Handshaking_0, HandshakeFailure::OutOfOrder))
                && final(self)@ == ChannelView::Failed,
            old(self)@ is Established && old(self)@->Established_0.send_nonce == NONCE_LIMIT
                ==> r == Err::<Vec<u8>, ChannelError>(ChannelError::NonceExhausted) && final(self)@ == ChannelView::Failed,
            old(self)@ is Established && old(self)@->Established_0.send_nonce < NONCE_LIMIT && plaintext@.len() > MAX_PAYLOAD_LEN
                ==> r == Err::<Vec<u8>, ChannelError>(ChannelError::FramingError(FramingError::Oversized))
                && final(self)@ == old(self)@,
            old(self)@ is Established && plaintext@.len() <= MAX_PAYLOAD_LEN && r is Err
                ==> final(self)@ == ChannelView::Failed,
            old(self)@ is Established && old(self)@->Established_0.send_nonce < NONCE_LIMIT
                && plaintext@.len() <= MAX_PAYLOAD_LEN && r is Err ==> r->Err_0 == ChannelError::Closed,
            r is Ok ==> old(self)@ is Established && plaintext@.len() <= MAX_PAYLOAD_LEN
                && one_frame(r->Ok_0@) && r->Ok_0@.len() == plaintext@.len() + TAG_LEN + 2
                && final(self)@ == ChannelView::Established(TransportView {
                    send_nonce: (old(self)@->Established_0.send_nonce + 1) as u64,
                    ..old(self)@->Established_0
                }),
    {
        let mut phase = Phase::Failed;
        std::mem::swap(&mut self.phase, &mut phase);
        match phase {
            Phase::Established(mut t) => {
                match t.encrypt(plaintext) {
                    Ok(c) => {
                        let f = frame_record(c.as_slice());
                        self.phase = Phase::Established(t);
                        Ok(f)
                    },
                    Err(err) => {
                        if t.sending_nonce() != NONCE_LIMIT && plaintext.len() > MAX_PAYLOAD_LEN {
                            self.phase = Phase::Established(t);
                        }
                        Err(err)
                    },
                }
            },
            Phase::Handshaking(e) => {
                let err = ChannelError::HandshakeError { step: e.step(), cause: HandshakeFailure::OutOfOrder };
                Err(err)
            },
            other => {
                self.phase = other;
                Err(ChannelError::Closed)
            },
        }
    }

    /// Opens a received record (the content of one frame). Any failure, and
    /// a record before the handshake has finished, fails the channel (an
    /// ended one stays as it is): a record that does not authenticate is
    /// never trusted, nor is anything after it.
    pub fn receive(&mut self, record: &[u8]) -> (r: Result<Vec<u8>, ChannelError>)
        requires
            old(self).wf(),
        ensures
            final(self).wf(),
            old(self)@ is Closed || old(self)@ is Failed ==> r == Err::<Vec<u8>, ChannelError>(ChannelError::Closed)
                && final(self)@ == old(self)@,
            old(self)@ is Handshaking ==> r == Err::<Vec<u8>, ChannelError>(step_error(old(self)@->Handshaking_0, HandshakeFailure::OutOfOrder))
                && final(self)@ == ChannelView::Failed,
            old(self)@ is Established ==> match r {
                Ok(p) => p@.len() + TAG_LEN == record@.len()
                    && final(self)@ == ChannelView::Established(TransportView {
                        recv_nonce: (old(self)@->Established_0.recv_nonce + 1) as u64,
                        ..old(self)@->Established_0
                    }),
                Err(_) => final(self)@ == ChannelView::Failed,
            },
            receive_refusal(old(self)@, record@) is Some
                ==> r == Err::<Vec<u8>, ChannelError>(receive_refusal(old(self)@, record@)->Some_0)
                && final(self)@ == after_refusal(old(self)@),
            receive_refusal(old(self)@, record@) is None && r is Err ==> r->Err_0 == ChannelError::DecryptError,
    {
        let mut phase = Phase::Failed;
        std::mem::swap(&mut self.phase, &mut phase);
        match phase {
            Phase::Established(mut t) => {
                match t.decrypt(record) {
                    Ok(p) => {
                        self.phase = Phase::Established(t);
                        Ok(p)
                    },
                    Err(err) => Err(err),
                }
            },
            Phase::Handshaking(e) => {
                let err = ChannelError::HandshakeError { step: e.step(), cause: HandshakeFailure::OutOfOrder };
                Err(err)
            },
            other => {
                self.phase = other;
                Err(ChannelError::Closed)
            },
        }
    }
}

/// A channel about to start its handshake in `role`.
pub open spec fn start(role: Role) -> HandshakeView {
    HandshakeView { role, step: 0, status: HandshakeStatus::InProgress }
}

/// The handshake schedule: at each of the three steps exactly one of the
/// two roles writes and the other reads, and three steps that succeed take
/// a channel of either role from its start to an established transport with
/// both nonces at zero. (That the two sides' keys then match is the Noise
/// state's own work, and is not stated here.)
pub proof fn lemma_handshake_completes(role: Role)
    ensures
        forall|s: nat| s < 3 ==> writes_at(Role::Initiator, s) != writes_at(Role::Responder, s),
        after_step(advanced(advanced(start(role))))
            == ChannelView::Established(TransportView { role, send_nonce: 0, recv_nonce: 0 }),
        after_step(start(role)) == ChannelView::Handshaking(advanced(start(role))),
        after_step(advanced(start(role))) == ChannelView::Handshaking(advanced(advanced(start(role)))),
{
}

} // verus!

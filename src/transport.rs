//! The transport cipher: records sealed and opened under the keys of a
//! finished handshake, each direction with its own nonce counter.

use vstd::prelude::*;
use snow::StatelessTransportState;
use crate::error::ChannelError;
use crate::frame::{FramingError, MAX_PAYLOAD_LEN, MAX_RECORD_LEN, TAG_LEN};
use crate::handshake::Role;
use crate::noise::{open, seal};

verus! {

/// What a transport cipher is: the role it was made in, and the nonce each
/// direction will use next.
pub struct TransportView {
    pub role: Role,
    pub send_nonce: u64,
    pub recv_nonce: u64,
}

/// Both directions of an established session.
pub struct TransportCipher {
    role: Role,
    state: StatelessTransportState,
    send_nonce: u64,
    recv_nonce: u64,
}

impl View for TransportCipher {
    type V = TransportView;

    closed spec fn view(&self) -> TransportView {
        TransportView { role: self.role, send_nonce: self.send_nonce, recv_nonce: self.recv_nonce }
    }
}

/// The largest value a nonce counter can hold; it is never used as a nonce.
pub const NONCE_LIMIT: u64 = 0xffff_ffff_ffff_ffff;

impl TransportCipher {
    pub(crate) fn new(role: Role, state: StatelessTransportState) -> (r: TransportCipher)
        ensures
            r@ == (TransportView { role, send_nonce: 0, recv_nonce: 0 }),
    {
        TransportCipher { role, state, send_nonce: 0, recv_nonce: 0 }
    }

    /// The nonce the next sealed record will use.
    pub fn sending_nonce(&self) -> (r: u64)
        ensures
            r == self@.send_nonce,
    {
        self.send_nonce
    }

    /// The nonce the next opened record must have been sealed with.
    pub fn receiving_nonce(&self) -> (r: u64)
        ensures
            r == self@.recv_nonce,
    {
        self.recv_nonce
    }

    /// Seals `plaintext` under the sending key and the sending nonce, which
    /// then advances by one. Once the nonce has reached its limit every
    /// record is refused; below it, a payload over `MAX_PAYLOAD_LEN` bytes is
    /// refused; where the Noise state refuses to seal, the session is over
    /// (`Closed`). On any error the state is left as it was.
    pub fn encrypt(&mut self, plaintext: &[u8]) -> (r: Result<Vec<u8>, ChannelError>)
        ensures
            old(self)@.send_nonce == NONCE_LIMIT ==> r == Err::<Vec<u8>, ChannelError>(ChannelError::NonceExhausted),
            old(self)@.send_nonce < NONCE_LIMIT && plaintext@.len() > MAX_PAYLOAD_LEN
                ==> r == Err::<Vec<u8>, ChannelError>(ChannelError::FramingError(FramingError::Oversized)),
            plaintext@.len() <= MAX_PAYLOAD_LEN && old(self)@.send_nonce < NONCE_LIMIT && r is Err
                ==> r->Err_0 == ChannelError::Closed,
            match r {
                Ok(c) => plaintext@.len() <= MAX_PAYLOAD_LEN && old(self)@.send_nonce < NONCE_LIMIT
                    && c@.len() == plaintext@.len() + TAG_LEN
                    && sealed_one(old(self)@, final(self)@),
                Err(_) => final(self)@ == old(self)@,
            },
    {
        if self.send_nonce == NONCE_LIMIT {
            return Err(ChannelError::NonceExhausted);
        }
        if plaintext.len() > MAX_PAYLOAD_LEN {
            return Err(ChannelError::FramingError(FramingError::Oversized));
        }
        match seal(&self.state, self.send_nonce, plaintext, plaintext.len() + TAG_LEN) {
            Ok(c) => {
                self.send_nonce = self.send_nonce + 1;
                Ok(c)
            },
            Err(_) => Err(ChannelError::Closed),
        }
    }

    /// Opens a record sealed under the receiving key and the receiving
    /// nonce, which then advances by one. A record shorter than a tag or
    /// longer than a frame allows, and one whose tag does not verify, gives
    /// `DecryptError`; once the nonce has reached its limit every record is
    /// refused. On any error the state is left as it was.
    pub fn decrypt(&mut self, record: &[u8]) -> (r: Result<Vec<u8>, ChannelError>)
        ensures
            (record@.len() < TAG_LEN || record@.len() > MAX_RECORD_LEN)
                ==> r == Err::<Vec<u8>, ChannelError>(ChannelError::DecryptError),
            TAG_LEN <= record@.len() <= MAX_RECORD_LEN && old(self)@.recv_nonce == NONCE_LIMIT
                ==> r == Err::<Vec<u8>, ChannelError>(ChannelError::NonceExhausted),
            TAG_LEN <= record@.len() <= MAX_RECORD_LEN && old(self)@.recv_nonce < NONCE_LIMIT
                && r is Err ==> r->Err_0 == ChannelError::DecryptError,
            match r {
                Ok(p) => old(self)@.recv_nonce < NONCE_LIMIT && p@.len() + TAG_LEN == record@.len()
                    && opened_one(old(self)@, final(self)@),
                Err(_) => final(self)@ == old(self)@,
            },
    {
        if record.len() < TAG_LEN || record.len() > MAX_RECORD_LEN {
            return Err(ChannelError::DecryptError);
        }
        if self.recv_nonce == NONCE_LIMIT {
            return Err(ChannelError::NonceExhausted);
        }
        match open(&self.state, self.recv_nonce, record) {
            Ok(p) => {
                self.recv_nonce = self.recv_nonce + 1;
                Ok(p)
            },
            Err(_) => Err(ChannelError::DecryptError),
        }
    }
}

/// One record sealed: the sending nonce advanced by one, nothing else moved.
pub open spec fn sealed_one(before: TransportView, after: TransportView) -> bool {
    &&& after.send_nonce == before.send_nonce + 1
    &&& after.recv_nonce == before.recv_nonce
    &&& after.role == before.role
}

/// One record opened: the receiving nonce advanced by one, nothing else moved.
pub open spec fn opened_one(before: TransportView, after: TransportView) -> bool {
    &&& after.recv_nonce == before.recv_nonce + 1
    &&& after.send_nonce == before.send_nonce
    &&& after.role == before.role
}

proof fn lemma_sent_count(views: Seq<TransportView>, k: int)
    requires
        0 <= k < views.len(),
        forall|i: int| 0 <= i < views.len() - 1 ==> sealed_one(#[trigger] views[i], views[i + 1]),
    ensures
        views[k].send_nonce == views[0].send_nonce + k,
    decreases k,
{
    if k > 0 {
        lemma_sent_count(views, k - 1);
        assert(sealed_one(views[k - 1], views[k]));
    }
}

proof fn lemma_opened_count(views: Seq<TransportView>, k: int)
    requires
        0 <= k < views.len(),
        forall|i: int| 0 <= i < views.len() - 1 ==> opened_one(#[trigger] views[i], views[i + 1]),
    ensures
        views[k].recv_nonce == views[0].recv_nonce + k,
    decreases k,
{
    if k > 0 {
        lemma_opened_count(views, k - 1);
        assert(opened_one(views[k - 1], views[k]));
    }
}

/// Records sealed one after another on a fresh cipher take the nonces 0,
/// 1, 2, ... in order: the state before the k-th record holds nonce k.
pub proof fn lemma_send_nonces_in_order(views: Seq<TransportView>)
    requires
        views.len() > 0,
        views[0].send_nonce == 0,
        forall|k: int| 0 <= k < views.len() - 1 ==> sealed_one(#[trigger] views[k], views[k + 1]),
    ensures
        forall|k: int| 0 <= k < views.len() ==> #[trigger] views[k].send_nonce == k,
{
    assert forall|k: int| 0 <= k < views.len() implies #[trigger] views[k].send_nonce == k by {
        lemma_sent_count(views, k);
    }
}

/// Records opened one after another never share a nonce: the receiving
/// nonce after each record is above that of every earlier state, so a
/// record already taken is only ever tried again under a later nonce.
pub proof fn lemma_recv_nonces_never_repeat(views: Seq<TransportView>)
    requires
        forall|k: int| 0 <= k < views.len() - 1 ==> opened_one(#[trigger] views[k], views[k + 1]),
    ensures
        forall|j: int, k: int| 0 <= j < k < views.len() ==> #[trigger] views[j].recv_nonce < #[trigger] views[k].recv_nonce,
{
    assert forall|j: int, k: int| 0 <= j < k < views.len() implies #[trigger] views[j].recv_nonce < #[trigger] views[k].recv_nonce by {
        lemma_opened_count(views, j);
        lemma_opened_count(views, k);
    }
}

} // verus!

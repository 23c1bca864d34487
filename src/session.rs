//! The echo protocol over an established channel. The initiator sends
//! requests; the responder answers each with its transform, and answers the
//! sentinel with the sentinel, after which both ends close normally.

use vstd::prelude::*;
use crate::channel::{after_refusal, one_frame, receive_refusal, ChannelView, SecureChannel};
use crate::echo::{echo_reply, reply_closes, sentinel};
use crate::error::ChannelError;
use crate::frame::{FramingError, TAG_LEN};
use crate::transport::NONCE_LIMIT;

verus! {

/// One request served: the request's plaintext, the framed answer, and
/// whether the session ended with it.
pub struct Served {
    pub request: Vec<u8>,
    pub frame: Vec<u8>,
    pub done: bool,
}

/// The responder's answer to one request, sealed and framed, and whether the
/// session ended with it: exactly when the request is the sentinel. The
/// channel is then closed once the answer is sealed. Once the sending nonce
/// has reached its limit nothing can be sealed, and the channel fails. An
/// answer too large for a frame (a transform may take more bytes than its
/// request) is refused, and the channel stays as it was.
pub fn answer(ch: &mut SecureChannel, request: &[u8]) -> (r: Result<(Vec<u8>, bool), ChannelError>)
    requires
        old(ch).wf(),
        old(ch)@ is Established,
    ensures
        final(ch).wf(),
        old(ch)@->Established_0.send_nonce == NONCE_LIMIT
            ==> r == Err::<(Vec<u8>, bool), ChannelError>(ChannelError::NonceExhausted),
        match r {
            Ok((f, done)) => one_frame(f@) && done == (request@ == sentinel())
                && (done ==> final(ch)@ == ChannelView::Closed)
                && (!done ==> final(ch)@ is Established),
            Err(e) => (final(ch)@ == ChannelView::Failed
                && (e == ChannelError::NonceExhausted || e == ChannelError::Closed))
                || (e == ChannelError::FramingError(FramingError::Oversized) && final(ch)@ == old(ch)@),
        },
{
    let (reply, done) = echo_reply(request);
    match ch.send(reply.as_slice()) {
        Ok(f) => {
            if done {
                ch.close();
            }
            Ok((f, done))
        },
        Err(e) => Err(e),
    }
}

/// The responder's step: opens one record and answers it as `answer` does.
/// A record that `receive` refuses is refused here the same way.
pub fn serve_echo(ch: &mut SecureChannel, record: &[u8]) -> (r: Result<Served, ChannelError>)
    requires
        old(ch).wf(),
    ensures
        final(ch).wf(),
        receive_refusal(old(ch)@, record@) is Some
            ==> r == Err::<Served, ChannelError>(receive_refusal(old(ch)@, record@)->Some_0)
            && final(ch)@ == after_refusal(old(ch)@),
        receive_refusal(old(ch)@, record@) is None && old(ch)@->Established_0.send_nonce == NONCE_LIMIT
            ==> r is Err && final(ch)@ == ChannelView::Failed,
        receive_refusal(old(ch)@, record@) is None && r is Err ==> (final(ch)@ == ChannelView::Failed
            && (r->Err_0 == ChannelError::DecryptError || r->Err_0 == ChannelError::NonceExhausted
                || r->Err_0 == ChannelError::Closed))
            || (r->Err_0 == ChannelError::FramingError(FramingError::Oversized) && final(ch)@ is Established),
        match r {
            Ok(s) => old(ch)@ is Established && one_frame(s.frame@)
                && s.request@.len() + TAG_LEN == record@.len()
                && s.done == (s.request@ == sentinel())
                && (s.done ==> final(ch)@ == ChannelView::Closed)
                && (!s.done ==> final(ch)@ is Established),
            Err(e) => final(ch)@ == ChannelView::Failed || final(ch)@ == old(ch)@
                || (e == ChannelError::FramingError(FramingError::Oversized) && final(ch)@ is Established),
        },
{
    match ch.receive(record) {
        Ok(request) => {
            match answer(ch, request.as_slice()) {
                Ok((frame, done)) => Ok(Served { request, frame, done }),
                Err(e) => Err(e),
            }
        },
        Err(e) => Err(e),
    }
}

/// The initiator's step on a reply: opens the record and returns its
/// plaintext, and whether the session ended with it: exactly when the
/// reply is the sentinel, in which case the channel is closed. A record
/// that `receive` refuses is refused here the same way.
pub fn accept_reply(ch: &mut SecureChannel, record: &[u8]) -> (r: Result<(Vec<u8>, bool), ChannelError>)
    requires
        old(ch).wf(),
    ensures
        final(ch).wf(),
        receive_refusal(old(ch)@, record@) is Some
            ==> r == Err::<(Vec<u8>, bool), ChannelError>(receive_refusal(old(ch)@, record@)->Some_0)
            && final(ch)@ == after_refusal(old(ch)@),
        receive_refusal(old(ch)@, record@) is None && r is Err
            ==> r->Err_0 == ChannelError::DecryptError && final(ch)@ == ChannelView::Failed,
        match r {
            Ok((p, done)) => old(ch)@ is Established && p@.len() + TAG_LEN == record@.len()
                && done == (p@ == sentinel())
                && (done ==> final(ch)@ == ChannelView::Closed)
                && (!done ==> final(ch)@ is Established),
            Err(_) => final(ch)@ == ChannelView::Failed || final(ch)@ == old(ch)@,
        },
{
    match ch.receive(record) {
        Ok(p) => {
            let done = reply_closes(p.as_slice());
            if done {
                ch.close();
            }
            Ok((p, done))
        },
        Err(e) => Err(e),
    }
}

} // verus!

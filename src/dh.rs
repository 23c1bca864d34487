//! X25519 Diffie-Hellman: key pairs and shared secrets.

use vstd::prelude::*;
use curve25519_dalek::montgomery::MontgomeryPoint;
use crate::error::ChannelError;

verus! {

/// Clamping of a 32-byte secret into an X25519 scalar: the three low bits
/// of the first byte cleared, the top bit of the last byte cleared and the
/// bit below it set.
pub open spec fn clamp(secret: Seq<u8>) -> Seq<u8> {
    secret.update(0, secret[0] & 0xf8u8).update(31, (secret[31] & 0x7fu8) | 0x40u8)
}

/// The public key that X25519 derives from a clamped scalar: the base point
/// multiplied by it.
pub uninterp spec fn base_mul(scalar: Seq<u8>) -> Seq<u8>;

/// The X25519 product of a peer's public key and a clamped scalar.
pub uninterp spec fn shared_secret(peer: Seq<u8>, scalar: Seq<u8>) -> Seq<u8>;

/// Relies on curve25519_dalek's `MontgomeryPoint::mul_base_clamped`: the
/// base point multiplied by the secret after `clamp_integer`, a function of
/// the clamped scalar alone.
#[verifier::external_body]
fn mul_base_clamped(secret: [u8; 32]) -> (r: [u8; 32])
    ensures
        r@ == base_mul(clamp(secret@)),
{
    MontgomeryPoint::mul_base_clamped(secret).to_bytes()
}

/// Relies on curve25519_dalek's `MontgomeryPoint::mul_clamped`: the peer's
/// point multiplied by the local secret after `clamp_integer`, a function
/// of the point and the clamped scalar alone.
#[verifier::external_body]
fn mul_clamped(peer: [u8; 32], secret: [u8; 32]) -> (r: [u8; 32])
    ensures
        r@ == shared_secret(peer@, clamp(secret@)),
{
    MontgomeryPoint(peer).mul_clamped(secret).to_bytes()
}

/// An X25519 key pair.
pub struct Dh25519 {
    pub privkey: [u8; 32],
    pub pubkey: [u8; 32],
}

/// Bytes of an X25519 key, public or private.
pub const DH_LEN: usize = 32;

impl Dh25519 {
    /// The pair holds the public key of its secret.
    pub open spec fn wf(&self) -> bool {
        self.pubkey@ == base_mul(clamp(self.privkey@))
    }

    /// The key pair of a 32-byte secret.
    pub fn new(secret: [u8; 32]) -> (r: Dh25519)
        ensures
            r.privkey == secret,
            r.wf(),
    {
        Dh25519 { privkey: secret, pubkey: mul_base_clamped(secret) }
    }

    /// Sets the public key to the one derived from the secret.
    pub fn derive_pubkey(&mut self)
        ensures
            final(self).privkey == old(self).privkey,
            final(self).wf(),
    {
        self.pubkey = mul_base_clamped(self.privkey);
    }

    /// The name of the curve.
    pub fn name(&self) -> (r: &'static str)
        ensures
            r@ == "25519"@,
    {
        "25519"
    }

    /// Bytes of a public key.
    pub fn pub_len(&self) -> (r: usize)
        ensures
            r == DH_LEN,
    {
        DH_LEN
    }

    /// Bytes of a private key.
    pub fn priv_len(&self) -> (r: usize)
        ensures
            r == DH_LEN,
    {
        DH_LEN
    }

    /// Takes `privkey` as the secret and derives its public key. Key
    /// material of any length but 32 bytes is refused, and the pair is
    /// then left as it was.
    pub fn set(&mut self, privkey: &[u8]) -> (r: Result<(), ChannelError>)
        ensures
            privkey@.len() == DH_LEN ==> r is Ok && final(self).privkey@ == privkey@
                && final(self).wf(),
            privkey@.len() != DH_LEN ==> r == Err::<(), ChannelError>(ChannelError::KeyError)
                && *final(self) == *old(self),
    {
        if privkey.len() != DH_LEN {
            return Err(ChannelError::KeyError);
        }
        let mut bytes = [0u8; 32];
        let mut i: usize = 0;
        while i < DH_LEN
            invariant
                privkey@.len() == DH_LEN,
                i <= DH_LEN,
                forall|j: int| 0 <= j < i ==> bytes@[j] == privkey@[j],
            decreases DH_LEN - i,
        {
            bytes[i] = privkey[i];
            i += 1;
        }
        assert(bytes@ == privkey@);
        self.privkey = bytes;
        self.derive_pubkey();
        Ok(())
    }

    /// Takes 32 random bytes as the secret and derives its public key; the
    /// same bytes always give the same pair.
    pub fn generate(&mut self, random: [u8; 32])
        ensures
            final(self).privkey == random,
            final(self).wf(),
    {
        self.privkey = random;
        self.derive_pubkey();
    }

    /// The public key.
    pub fn pubkey(&self) -> (r: &[u8])
        ensures
            r@ == self.pubkey@,
    {
        self.pubkey.as_slice()
    }

    /// The secret.
    pub fn privkey(&self) -> (r: &[u8])
        ensures
            r@ == self.privkey@,
    {
        self.privkey.as_slice()
    }

    /// Writes to the first 32 bytes of `out` the secret shared with the
    /// holder of `pubkey`. A peer key of any length but 32 bytes is refused,
    /// and `out` is then left as it was.
    pub fn dh(&self, pubkey: &[u8], out: &mut [u8]) -> (r: Result<(), ChannelError>)
        requires
            old(out)@.len() >= DH_LEN,
        ensures
            final(out)@.len() == old(out)@.len(),
            pubkey@.len() == DH_LEN ==> r is Ok
                && final(out)@.subrange(0, 32) == shared_secret(pubkey@, clamp(self.privkey@))
                && final(out)@.subrange(32, final(out)@.len() as int)
                    == old(out)@.subrange(32, old(out)@.len() as int),
            pubkey@.len() != DH_LEN ==> r == Err::<(), ChannelError>(ChannelError::KeyError)
                && final(out)@ == old(out)@,
    {
        if pubkey.len() != DH_LEN {
            return Err(ChannelError::KeyError);
        }
        let mut peer = [0u8; 32];
        let mut i: usize = 0;
        while i < DH_LEN
            invariant
                pubkey@.len() == DH_LEN,
                i <= DH_LEN,
                forall|j: int| 0 <= j < i ==> peer@[j] == pubkey@[j],
            decreases DH_LEN - i,
        {
            peer[i] = pubkey[i];
            i += 1;
        }
        assert(peer@ == pubkey@);
        let shared = mul_clamped(peer, self.privkey);
        let ghost before = out@;
        let mut k: usize = 0;
        while k < DH_LEN
            invariant
                k <= DH_LEN,
                out@.len() == before.len(),
                before.len() >= DH_LEN,
                forall|j: int| 0 <= j < k ==> out@[j] == shared@[j],
                forall|j: int| k <= j < before.len() ==> out@[j] == before[j],
            decreases DH_LEN - k,
        {
            out[k] = shared[k];
            k += 1;
        }
        assert(out@.subrange(0, 32) == shared@);
        assert(out@.subrange(32, out@.len() as int) == before.subrange(32, before.len() as int));
        Ok(())
    }

    /// The secret shared with the holder of `pubkey`; a peer key of any
    /// length but 32 bytes is refused.
    pub fn compute_shared(&self, pubkey: &[u8]) -> (r: Result<[u8; 32], ChannelError>)
        ensures
            pubkey@.len() == DH_LEN ==> r is Ok && r->Ok_0@ == shared_secret(pubkey@, clamp(self.privkey@)),
            pubkey@.len() != DH_LEN ==> r == Err::<[u8; 32], ChannelError>(ChannelError::KeyError),
    {
        let mut out = [0u8; 32];
        match self.dh(pubkey, &mut out) {
            Ok(()) => {
                assert(out@ == out@.subrange(0, 32));
                Ok(out)
            },
            Err(e) => Err(e),
        }
    }
}

/// Two key pairs made from the same random bytes hold the same public key;
/// so do two whose secrets differ only in the bits that clamping fixes.
pub proof fn lemma_generate_deterministic(a: Dh25519, b: Dh25519)
    requires
        a.wf(),
        b.wf(),
        clamp(a.privkey@) == clamp(b.privkey@),
    ensures
        a.pubkey == b.pubkey,
{
    assert(a.pubkey@ == b.pubkey@);
    assert(a.pubkey =~= b.pubkey);
}

} // verus!

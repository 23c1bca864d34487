use noise_channel::dh::Dh25519;
use noise_channel::error::ChannelError;
use noise_channel::handshake::{secret_from_bytes, ChannelConfig};

fn hex32(s: &str) -> [u8; 32] {
    let mut out = [0u8; 32];
    for i in 0..32 {
        out[i] = u8::from_str_radix(&s[2 * i..2 * i + 2], 16).unwrap();
    }
    out
}

const ALICE_PRIV: &str = "77076d0a7318a57d3c16c17251b26645df4c2f87ebc0992ab177fba51db92c2a";
const ALICE_PUB: &str = "8520f0098930a754748b7ddcb43ef75a0dbf3a0d26381af4eba4a98eaa9b4e6a";
const BOB_PRIV: &str = "5dab087e624a8a4b79e17f8b83800ee66f3bb1292618b6fd1c2f8b27ff88e0eb";
const BOB_PUB: &str = "de9edb7d7b7dc1b4d35b61c2ece435373f8343c85b78674dadfc7e146f882b4f";
const SHARED: &str = "4a5d9d5ba4ce2de1728e3bf480350f25e07e21c947d19e3376f09b3c1e161742";

#[test]
fn dh_known_public_keys() {
    let alice = Dh25519::new(hex32(ALICE_PRIV));
    let bob = Dh25519::new(hex32(BOB_PRIV));
    assert_eq!(alice.pubkey(), &hex32(ALICE_PUB)[..]);
    assert_eq!(bob.pubkey(), &hex32(BOB_PUB)[..]);
    assert_ne!(alice.pubkey(), alice.privkey());
}

#[test]
fn dh_known_shared_secret() {
    let alice = Dh25519::new(hex32(ALICE_PRIV));
    let bob = Dh25519::new(hex32(BOB_PRIV));
    let ab = alice.compute_shared(bob.pubkey()).unwrap();
    let ba = bob.compute_shared(alice.pubkey()).unwrap();
    assert_eq!(ab, hex32(SHARED));
    assert_eq!(ba, hex32(SHARED));
    assert_ne!(&ab[..], bob.pubkey());
}

#[test]
fn dh_symmetry_random_pairs() {
    let config = ChannelConfig::new([9u8; 32]);
    for _ in 0..8 {
        let a = Dh25519::new(config.random_secret().unwrap());
        let b = Dh25519::new(config.random_secret().unwrap());
        assert_eq!(
            a.compute_shared(b.pubkey()).unwrap(),
            b.compute_shared(a.pubkey()).unwrap()
        );
    }
}

#[test]
fn dh_generate_is_deterministic() {
    let bytes = hex32(BOB_PRIV);
    let mut a = Dh25519::new([0u8; 32]);
    let mut b = Dh25519::new([1u8; 32]);
    a.generate(bytes);
    b.generate(bytes);
    assert_eq!(a.pubkey(), b.pubkey());
    assert_eq!(a.pubkey(), &hex32(BOB_PUB)[..]);
}

#[test]
fn dh_set_and_lengths() {
    let mut k = Dh25519::new([0u8; 32]);
    assert_eq!(k.set(&hex32(ALICE_PRIV)), Ok(()));
    assert_eq!(k.pubkey(), &hex32(ALICE_PUB)[..]);
    assert_eq!(k.privkey(), &hex32(ALICE_PRIV)[..]);
    assert_eq!(k.name(), "25519");
    assert_eq!(k.pub_len(), 32);
    assert_eq!(k.priv_len(), 32);
    k.privkey = hex32(BOB_PRIV);
    k.derive_pubkey();
    assert_eq!(k.pubkey(), &hex32(BOB_PUB)[..]);
}

#[test]
fn dh_wrong_key_length() {
    let mut k = Dh25519::new(hex32(ALICE_PRIV));
    assert_eq!(k.set(&[1u8; 31]), Err(ChannelError::KeyError));
    assert_eq!(k.pubkey(), &hex32(ALICE_PUB)[..]);
    assert_eq!(k.compute_shared(&[1u8; 33]), Err(ChannelError::KeyError));
    let mut out = [5u8; 40];
    assert_eq!(k.dh(&[1u8; 31], &mut out), Err(ChannelError::KeyError));
    assert_eq!(out, [5u8; 40]);
    assert_eq!(k.dh(&hex32(BOB_PUB), &mut out), Ok(()));
    assert_eq!(&out[..32], &hex32(SHARED)[..]);
    assert_eq!(&out[32..], &[5u8; 8][..]);
}

#[test]
fn dh_clamped_bits_ignored() {
    let base = hex32(ALICE_PRIV);
    let mut other = base;
    other[0] ^= 0b0000_0111;
    other[31] ^= 0b1100_0000;
    let a = Dh25519::new(base);
    let b = Dh25519::new(other);
    assert_eq!(a.pubkey(), b.pubkey());
    assert_eq!(a.compute_shared(&hex32(BOB_PUB)).unwrap(), b.compute_shared(&hex32(BOB_PUB)).unwrap());
}

#[test]
fn secret_from_key_material() {
    let bytes: Vec<u8> = (0..32u8).collect();
    let s = secret_from_bytes(&bytes).unwrap();
    assert_eq!(s.to_vec(), bytes);
    assert_eq!(secret_from_bytes(&vec![1u8; 31]), Err(ChannelError::KeyError));
    assert_eq!(secret_from_bytes(&vec![1u8; 33]), Err(ChannelError::KeyError));
    let config = ChannelConfig::new([0u8; 32]);
    assert_ne!(config.random_secret().unwrap(), config.random_secret().unwrap());
}

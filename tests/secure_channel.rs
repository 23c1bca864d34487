use noise_channel::channel::SecureChannel;
use noise_channel::dh::Dh25519;
use noise_channel::error::{ChannelError, HandshakeFailure};
use noise_channel::frame::{decode_frame, FramingError};
use noise_channel::handshake::{ChannelConfig, HandshakeEngine, HandshakeStatus, Role};
use noise_channel::session::{accept_reply, answer, serve_echo};

const PSK: [u8; 32] = *b"Random 32 characters long secret";

fn party(role: Role, config: &ChannelConfig) -> SecureChannel {
    let keys = Dh25519::new(config.random_secret().unwrap());
    SecureChannel::new(role, &keys, config).unwrap()
}

fn unframe(frame: &[u8]) -> Vec<u8> {
    let (record, used) = decode_frame(frame).unwrap();
    assert_eq!(used, frame.len());
    record
}

fn established_pair() -> (SecureChannel, SecureChannel) {
    let config = ChannelConfig::new(PSK);
    let mut client = party(Role::Initiator, &config);
    let mut server = party(Role::Responder, &config);
    let m1 = client.handshake_output().unwrap();
    server.handshake_input(&unframe(&m1)).unwrap();
    let m2 = server.handshake_output().unwrap();
    client.handshake_input(&unframe(&m2)).unwrap();
    let m3 = client.handshake_output().unwrap();
    server.handshake_input(&unframe(&m3)).unwrap();
    (client, server)
}

#[test]
fn handshake_completes_with_cross_compatible_keys() {
    let (mut client, mut server) = established_pair();
    assert!(client.is_established());
    assert!(server.is_established());
    let f = client.send(b"ping").unwrap();
    assert_eq!(server.receive(&unframe(&f)).unwrap(), b"ping".to_vec());
    let g = server.send(b"pong").unwrap();
    assert_eq!(client.receive(&unframe(&g)).unwrap(), b"pong".to_vec());
}

#[test]
fn handshake_message_lengths() {
    let config = ChannelConfig::new(PSK);
    let mut client = party(Role::Initiator, &config);
    let mut server = party(Role::Responder, &config);
    let m1 = unframe(&client.handshake_output().unwrap());
    assert_eq!(m1.len(), 48);
    server.handshake_input(&m1).unwrap();
    let m2 = unframe(&server.handshake_output().unwrap());
    assert_eq!(m2.len(), 96);
    client.handshake_input(&m2).unwrap();
    let m3 = unframe(&client.handshake_output().unwrap());
    assert_eq!(m3.len(), 64);
    server.handshake_input(&m3).unwrap();
    assert!(server.is_established());
}

#[test]
fn handshake_engine_steps() {
    let config = ChannelConfig::new(PSK);
    let ik = Dh25519::new(config.random_secret().unwrap());
    let rk = Dh25519::new(config.random_secret().unwrap());
    let mut i = HandshakeEngine::new(Role::Initiator, &ik, &config).unwrap();
    let mut r = HandshakeEngine::new(Role::Responder, &rk, &config).unwrap();
    assert_eq!(i.role(), Role::Initiator);
    assert!(i.is_my_turn());
    assert!(!r.is_my_turn());
    r.read_message(&i.write_message().unwrap()).unwrap();
    i.read_message(&r.write_message().unwrap()).unwrap();
    r.read_message(&i.write_message().unwrap()).unwrap();
    assert_eq!(i.status(), HandshakeStatus::TransportReady);
    assert_eq!(r.status(), HandshakeStatus::TransportReady);
    assert_eq!(i.step(), 3);
    let mut it = i.into_transport().unwrap();
    let mut rt = r.into_transport().unwrap();
    assert_eq!(it.sending_nonce(), 0);
    let c = it.encrypt(b"attack at dawn").unwrap();
    assert_eq!(c.len(), 30);
    assert_ne!(&c[..14], b"attack at dawn");
    assert_eq!(it.sending_nonce(), 1);
    assert_eq!(rt.decrypt(&c).unwrap(), b"attack at dawn".to_vec());
    assert_eq!(rt.receiving_nonce(), 1);
}

#[test]
fn handshake_with_different_psk_fails() {
    let mut client = party(Role::Initiator, &ChannelConfig::new(PSK));
    let mut server = party(Role::Responder, &ChannelConfig::new([1u8; 32]));
    let m1 = client.handshake_output().unwrap();
    server.handshake_input(&unframe(&m1)).unwrap();
    let m2 = server.handshake_output().unwrap();
    client.handshake_input(&unframe(&m2)).unwrap();
    let m3 = client.handshake_output().unwrap();
    let r = server.handshake_input(&unframe(&m3));
    assert_eq!(r, Err(ChannelError::HandshakeError { step: 2, cause: HandshakeFailure::Rejected }));
    assert!(server.is_failed());
    assert!(!server.is_established());
}

#[test]
fn handshake_out_of_order_fails() {
    let config = ChannelConfig::new(PSK);
    let mut server = party(Role::Responder, &config);
    assert_eq!(
        server.handshake_output(),
        Err(ChannelError::HandshakeError { step: 0, cause: HandshakeFailure::OutOfOrder })
    );
    assert!(server.is_failed());
    assert_eq!(server.handshake_output(), Err(ChannelError::Closed));
    let mut client = party(Role::Initiator, &config);
    assert_eq!(
        client.send(b"too early"),
        Err(ChannelError::HandshakeError { step: 0, cause: HandshakeFailure::OutOfOrder })
    );
}

#[test]
fn handshake_wrong_length_fails() {
    let config = ChannelConfig::new(PSK);
    let mut client = party(Role::Initiator, &config);
    let mut server = party(Role::Responder, &config);
    let mut m1 = unframe(&client.handshake_output().unwrap());
    m1.push(0);
    assert_eq!(
        server.handshake_input(&m1),
        Err(ChannelError::HandshakeError { step: 0, cause: HandshakeFailure::WrongLength })
    );
    assert!(server.is_failed());
}

#[test]
fn handshake_tamper_rejected() {
    let config = ChannelConfig::new(PSK);
    for step in 0..3usize {
        for bit in [0usize, 7, 300, 383] {
            let mut client = party(Role::Initiator, &config);
            let mut server = party(Role::Responder, &config);
            let mut msgs = Vec::new();
            let mut failed = false;
            for k in 0..3usize {
                let (from, to) = if k == 1 { (&mut server, &mut client) } else { (&mut client, &mut server) };
                let mut m = unframe(&from.handshake_output().unwrap());
                if k == step {
                    let b = bit % (m.len() * 8);
                    m[b / 8] ^= 1 << (b % 8);
                    let r = to.handshake_input(&m);
                    assert_eq!(
                        r,
                        Err(ChannelError::HandshakeError { step: k as u8, cause: HandshakeFailure::Rejected })
                    );
                    failed = true;
                    break;
                }
                to.handshake_input(&m).unwrap();
                msgs.push(m);
            }
            assert!(failed);
        }
    }
}

#[test]
fn transport_tamper_rejected() {
    let (mut client, mut server) = established_pair();
    let record = unframe(&client.send(b"attack at dawn").unwrap());
    for bit in 0..record.len() * 8 {
        let (mut c2, mut s2) = established_pair();
        let mut r = unframe(&c2.send(b"attack at dawn").unwrap());
        r[bit / 8] ^= 1 << (bit % 8);
        assert_eq!(s2.receive(&r), Err(ChannelError::DecryptError));
        assert!(s2.is_failed());
        if bit > 40 {
            break;
        }
    }
    assert_eq!(server.receive(&record).unwrap(), b"attack at dawn".to_vec());
    let _ = &mut client;
}

#[test]
fn transport_nonces_in_order_and_replay_rejected() {
    let config = ChannelConfig::new(PSK);
    let ik = Dh25519::new(config.random_secret().unwrap());
    let rk = Dh25519::new(config.random_secret().unwrap());
    let mut i = HandshakeEngine::new(Role::Initiator, &ik, &config).unwrap();
    let mut r = HandshakeEngine::new(Role::Responder, &rk, &config).unwrap();
    r.read_message(&i.write_message().unwrap()).unwrap();
    i.read_message(&r.write_message().unwrap()).unwrap();
    r.read_message(&i.write_message().unwrap()).unwrap();
    let mut it = i.into_transport().unwrap();
    let mut rt = r.into_transport().unwrap();
    let mut sent = Vec::new();
    for n in 0..5u64 {
        assert_eq!(it.sending_nonce(), n);
        sent.push(it.encrypt(format!("message {}", n).as_bytes()).unwrap());
    }
    assert_eq!(it.sending_nonce(), 5);
    for (n, c) in sent.iter().enumerate() {
        assert_eq!(rt.receiving_nonce(), n as u64);
        assert_eq!(rt.decrypt(c).unwrap(), format!("message {}", n).into_bytes());
    }
    assert_eq!(rt.decrypt(&sent[4]), Err(ChannelError::DecryptError));
    assert_eq!(rt.receiving_nonce(), 5);
    assert_eq!(rt.decrypt(&sent[0]), Err(ChannelError::DecryptError));
    assert_eq!(rt.decrypt(&[0u8; 15]), Err(ChannelError::DecryptError));
}

#[test]
fn transport_oversized_is_recoverable() {
    let (mut client, mut server) = established_pair();
    let big = vec![0u8; 65520];
    assert_eq!(client.send(&big), Err(ChannelError::FramingError(FramingError::Oversized)));
    assert!(client.is_established());
    let largest = vec![3u8; 65519];
    let f = client.send(&largest).unwrap();
    assert_eq!(f.len(), 65537);
    assert_eq!(server.receive(&unframe(&f)).unwrap(), largest);
}

#[test]
fn sentinel_closes_both_ends() {
    let (mut client, mut server) = established_pair();
    let req = client.send(b"Hi01!").unwrap();
    let served = serve_echo(&mut server, &unframe(&req)).unwrap();
    assert_eq!(served.request, b"Hi01!".to_vec());
    assert!(!served.done);
    let (text, closed) = accept_reply(&mut client, &unframe(&served.frame)).unwrap();
    assert_eq!(text, b"hI10!".to_vec());
    assert!(!closed);

    let req = client.send(b"exit").unwrap();
    let served = serve_echo(&mut server, &unframe(&req)).unwrap();
    assert!(served.done);
    assert!(server.is_closed());
    let (text, closed) = accept_reply(&mut client, &unframe(&served.frame)).unwrap();
    assert_eq!(text, b"exit".to_vec());
    assert!(closed);
    assert!(client.is_closed());
    assert!(!client.is_failed());
    assert_eq!(client.send(b"more"), Err(ChannelError::Closed));
    assert_eq!(server.receive(b"anything at all"), Err(ChannelError::Closed));
}

#[test]
fn answer_upper_case_exit_is_not_sentinel() {
    let (mut client, mut server) = established_pair();
    let (reply, done) = answer(&mut server, b"EXIT").unwrap();
    assert!(!done);
    let (text, closed) = accept_reply(&mut client, &unframe(&reply)).unwrap();
    assert_eq!(text, b"exit".to_vec());
    assert!(closed);
}

#[test]
fn serve_echo_refusals() {
    let (mut client, mut server) = established_pair();
    assert_eq!(serve_echo(&mut server, &[0u8; 15]).err(), Some(ChannelError::DecryptError));
    assert!(server.is_failed());
    assert_eq!(serve_echo(&mut server, &[0u8; 20]).err(), Some(ChannelError::Closed));
    assert_eq!(accept_reply(&mut client, &[0u8; 20]), Err(ChannelError::DecryptError));
    let config = ChannelConfig::new(PSK);
    let mut fresh = party(Role::Responder, &config);
    assert_eq!(
        serve_echo(&mut fresh, &[0u8; 20]).err(),
        Some(ChannelError::HandshakeError { step: 0, cause: HandshakeFailure::OutOfOrder })
    );
    assert!(fresh.is_failed());
}

#[test]
fn handshake_call_after_establishment_fails() {
    let (mut client, _server) = established_pair();
    assert_eq!(
        client.handshake_output(),
        Err(ChannelError::HandshakeError { step: 3, cause: HandshakeFailure::OutOfOrder })
    );
    assert!(client.is_failed());
}

#[test]
fn unicode_echo_over_channel() {
    let (mut client, mut server) = established_pair();
    let req = client.send("Ⱥé".as_bytes()).unwrap();
    let served = serve_echo(&mut server, &unframe(&req)).unwrap();
    let (text, closed) = accept_reply(&mut client, &unframe(&served.frame)).unwrap();
    assert_eq!(String::from_utf8(text).unwrap(), "ⱥÉ");
    assert!(!closed);
}

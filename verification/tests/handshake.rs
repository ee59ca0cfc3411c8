use ductile::frame::{decrypt_frame_body, decrypt_frame_len, encrypt_buffer};
use ductile::handshake::{check_magic, magic_challenge, Handshake, MAGIC, PLAIN_KEY, PLAIN_NONCE};
use ductile::{ChannelError, StreamCipher};

fn exchange(a: Handshake, b: Handshake, a_sent: Vec<u8>, b_sent: Vec<u8>) -> (Handshake, Handshake) {
    let (mut a, mut b) = (a, b);
    let (mut a_out, mut b_out) = (Some(a_sent), Some(b_sent));
    while a_out.is_some() || b_out.is_some() {
        let a_next = match b_out.take() {
            Some(bytes) => {
                let (next, reply) = a.receive(bytes);
                a = next;
                reply.map(|x| x.send)
            }
            None => None,
        };
        let b_next = match a_out.take() {
            Some(bytes) => {
                let (next, reply) = b.receive(bytes);
                b = next;
                reply.map(|x| x.send)
            }
            None => None,
        };
        a_out = a_next;
        b_out = b_next;
    }
    (a, b)
}

#[test]
fn magic_constant_and_bytes() {
    assert_eq!(MAGIC, 0x69421997);
    let mut enc = StreamCipher::new(PLAIN_KEY, PLAIN_NONCE);
    let mut challenge = magic_challenge(&mut enc);
    let mut dec = StreamCipher::new(PLAIN_KEY, PLAIN_NONCE);
    dec.apply_keystream(&mut challenge);
    assert_eq!(challenge, vec![0x97, 0x19, 0x42, 0x69]);
    assert_eq!(&PLAIN_KEY, b"task-maker's the best thing ever");
    assert_eq!(&PLAIN_NONCE, b"task-maker!!");
}

#[test]
fn check_magic_accepts_own_challenge() {
    let mut enc = StreamCipher::new([7u8; 32], [3u8; 12]);
    let mut dec = StreamCipher::new([7u8; 32], [3u8; 12]);
    let challenge = magic_challenge(&mut enc);
    assert_eq!(check_magic(challenge, &mut dec), Ok(()));
    assert_eq!(dec.position(), 4);
}

#[test]
fn check_magic_rejects_other_key() {
    let mut enc = StreamCipher::new([42u8; 32], [3u8; 12]);
    let mut dec = StreamCipher::new([69u8; 32], [3u8; 12]);
    let challenge = magic_challenge(&mut enc);
    assert_eq!(check_magic(challenge, &mut dec), Err(ChannelError::WrongEncryptionKey));
    assert_eq!(dec.position(), 4);
}

#[test]
fn encrypted_handshake_with_same_key_completes() {
    let key = [42u8; 32];
    let (a, xa) = Handshake::start_encrypted(key, [1u8; 12]);
    let (b, xb) = Handshake::start_encrypted(key, [2u8; 12]);
    assert_eq!(xa.send, vec![1u8; 12]);
    assert_eq!(xa.expect, 12);
    assert_eq!(xb.expect, 12);
    let (a, b) = exchange(a, b, xa.send, xb.send);
    assert!(a.is_established());
    assert!(b.is_established());
    let (mut a_enc, mut a_dec) = a.into_session().unwrap();
    let (mut b_enc, mut b_dec) = b.into_session().unwrap();
    assert_eq!(a_enc.position(), 4);
    assert_eq!(b_dec.position(), 4);

    let sealed = encrypt_buffer(vec![1u8, 2, 3, 4], &mut a_enc);
    let len = decrypt_frame_len(sealed[..4].to_vec(), &mut b_dec);
    assert_eq!(len, 4);
    assert_eq!(decrypt_frame_body(sealed[4..].to_vec(), &mut b_dec), vec![1, 2, 3, 4]);

    let sealed = encrypt_buffer(vec![5u8, 6, 7, 8], &mut b_enc);
    let len = decrypt_frame_len(sealed[..4].to_vec(), &mut a_dec);
    assert_eq!(len, 4);
    assert_eq!(decrypt_frame_body(sealed[4..].to_vec(), &mut a_dec), vec![5, 6, 7, 8]);
}

#[test]
fn encrypted_handshake_with_wrong_key_is_rejected() {
    let (a, xa) = Handshake::start_encrypted([42u8; 32], [1u8; 12]);
    let (b, xb) = Handshake::start_encrypted([69u8; 32], [2u8; 12]);
    let (a, b) = exchange(a, b, xa.send, xb.send);
    assert!(!a.is_established());
    assert!(!b.is_established());
    assert!(a.into_session().is_none());
    assert!(matches!(b, Handshake::Rejected));
}

#[test]
fn plain_handshake_completes() {
    let (a, xa) = Handshake::start_plain();
    let (b, xb) = Handshake::start_plain();
    assert_eq!(xa.expect, 4);
    assert_eq!(xa.send, xb.send);
    let (a, b) = exchange(a, b, xa.send, xb.send);
    assert!(a.is_established());
    assert!(b.is_established());
}

#[test]
fn plain_end_rejects_encrypted_magic() {
    let key = [42u8; 32];
    let (plain, _) = Handshake::start_plain();
    let (enc, _) = Handshake::start_encrypted(key, [1u8; 12]);
    let (_, reply) = enc.receive(vec![2u8; 12]);
    let challenge = reply.unwrap().send;
    let (plain, out) = plain.receive(challenge);
    assert!(out.is_none());
    assert!(matches!(plain, Handshake::Rejected));
}

#[test]
fn random_handshake_sends_its_nonce() {
    let (h, x) = Handshake::start_encrypted_random([5u8; 32]).unwrap();
    assert_eq!(x.send.len(), 12);
    assert_eq!(x.expect, 12);
    match h {
        Handshake::AwaitNonce { key, local_nonce } => {
            assert_eq!(key, [5u8; 32]);
            assert_eq!(local_nonce.to_vec(), x.send);
        }
        _ => panic!("expected a handshake that awaits the peer's nonce"),
    }
}

#[test]
fn fresh_nonces_differ() {
    let (_, a) = Handshake::start_encrypted_random([5u8; 32]).unwrap();
    let (_, b) = Handshake::start_encrypted_random([5u8; 32]).unwrap();
    assert_ne!(a.send, b.send);
}

#[test]
fn finished_handshake_ignores_input() {
    let (h, _) = Handshake::start_plain();
    let (_, x) = Handshake::start_plain();
    let (h, _) = h.receive(x.send);
    assert!(h.is_established());
    let (h, out) = h.receive(Vec::new());
    assert!(h.is_established());
    assert!(out.is_none());
}

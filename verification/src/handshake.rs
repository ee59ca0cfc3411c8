use crate::cipher::{lemma_apply_involution, CipherState, StreamCipher};
use crate::frame::{lemma_stream_roundtrip, opened_stream, sealed_stream};
use crate::local::copy_bytes;
use crate::message::ChannelError;
use rand::rngs::OsRng;
use rand::RngCore;
use vstd::bytes::{
    lemma_auto_spec_u32_to_from_le_bytes, spec_u32_from_le_bytes, spec_u32_to_le_bytes,
    u32_from_le_bytes, u32_to_le_bytes,
};
use vstd::prelude::*;

verus! {

/// A constant that both ends encrypt and check during the handshake.
pub const MAGIC: u32 = 0x69421997;

/// The key of the handshake of unencrypted channels.
pub const PLAIN_KEY: [u8; 32] = [
    116, 97, 115, 107, 45, 109, 97, 107, 101, 114, 39, 115, 32, 116, 104, 101,
    32, 98, 101, 115, 116, 32, 116, 104, 105, 110, 103, 32, 101, 118, 101, 114,
];

/// The nonce of the handshake of unencrypted channels.
pub const PLAIN_NONCE: [u8; 12] = [116, 97, 115, 107, 45, 109, 97, 107, 101, 114, 33, 33];

/// The little-endian bytes of `MAGIC`.
pub open spec fn magic_bytes() -> Seq<u8> {
    spec_u32_to_le_bytes(MAGIC)
}

/// Whether the 4 bytes `reply`, decrypted by a cipher in state `s`, are
/// `MAGIC`.
pub open spec fn magic_matches(s: CipherState, reply: Seq<u8>) -> bool {
    spec_u32_from_le_bytes(s.apply(reply)) == MAGIC
}

/// The state in which both ciphers of an unencrypted channel's handshake
/// start.
pub open spec fn plain_state() -> CipherState {
    CipherState { key: PLAIN_KEY@, nonce: PLAIN_NONCE@, position: 0 }
}

/// Encrypts `MAGIC`: the bytes that prove to the peer that we hold the key.
pub fn magic_challenge(encryptor: &mut StreamCipher) -> (challenge: Vec<u8>)
    requires
        old(encryptor)@.has_room(4),
    ensures
        challenge@ == old(encryptor)@.apply(magic_bytes()),
        challenge@ == old(encryptor)@.apply(spec_u32_to_le_bytes(MAGIC)),
        challenge@.len() == 4,
        final(encryptor)@ == old(encryptor)@.advance(4),
{
    let mut magic = u32_to_le_bytes(MAGIC);
    encryptor.apply_keystream(&mut magic);
    magic
}

/// Decrypts the peer's 4 handshake bytes and checks that they are `MAGIC`,
/// that is, that the peer holds the same key.
pub fn check_magic(reply: Vec<u8>, decryptor: &mut StreamCipher) -> (r: Result<(), ChannelError>)
    requires
        reply@.len() == 4,
        old(decryptor)@.has_room(4),
    ensures
        r is Ok <==> magic_matches(old(decryptor)@, reply@),
        r is Ok <==> spec_u32_from_le_bytes(old(decryptor)@.apply(reply@)) == MAGIC,
        r is Err ==> r == Err::<(), ChannelError>(ChannelError::WrongEncryptionKey),
        final(decryptor)@ == old(decryptor)@.advance(4),
{
    let mut reply = reply;
    decryptor.apply_keystream(&mut reply);
    let magic = u32_from_le_bytes(reply.as_slice());
    if magic != MAGIC {
        Err(ChannelError::WrongEncryptionKey)
    } else {
        Ok(())
    }
}

/// Twelve bytes from the operating system's secure random source.
///
/// Calls `rand_core::RngCore::fill_bytes` on `OsRng` (re-exported by `rand`),
/// which panics when the operating system's source fails, as the nonce
/// exchange of this protocol always did. The bytes are random: nothing is
/// claimed of them.
#[verifier::external_body]
fn os_random_nonce() -> (nonce: [u8; 12]) {
    let mut nonce = [0u8; 12];
    OsRng.fill_bytes(&mut nonce);
    nonce
}

/// The twelve bytes of `bytes` as an array.
fn nonce_from_bytes(bytes: &Vec<u8>) -> (nonce: [u8; 12])
    requires
        bytes@.len() == 12,
    ensures
        nonce@ == bytes@,
{
    let nonce = [
        bytes[0], bytes[1], bytes[2], bytes[3], bytes[4], bytes[5],
        bytes[6], bytes[7], bytes[8], bytes[9], bytes[10], bytes[11],
    ];
    assert(nonce@ =~= bytes@);
    nonce
}

/// Where one end of a connection stands in the handshake.
///
/// Unencrypted channels start in `AwaitMagic` with the fixed key and nonce;
/// encrypted ones first send their own random nonce and wait for the peer's.
/// Either way each end then sends `MAGIC` encrypted and checks the peer's.
pub enum Handshake {
    /// Our nonce was sent; the peer's (12 bytes) is awaited.
    AwaitNonce { key: [u8; 32], local_nonce: [u8; 12] },
    /// Our encrypted magic was sent; the peer's (4 bytes) is awaited.
    AwaitMagic { encryptor: StreamCipher, decryptor: StreamCipher },
    /// The handshake completed: the ciphers of the two directions.
    Established { encryptor: StreamCipher, decryptor: StreamCipher },
    /// The peer's magic did not decrypt to `MAGIC`: it holds another key, or
    /// none.
    Rejected,
}

/// The mathematical model of `Handshake`.
pub enum HandshakeView {
    AwaitNonce { key: Seq<u8>, local_nonce: Seq<u8> },
    AwaitMagic { encryptor: CipherState, decryptor: CipherState },
    Established { encryptor: CipherState, decryptor: CipherState },
    Rejected,
}

impl View for Handshake {
    type V = HandshakeView;

    open spec fn view(&self) -> HandshakeView {
        match self {
            Handshake::AwaitNonce { key, local_nonce } => HandshakeView::AwaitNonce {
                key: key@,
                local_nonce: local_nonce@,
            },
            Handshake::AwaitMagic { encryptor, decryptor } => HandshakeView::AwaitMagic {
                encryptor: encryptor@,
                decryptor: decryptor@,
            },
            Handshake::Established { encryptor, decryptor } => HandshakeView::Established {
                encryptor: encryptor@,
                decryptor: decryptor@,
            },
            Handshake::Rejected => HandshakeView::Rejected,
        }
    }
}

/// What one end must do next: write and flush `send`, then read exactly
/// `expect` bytes from the peer and hand them to `Handshake::receive`.
pub struct Exchange {
    pub send: Vec<u8>,
    pub expect: usize,
}

/// How many bytes the handshake in state `h` waits for.
pub open spec fn expected_len(h: HandshakeView) -> nat {
    match h {
        HandshakeView::AwaitNonce { .. } => 12,
        HandshakeView::AwaitMagic { .. } => 4,
        _ => 0,
    }
}

/// Every state the handshake can reach: a cipher that awaits the peer's magic
/// has room for it.
pub open spec fn handshake_wf(h: HandshakeView) -> bool {
    match h {
        HandshakeView::AwaitMagic { decryptor, .. } => decryptor.has_room(4),
        _ => true,
    }
}

/// The state in which an unencrypted channel's handshake starts.
pub open spec fn plain_start() -> HandshakeView {
    HandshakeView::AwaitMagic { encryptor: plain_state().advance(4), decryptor: plain_state() }
}

/// The bytes that an unencrypted channel's handshake sends first.
pub open spec fn plain_opening() -> Seq<u8> {
    plain_state().apply(magic_bytes())
}

/// The state that the handshake in state `h` moves to on `input`.
pub open spec fn next_state(h: HandshakeView, input: Seq<u8>) -> HandshakeView {
    match h {
        HandshakeView::AwaitNonce { key, local_nonce } => {
            let encryptor = CipherState { key, nonce: local_nonce, position: 0 };
            let decryptor = CipherState { key, nonce: input, position: 0 };
            HandshakeView::AwaitMagic { encryptor: encryptor.advance(4), decryptor }
        },
        HandshakeView::AwaitMagic { encryptor, decryptor } => {
            if magic_matches(decryptor, input) {
                HandshakeView::Established { encryptor, decryptor: decryptor.advance(4) }
            } else {
                HandshakeView::Rejected
            }
        },
        _ => h,
    }
}

/// What the handshake in state `h` sends on `input`, if anything.
pub open spec fn next_message(h: HandshakeView, input: Seq<u8>) -> Option<Seq<u8>> {
    match h {
        HandshakeView::AwaitNonce { key, local_nonce } => Some(
            CipherState { key, nonce: local_nonce, position: 0 }.apply(magic_bytes()),
        ),
        _ => None,
    }
}

impl Handshake {
    /// Starts the handshake of an unencrypted channel: both directions use a
    /// fixed key and nonce, and only the magic goes through them.
    pub fn start_plain() -> (r: (Handshake, Exchange))
        ensures
            handshake_wf(r.0@),
            r.0@ == plain_start(),
            r.0@ == (HandshakeView::AwaitMagic {
                encryptor: CipherState { key: PLAIN_KEY@, nonce: PLAIN_NONCE@, position: 4 },
                decryptor: CipherState { key: PLAIN_KEY@, nonce: PLAIN_NONCE@, position: 0 },
            }),
            r.1.send@ == plain_opening(),
            r.1.send@ == (CipherState { key: PLAIN_KEY@, nonce: PLAIN_NONCE@, position: 0 }).apply(
                spec_u32_to_le_bytes(MAGIC),
            ),
            spec_u32_from_le_bytes(
                (CipherState { key: PLAIN_KEY@, nonce: PLAIN_NONCE@, position: 0 }).apply(
                    r.1.send@,
                ),
            ) == MAGIC,
            r.1.send@.len() == 4,
            r.1.expect == expected_len(r.0@),
    {
        let mut encryptor = StreamCipher::new(PLAIN_KEY, PLAIN_NONCE);
        let decryptor = StreamCipher::new(PLAIN_KEY, PLAIN_NONCE);
        let challenge = magic_challenge(&mut encryptor);
        proof {
            lemma_own_magic_matches(plain_state());
        }
        (Handshake::AwaitMagic { encryptor, decryptor }, Exchange { send: challenge, expect: 4 })
    }

    /// Starts the handshake of an encrypted channel with our nonce
    /// `local_nonce`, which is sent in the clear.
    pub fn start_encrypted(key: [u8; 32], local_nonce: [u8; 12]) -> (r: (Handshake, Exchange))
        ensures
            handshake_wf(r.0@),
            r.0@ == (HandshakeView::AwaitNonce { key: key@, local_nonce: local_nonce@ }),
            r.1.send@ == local_nonce@,
            r.1.expect == expected_len(r.0@),
    {
        let send = copy_bytes(&local_nonce);
        (Handshake::AwaitNonce { key, local_nonce }, Exchange { send, expect: 12 })
    }

    /// Starts the handshake of an encrypted channel with a fresh random nonce,
    /// for every key.
    pub fn start_encrypted_random(key: [u8; 32]) -> (r: Option<(Handshake, Exchange)>)
        ensures
            r is Some,
            match r {
                Some(x) => {
                    &&& handshake_wf(x.0@)
                    &&& x.1.send@.len() == 12
                    &&& x.0@ == (HandshakeView::AwaitNonce { key: key@, local_nonce: x.1.send@ })
                    &&& x.1.expect == 12
                    &&& x.1.expect == expected_len(x.0@)
                },
                None => false,
            },
    {
        let nonce = os_random_nonce();
        Some(Handshake::start_encrypted(key, nonce))
    }

    /// Takes the bytes that the peer sent (as many as the last `Exchange`
    /// asked for) and moves on: to the magic check after the nonces, to
    /// `Established` or `Rejected` after the magic.
    pub fn receive(self, input: Vec<u8>) -> (r: (Handshake, Option<Exchange>))
        requires
            handshake_wf(self@),
            input@.len() == expected_len(self@),
        ensures
            handshake_wf(r.0@),
            r.0@ == next_state(self@, input@),
            match r.1 {
                Some(x) => next_message(self@, input@) == Some(x.send@) && x.send@.len() == 4
                    && x.expect == expected_len(r.0@),
                None => next_message(self@, input@) is None,
            },
    {
        match self {
            Handshake::AwaitNonce { key, local_nonce } => {
                let peer_nonce = nonce_from_bytes(&input);
                let mut encryptor = StreamCipher::new(key, local_nonce);
                let decryptor = StreamCipher::new(key, peer_nonce);
                let challenge = magic_challenge(&mut encryptor);
                (
                    Handshake::AwaitMagic { encryptor, decryptor },
                    Some(Exchange { send: challenge, expect: 4 }),
                )
            },
            Handshake::AwaitMagic { encryptor, decryptor } => {
                let mut decryptor = decryptor;
                match check_magic(input, &mut decryptor) {
                    Ok(()) => (Handshake::Established { encryptor, decryptor }, None),
                    Err(_) => (Handshake::Rejected, None),
                }
            },
            other => (other, None),
        }
    }

    /// Whether the handshake completed.
    pub fn is_established(&self) -> (b: bool)
        ensures
            b == (self@ is Established),
    {
        match self {
            Handshake::Established { .. } => true,
            _ => false,
        }
    }

    /// The ciphers of the two directions, once the handshake completed: the
    /// first encrypts what we send, the second decrypts what we receive.
    pub fn into_session(self) -> (r: Option<(StreamCipher, StreamCipher)>)
        ensures
            match self@ {
                HandshakeView::Established { encryptor, decryptor } => match r {
                    Some(pair) => pair.0@ == encryptor && pair.1@ == decryptor,
                    None => false,
                },
                _ => r is None,
            },
    {
        match self {
            Handshake::Established { encryptor, decryptor } => Some((encryptor, decryptor)),
            _ => None,
        }
    }
}

/// Whatever the cipher state, a peer whose cipher is in the same state
/// decrypts our encryption of `MAGIC` to the little-endian bytes of `MAGIC`,
/// and so accepts it.
pub proof fn lemma_own_magic_matches(s: CipherState)
    ensures
        magic_matches(s, s.apply(magic_bytes())),
        s.apply(s.apply(spec_u32_to_le_bytes(MAGIC))) == spec_u32_to_le_bytes(MAGIC),
        spec_u32_from_le_bytes(s.apply(s.apply(spec_u32_to_le_bytes(MAGIC)))) == MAGIC,
{
    lemma_auto_spec_u32_to_from_le_bytes();
    lemma_apply_involution(s, magic_bytes());
}

/// Two ends of an encrypted channel that hold the same key both complete the
/// handshake, whatever nonces they drew, when each hands the other's bytes to
/// `Handshake::receive`. Afterwards each end's encryptor is in the very state
/// of the other end's decryptor.
pub proof fn lemma_encrypted_handshake_completes(key: Seq<u8>, na: Seq<u8>, nb: Seq<u8>)
    ensures
        ({
            let a0 = HandshakeView::AwaitNonce { key, local_nonce: na };
            let b0 = HandshakeView::AwaitNonce { key, local_nonce: nb };
            let a_magic = next_message(a0, nb);
            let b_magic = next_message(b0, na);
            &&& a_magic is Some
            &&& b_magic is Some
            &&& next_state(next_state(a0, nb), b_magic->0) == (HandshakeView::Established {
                encryptor: CipherState { key, nonce: na, position: 4 },
                decryptor: CipherState { key, nonce: nb, position: 4 },
            })
            &&& next_state(next_state(b0, na), a_magic->0) == (HandshakeView::Established {
                encryptor: CipherState { key, nonce: nb, position: 4 },
                decryptor: CipherState { key, nonce: na, position: 4 },
            })
        }),
{
    lemma_own_magic_matches(CipherState { key, nonce: na, position: 0 });
    lemma_own_magic_matches(CipherState { key, nonce: nb, position: 0 });
}

/// Two ends of an unencrypted channel both complete the handshake on each
/// other's opening bytes.
pub proof fn lemma_plain_handshake_completes()
    ensures
        next_state(plain_start(), plain_opening()) == (HandshakeView::Established {
            encryptor: plain_state().advance(4),
            decryptor: plain_state().advance(4),
        }),
{
    lemma_own_magic_matches(plain_state());
}

/// After an encrypted handshake between two ends with the same key, each end
/// reads back, in order, every payload that the other sealed, in both
/// directions.
pub proof fn lemma_session_delivers(
    key: Seq<u8>,
    na: Seq<u8>,
    nb: Seq<u8>,
    msgs: Seq<Seq<u8>>,
    rest: Seq<u8>,
)
    requires
        forall|i: int| 0 <= i < msgs.len() ==> #[trigger] msgs[i].len() <= u32::MAX,
    ensures
        ({
            let a = next_state(
                next_state(HandshakeView::AwaitNonce { key, local_nonce: na }, nb),
                next_message(HandshakeView::AwaitNonce { key, local_nonce: nb }, na)->0,
            );
            let b = next_state(
                next_state(HandshakeView::AwaitNonce { key, local_nonce: nb }, na),
                next_message(HandshakeView::AwaitNonce { key, local_nonce: na }, nb)->0,
            );
            &&& opened_stream(
                b->Established_decryptor,
                sealed_stream(a->Established_encryptor, msgs) + rest,
                msgs.len(),
            ) == msgs
            &&& opened_stream(
                a->Established_decryptor,
                sealed_stream(b->Established_encryptor, msgs) + rest,
                msgs.len(),
            ) == msgs
        }),
{
    lemma_encrypted_handshake_completes(key, na, nb);
    lemma_stream_roundtrip(CipherState { key, nonce: na, position: 4 }, msgs, rest);
    lemma_stream_roundtrip(CipherState { key, nonce: nb, position: 4 }, msgs, rest);
}

} // verus!

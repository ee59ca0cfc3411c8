use chacha20::stream_cipher::{NewStreamCipher, SyncStreamCipher, SyncStreamCipherSeek};
use chacha20::{ChaCha20, Key, Nonce};
use vstd::prelude::*;

verus! {

/// Number of keystream bytes that one key and nonce may cover. The `chacha20`
/// crate refuses (by panicking) to run its 32-bit block counter past
/// `u32::MAX`; this bound keeps every call well inside that range.
pub const KEYSTREAM_LIMIT: u64 = 274877906624;

/// The keystream byte that the ChaCha20 stream cipher (96-bit nonce variant)
/// produces at byte offset `position` for the given key and nonce.
pub uninterp spec fn chacha20_keystream_byte(key: Seq<u8>, nonce: Seq<u8>, position: int) -> u8;

/// `data` combined byte by byte (XOR) with the keystream of `key` and `nonce`
/// that starts at byte offset `position`.
pub open spec fn keystream_xor(key: Seq<u8>, nonce: Seq<u8>, position: int, data: Seq<u8>) -> Seq<u8> {
    Seq::new(data.len(), |i: int| data[i] ^ chacha20_keystream_byte(key, nonce, position + i))
}

/// Applies the ChaCha20 keystream of `key` and `nonce`, from byte offset
/// `position` on, to `data`.
///
/// Calls `ChaCha20::new`, `SyncStreamCipherSeek::seek` and
/// `SyncStreamCipher::apply_keystream` of the `chacha20` crate. The contract
/// claims what the crate documents of a stream cipher: every byte of `data` is
/// XORed with the keystream byte of its offset, and that byte depends on the
/// key, the nonce and the offset alone. `apply_keystream` panics when the block
/// counter would pass `u32::MAX`; `requires` keeps the call below that point.
#[verifier::external_body]
fn chacha20_apply_at(key: &[u8; 32], nonce: &[u8; 12], position: u64, data: &mut Vec<u8>)
    requires
        position + old(data)@.len() <= KEYSTREAM_LIMIT,
    ensures
        final(data)@.len() == old(data)@.len(),
        forall|i: int|
            0 <= i < old(data)@.len() ==> #[trigger] final(data)@[i] == old(data)@[i]
                ^ chacha20_keystream_byte(key@, nonce@, position + i),
{
    let mut cipher = ChaCha20::new(&Key::from(*key), &Nonce::from(*nonce));
    cipher.seek(position);
    cipher.apply_keystream(data.as_mut_slice());
}

/// What a stream cipher is: its key, its nonce and how many keystream bytes it
/// has used so far.
pub struct CipherState {
    pub key: Seq<u8>,
    pub nonce: Seq<u8>,
    pub position: nat,
}

impl CipherState {
    /// `data` encrypted (or decrypted: the operation is its own inverse) at the
    /// current position.
    pub open spec fn apply(self, data: Seq<u8>) -> Seq<u8> {
        keystream_xor(self.key, self.nonce, self.position as int, data)
    }

    /// The same cipher after `n` more keystream bytes.
    pub open spec fn advance(self, n: nat) -> CipherState {
        CipherState { key: self.key, nonce: self.nonce, position: self.position + n }
    }

    /// Whether `n` more keystream bytes are available.
    pub open spec fn has_room(self, n: nat) -> bool {
        self.position + n <= KEYSTREAM_LIMIT
    }
}

/// Applying the same keystream twice gives the data back: decryption undoes
/// encryption.
pub proof fn lemma_apply_involution(s: CipherState, data: Seq<u8>)
    ensures
        s.apply(s.apply(data)) == data,
{
    assert forall|i: int| 0 <= i < data.len() implies #[trigger] s.apply(s.apply(data))[i]
        == data[i] by {
        let k = chacha20_keystream_byte(s.key, s.nonce, s.position + i);
        let d = data[i];
        assert((d ^ k) ^ k == d) by (bit_vector);
    }
    assert(s.apply(s.apply(data)) =~= data);
}

/// Applying the keystream to two pieces in turn, the second where the first
/// stopped, is applying it to their concatenation: how the data is cut into
/// calls does not matter.
pub proof fn lemma_apply_split(s: CipherState, a: Seq<u8>, b: Seq<u8>)
    ensures
        s.apply(a + b) == s.apply(a) + s.advance(a.len()).apply(b),
{
    assert(s.apply(a + b) =~= s.apply(a) + s.advance(a.len()).apply(b));
}

/// A ChaCha20 cipher that is used as a stream: every call continues the
/// keystream where the previous one stopped.
pub struct StreamCipher {
    key: [u8; 32],
    nonce: [u8; 12],
    position: u64,
}

impl View for StreamCipher {
    type V = CipherState;

    closed spec fn view(&self) -> CipherState {
        CipherState { key: self.key@, nonce: self.nonce@, position: self.position as nat }
    }
}

impl StreamCipher {
    /// A cipher at the start of the keystream of `key` and `nonce`.
    pub fn new(key: [u8; 32], nonce: [u8; 12]) -> (cipher: StreamCipher)
        ensures
            cipher@ == (CipherState { key: key@, nonce: nonce@, position: 0 }),
    {
        StreamCipher { key, nonce, position: 0 }
    }

    /// The number of keystream bytes used so far.
    pub fn position(&self) -> (position: u64)
        ensures
            position == self@.position,
    {
        self.position
    }

    /// Whether `n` more keystream bytes are available.
    pub fn has_room(&self, n: usize) -> (room: bool)
        ensures
            room == self@.has_room(n as nat),
    {
        self.position <= KEYSTREAM_LIMIT && n as u64 <= KEYSTREAM_LIMIT - self.position
    }

    /// Encrypts or decrypts `data` in place with the next `data.len()`
    /// keystream bytes.
    pub fn apply_keystream(&mut self, data: &mut Vec<u8>)
        requires
            old(self)@.has_room(old(data)@.len()),
        ensures
            final(data)@ == old(self)@.apply(old(data)@),
            final(self)@ == old(self)@.advance(old(data)@.len()),
    {
        let n = data.len();
        chacha20_apply_at(&self.key, &self.nonce, self.position, data);
        assert(data@ =~= old(self)@.apply(old(data)@));
        self.position = self.position + n as u64;
    }
}

} // verus!

use crate::local::copy_bytes;
use crate::cipher::{lemma_apply_involution, lemma_apply_split, CipherState, StreamCipher};
use vstd::bytes::{
    lemma_auto_spec_u32_to_from_le_bytes, spec_u32_from_le_bytes, spec_u32_to_le_bytes,
    u32_from_le_bytes, u32_to_le_bytes,
};
use vstd::prelude::*;

verus! {

/// The 4-byte little-endian header of a frame whose payload has `len` bytes.
/// The length is written as a `u32`: a payload of 4 GiB or more wraps around.
pub open spec fn frame_header(len: nat) -> Seq<u8> {
    spec_u32_to_le_bytes(len as u32)
}

/// A plaintext frame: the payload's length, then the payload.
pub open spec fn frame(data: Seq<u8>) -> Seq<u8> {
    frame_header(data.len()) + data
}

/// The payload length that a receiver in state `s` reads from the 4 header
/// bytes `header` as they came off the wire.
pub open spec fn decrypted_len(s: CipherState, header: Seq<u8>) -> u32 {
    spec_u32_from_le_bytes(s.apply(header))
}

/// Encrypts a buffer, prefixed with its length, into a new buffer: the whole
/// frame goes through the keystream at once.
pub fn encrypt_buffer(data: Vec<u8>, encryptor: &mut StreamCipher) -> (sealed: Vec<u8>)
    requires
        old(encryptor)@.has_room(4 + data@.len()),
    ensures
        sealed@ == old(encryptor)@.apply(frame(data@)),
        sealed@ == old(encryptor)@.apply(spec_u32_to_le_bytes(data@.len() as u32) + data@),
        sealed@.len() == 4 + data@.len(),
        final(encryptor)@ == old(encryptor)@.advance(4 + data@.len()),
{
    let mut data = data;
    let len = data.len();
    let mut res = u32_to_le_bytes(len as u32);
    res.append(&mut data);
    encryptor.apply_keystream(&mut res);
    res
}

/// Decrypts the 4 header bytes of a frame and returns the payload length that
/// they announce.
pub fn decrypt_frame_len(header: Vec<u8>, decryptor: &mut StreamCipher) -> (len: u32)
    requires
        header@.len() == 4,
        old(decryptor)@.has_room(4),
    ensures
        len == decrypted_len(old(decryptor)@, header@),
        len == spec_u32_from_le_bytes(old(decryptor)@.apply(header@)),
        final(decryptor)@ == old(decryptor)@.advance(4),
{
    let mut header = header;
    decryptor.apply_keystream(&mut header);
    u32_from_le_bytes(header.as_slice())
}

/// Decrypts the payload of a frame, whose length the header announced.
pub fn decrypt_frame_body(body: Vec<u8>, decryptor: &mut StreamCipher) -> (data: Vec<u8>)
    requires
        old(decryptor)@.has_room(body@.len()),
    ensures
        data@ == old(decryptor)@.apply(body@),
        final(decryptor)@ == old(decryptor)@.advance(body@.len()),
{
    let mut body = body;
    decryptor.apply_keystream(&mut body);
    body
}

/// What a receiver whose cipher is in the sender's state reads back of one
/// sealed frame: the header announces the payload's length, and the bytes
/// after it decrypt to the payload. This holds for every payload shorter than
/// 4 GiB.
pub proof fn lemma_frame_roundtrip(s: CipherState, data: Seq<u8>)
    requires
        data.len() <= u32::MAX,
    ensures
        s.apply(frame(data)).len() == 4 + data.len(),
        decrypted_len(s, s.apply(frame(data)).subrange(0, 4)) == data.len(),
        s.advance(4).apply(s.apply(frame(data)).subrange(4, 4 + data.len() as int)) == data,
{
    lemma_auto_spec_u32_to_from_le_bytes();
    let h = frame_header(data.len());
    lemma_apply_split(s, h, data);
    let sealed = s.apply(frame(data));
    assert(sealed.subrange(0, 4) =~= s.apply(h));
    assert(sealed.subrange(4, 4 + data.len() as int) =~= s.advance(4).apply(data));
    lemma_apply_involution(s, h);
    lemma_apply_involution(s.advance(4), data);
}

/// Whatever the cipher state and the payload (shorter than 4 GiB), a
/// receiver in the sender's state decrypts the first 4 bytes of the sealed
/// frame to exactly the little-endian bytes of the payload's length, reads
/// that length back from them, and decrypts the bytes after them to the
/// payload.
pub proof fn lemma_sealed_header_is_le_length(s: CipherState, d: Seq<u8>)
    requires
        d.len() <= u32::MAX,
    ensures
        s.apply(s.apply(spec_u32_to_le_bytes(d.len() as u32) + d).subrange(0, 4))
            == spec_u32_to_le_bytes(d.len() as u32),
        spec_u32_from_le_bytes(
            s.apply(s.apply(spec_u32_to_le_bytes(d.len() as u32) + d).subrange(0, 4)),
        ) == d.len(),
        s.advance(4).apply(
            s.apply(spec_u32_to_le_bytes(d.len() as u32) + d).subrange(4, 4 + d.len() as int),
        ) == d,
{
    lemma_auto_spec_u32_to_from_le_bytes();
    let h = spec_u32_to_le_bytes(d.len() as u32);
    lemma_apply_split(s, h, d);
    let sealed = s.apply(h + d);
    assert(sealed.subrange(0, 4) =~= s.apply(h));
    assert(sealed.subrange(4, 4 + d.len() as int) =~= s.advance(4).apply(d));
    lemma_apply_involution(s, h);
    lemma_apply_involution(s.advance(4), d);
}

/// The bytes that a sender whose cipher starts in state `s` puts on the wire
/// for the payloads `msgs`: one sealed frame each, in order.
pub open spec fn sealed_stream(s: CipherState, msgs: Seq<Seq<u8>>) -> Seq<u8>
    decreases msgs.len(),
{
    if msgs.len() == 0 {
        Seq::empty()
    } else {
        s.apply(frame(msgs[0])) + sealed_stream(s.advance(4 + msgs[0].len()), msgs.drop_first())
    }
}

/// The payloads that a receiver whose cipher starts in state `s` reads from
/// `bytes`, `count` frames one after the other: header, then as many payload
/// bytes as the header announces.
pub open spec fn opened_stream(s: CipherState, bytes: Seq<u8>, count: nat) -> Seq<Seq<u8>>
    decreases count,
{
    if count == 0 {
        Seq::empty()
    } else {
        let len = decrypted_len(s, bytes.subrange(0, 4)) as nat;
        let body = s.advance(4).apply(bytes.subrange(4, 4 + len as int));
        seq![body] + opened_stream(
            s.advance(4 + len),
            bytes.subrange(4 + len as int, bytes.len() as int),
            (count - 1) as nat,
        )
    }
}

/// A receiver whose cipher starts where the sender's did reads back, in order,
/// every payload that was sent, whatever follows on the wire.
pub proof fn lemma_stream_roundtrip(s: CipherState, msgs: Seq<Seq<u8>>, rest: Seq<u8>)
    requires
        forall|i: int| 0 <= i < msgs.len() ==> #[trigger] msgs[i].len() <= u32::MAX,
    ensures
        opened_stream(s, sealed_stream(s, msgs) + rest, msgs.len()) == msgs,
    decreases msgs.len(),
{
    if msgs.len() > 0 {
        let m = msgs[0];
        let len = m.len();
        let next = s.advance(4 + len);
        let f = s.apply(frame(m));
        let tail = sealed_stream(next, msgs.drop_first());
        let bytes = sealed_stream(s, msgs) + rest;
        lemma_frame_roundtrip(s, m);
        assert(bytes =~= f + (tail + rest));
        assert(bytes.subrange(0, 4) =~= f.subrange(0, 4));
        assert(bytes.subrange(4, 4 + len as int) =~= f.subrange(4, 4 + len as int));
        assert(bytes.subrange(4 + len as int, bytes.len() as int) =~= tail + rest);
        assert forall|i: int| 0 <= i < msgs.drop_first().len() implies #[trigger] msgs.drop_first()[i].len()
            <= u32::MAX by {
            assert(msgs.drop_first()[i] == msgs[i + 1]);
        }
        lemma_stream_roundtrip(next, msgs.drop_first(), rest);
        assert(opened_stream(s, bytes, msgs.len()) =~= seq![m] + msgs.drop_first());
        assert(seq![m] + msgs.drop_first() =~= msgs);
    }
}

/// Raw data on an encrypted stream: first the frame of the envelope that
/// announces it (`header`, already serialized), then a frame of its own for
/// the data, which is not serialized.
pub fn encrypt_raw(header: Vec<u8>, data: &[u8], encryptor: &mut StreamCipher) -> (frames: (
    Vec<u8>,
    Vec<u8>,
))
    requires
        old(encryptor)@.has_room(8 + header@.len() + data@.len()),
    ensures
        frames.0@ == old(encryptor)@.apply(frame(header@)),
        frames.1@ == old(encryptor)@.advance(4 + header@.len()).apply(frame(data@)),
        frames.0@.len() == 4 + header@.len(),
        frames.1@.len() == 4 + data@.len(),
        frames.0@ + frames.1@ == sealed_stream(old(encryptor)@, seq![header@, data@]),
        final(encryptor)@ == old(encryptor)@.advance(8 + header@.len() + data@.len()),
{
    let ghost s = encryptor@;
    let ghost h = header@;
    let first = encrypt_buffer(header, encryptor);
    let second = encrypt_buffer(copy_bytes(data), encryptor);
    proof {
        reveal_with_fuel(sealed_stream, 3);
        let msgs = seq![h, data@];
        assert(msgs.drop_first() =~= seq![data@]);
        assert(msgs.drop_first().drop_first() =~= Seq::<Seq<u8>>::empty());
        assert(first@ + second@ =~= sealed_stream(s, msgs));
    }
    (first, second)
}

} // verus!

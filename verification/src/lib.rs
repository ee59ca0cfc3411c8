//! Channels that carry messages either in memory or over a byte stream,
//! optionally encrypted with ChaCha20: the framing, keystream bookkeeping,
//! handshake decisions and message envelopes, with their contracts.
pub mod cipher;
pub mod frame;
pub mod handshake;
pub mod local;
pub mod message;

pub use cipher::{CipherState, StreamCipher, KEYSTREAM_LIMIT};
pub use frame::{decrypt_frame_body, decrypt_frame_len, encrypt_buffer};
pub use message::{ChannelError, ChannelMessage, MessageKind};
pub use local::{new_local_channel, LocalReceiver, LocalSender};

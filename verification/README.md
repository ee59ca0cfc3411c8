# ductile

Channels with one interface for in-memory queues and TCP streams, optionally
encrypted with ChaCha20.

- `src/` is the verified library:
  - `cipher`: a ChaCha20 stream whose position is tracked, and the laws of
    its keystream (applying it twice restores the data; how the data is cut
    into calls does not matter);
  - `frame`: length-prefixed encrypted frames, and the proof that a receiver
    in the sender's cipher state reads back every payload, in order;
  - `handshake`: the nonce and magic exchange as a state machine, and the
    proof that two ends with the same key both complete it with paired
    ciphers;
  - `message`: the envelope of messages and raw data;
  - `local`: in-memory channels over `crossbeam-channel`.
- `app/` holds the sockets, the serialization with `bincode` and the public
  `ChannelSender` / `ChannelReceiver` / `ChannelServer` API built on the
  library.
- `tests/` runs the library on concrete values.

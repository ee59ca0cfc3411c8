use vstd::prelude::*;

verus! {

/// What travels in a channel. It carries normal messages as well as telling
/// the other end that raw data is coming and must not be deserialized.
pub enum ChannelMessage<T> {
    /// A normal application message of type `T`.
    Message(T),
    /// Some raw data; used only by in-memory channels.
    RawData(Vec<u8>),
    /// Announces that raw data of the given length follows; used only by
    /// stream channels, which send the data itself outside the envelope. With
    /// encryption the data comes in a frame of its own, whose header says its
    /// length again.
    RawDataStart(usize),
}

/// Which of the three envelopes a `ChannelMessage` is.
#[derive(Clone, Copy, Debug, PartialEq, Eq, Structural)]
pub enum MessageKind {
    Message,
    RawData,
    RawDataStart,
}

/// Why a channel operation did not succeed.
#[derive(Clone, Copy, Debug, PartialEq, Eq, Structural)]
pub enum ChannelError {
    /// The other end of an in-memory channel is gone.
    Disconnected,
    /// The peer's handshake magic did not decrypt to the expected constant.
    WrongEncryptionKey,
    /// An envelope of another kind than the one the receiver asked for came
    /// in: the two ends do not agree on the protocol, and the channel is
    /// broken.
    Unexpected(MessageKind),
}

impl<T> ChannelMessage<T> {
    /// The kind of this envelope.
    pub open spec fn kind_spec(&self) -> MessageKind {
        match self {
            ChannelMessage::Message(_) => MessageKind::Message,
            ChannelMessage::RawData(_) => MessageKind::RawData,
            ChannelMessage::RawDataStart(_) => MessageKind::RawDataStart,
        }
    }

    /// The kind of this envelope.
    pub fn kind(&self) -> (kind: MessageKind)
        ensures
            kind == self.kind_spec(),
    {
        match self {
            ChannelMessage::Message(_) => MessageKind::Message,
            ChannelMessage::RawData(_) => MessageKind::RawData,
            ChannelMessage::RawDataStart(_) => MessageKind::RawDataStart,
        }
    }

    /// The application message that this envelope carries; any other envelope
    /// is a protocol error.
    pub fn into_message(self) -> (r: Result<T, ChannelError>)
        ensures
            match self {
                ChannelMessage::Message(m) => r == Ok::<T, ChannelError>(m),
                _ => r == Err::<T, ChannelError>(ChannelError::Unexpected(self.kind_spec())),
            },
    {
        let kind = self.kind();
        match self {
            ChannelMessage::Message(m) => Ok(m),
            _ => Err(ChannelError::Unexpected(kind)),
        }
    }

    /// The raw data that this envelope carries; any other envelope is a
    /// protocol error.
    pub fn into_raw_data(self) -> (r: Result<Vec<u8>, ChannelError>)
        ensures
            match self {
                ChannelMessage::RawData(d) => r == Ok::<Vec<u8>, ChannelError>(d),
                _ => r == Err::<Vec<u8>, ChannelError>(
                    ChannelError::Unexpected(self.kind_spec()),
                ),
            },
    {
        let kind = self.kind();
        match self {
            ChannelMessage::RawData(d) => Ok(d),
            _ => Err(ChannelError::Unexpected(kind)),
        }
    }

    /// The length of the raw data that this envelope announces; any other
    /// envelope is a protocol error.
    pub fn raw_data_len(&self) -> (r: Result<usize, ChannelError>)
        ensures
            match self {
                ChannelMessage::RawDataStart(n) => r == Ok::<usize, ChannelError>(*n),
                _ => r == Err::<usize, ChannelError>(ChannelError::Unexpected(self.kind_spec())),
            },
    {
        match self {
            ChannelMessage::RawDataStart(n) => Ok(*n),
            _ => Err(ChannelError::Unexpected(self.kind())),
        }
    }
}

} // verus!

use crate::message::{ChannelError, ChannelMessage, MessageKind};
use crossbeam_channel::{unbounded, Receiver, Sender};
use vstd::prelude::*;

verus! {

#[verifier::external_type_specification]
#[verifier::external_body]
#[verifier::reject_recursive_types(T)]
pub struct ExSender<T>(Sender<T>);

#[verifier::external_type_specification]
#[verifier::external_body]
#[verifier::reject_recursive_types(T)]
pub struct ExReceiver<T>(Receiver<T>);

/// A new unbounded in-memory queue.
///
/// Calls `crossbeam_channel::unbounded`. The two handles share a queue whose
/// contents other threads change: nothing is claimed of them.
#[verifier::external_body]
fn queue_new<T>() -> (Sender<ChannelMessage<T>>, Receiver<ChannelMessage<T>>) {
    unbounded()
}

/// Puts `msg` at the end of the queue.
///
/// Calls `crossbeam_channel::Sender::send`, which fails only when every
/// receiver is gone and then hands the message back inside its `SendError`;
/// the contract claims that the message that comes back is the one given.
#[verifier::external_body]
fn queue_send<T>(sender: &Sender<ChannelMessage<T>>, msg: ChannelMessage<T>) -> (r: Result<
    (),
    ChannelMessage<T>,
>)
    ensures
        r is Err ==> r->Err_0 == msg,
{
    match sender.send(msg) {
        Ok(()) => Ok(()),
        Err(e) => Err(e.0),
    }
}

/// Takes the first message off the queue, blocking until there is one;
/// `None` once the queue is empty and every sender is gone.
///
/// Calls `crossbeam_channel::Receiver::recv`. What comes out depends on the
/// other threads: nothing is claimed of it.
#[verifier::external_body]
fn queue_recv<T>(receiver: &Receiver<ChannelMessage<T>>) -> Option<ChannelMessage<T>> {
    match receiver.recv() {
        Ok(msg) => Some(msg),
        Err(_) => None,
    }
}

/// Another handle on the same queue.
///
/// Calls `<crossbeam_channel::Sender as Clone>::clone`; the identity of the
/// queue cannot be stated, so nothing is claimed.
#[verifier::external_body]
fn queue_clone_sender<T>(sender: &Sender<ChannelMessage<T>>) -> Sender<ChannelMessage<T>> {
    sender.clone()
}

/// A copy of `data`.
pub fn copy_bytes(data: &[u8]) -> (v: Vec<u8>)
    ensures
        v@ == data@,
{
    let mut v: Vec<u8> = Vec::new();
    let mut i: usize = 0;
    while i < data.len()
        invariant
            i <= data@.len(),
            v@ =~= data@.subrange(0, i as int),
        decreases data@.len() - i,
    {
        v.push(data[i]);
        i = i + 1;
    }
    v
}

/// What a send on an in-memory channel returns, given what the queue
/// answered: the message back means that the receiver is gone.
pub fn send_outcome<T>(queued: Result<(), ChannelMessage<T>>) -> (r: Result<(), ChannelError>)
    ensures
        r is Ok <==> queued is Ok,
        r is Err ==> r == Err::<(), ChannelError>(ChannelError::Disconnected),
{
    match queued {
        Ok(()) => Ok(()),
        Err(_) => Err(ChannelError::Disconnected),
    }
}

/// What `recv` returns, given what came off the queue: the message of a
/// `Message` envelope; any other envelope breaks the protocol; nothing means
/// that every sender is gone.
pub fn received_message<T>(received: Option<ChannelMessage<T>>) -> (r: Result<T, ChannelError>)
    ensures
        match received {
            None => r == Err::<T, ChannelError>(ChannelError::Disconnected),
            Some(ChannelMessage::Message(m)) => r == Ok::<T, ChannelError>(m),
            Some(other) => r == Err::<T, ChannelError>(ChannelError::Unexpected(other.kind_spec())),
        },
{
    match received {
        None => Err(ChannelError::Disconnected),
        Some(msg) => msg.into_message(),
    }
}

/// What `recv_raw` returns, given what came off the queue: the data of a
/// `RawData` envelope; any other envelope breaks the protocol; nothing means
/// that every sender is gone.
pub fn received_raw_data<T>(received: Option<ChannelMessage<T>>) -> (r: Result<Vec<u8>, ChannelError>)
    ensures
        match received {
            None => r == Err::<Vec<u8>, ChannelError>(ChannelError::Disconnected),
            Some(ChannelMessage::RawData(d)) => r == Ok::<Vec<u8>, ChannelError>(d),
            Some(other) => r == Err::<Vec<u8>, ChannelError>(
                ChannelError::Unexpected(other.kind_spec()),
            ),
        },
{
    match received {
        None => Err(ChannelError::Disconnected),
        Some(msg) => msg.into_raw_data(),
    }
}

/// The sending half of an in-memory channel. There may be many.
#[verifier::reject_recursive_types(T)]
pub struct LocalSender<T> {
    inner: Sender<ChannelMessage<T>>,
}

/// The receiving half of an in-memory channel. There is only one.
#[verifier::reject_recursive_types(T)]
pub struct LocalReceiver<T> {
    inner: Receiver<ChannelMessage<T>>,
}

/// A new in-memory channel.
pub fn new_local_channel<T>() -> (LocalSender<T>, LocalReceiver<T>) {
    let (tx, rx) = queue_new();
    (LocalSender { inner: tx }, LocalReceiver { inner: rx })
}

impl<T> Clone for LocalSender<T> {
    fn clone(&self) -> Self {
        LocalSender { inner: queue_clone_sender(&self.inner) }
    }
}

impl<T> LocalSender<T> {
    /// Sends a message; the message is not serialized. Fails only when the
    /// receiver is gone.
    pub fn send(&self, data: T) -> (r: Result<(), ChannelError>)
        ensures
            r is Err ==> r == Err::<(), ChannelError>(ChannelError::Disconnected),
    {
        send_outcome(queue_send(&self.inner, ChannelMessage::Message(data)))
    }

    /// Sends a copy of some raw data. Fails only when the receiver is gone.
    pub fn send_raw(&self, data: &[u8]) -> (r: Result<(), ChannelError>)
        ensures
            r is Err ==> r == Err::<(), ChannelError>(ChannelError::Disconnected),
    {
        send_outcome(queue_send(&self.inner, ChannelMessage::RawData(copy_bytes(data))))
    }
}

impl<T> LocalReceiver<T> {
    /// Receives a message, blocking until one comes. Fails when every sender
    /// is gone and the queue is empty, or when raw data comes instead.
    pub fn recv(&self) -> (r: Result<T, ChannelError>)
        ensures
            r is Err ==> r == Err::<T, ChannelError>(ChannelError::Disconnected) || r == Err::<
                T,
                ChannelError,
            >(ChannelError::Unexpected(MessageKind::RawData)) || r == Err::<T, ChannelError>(
                ChannelError::Unexpected(MessageKind::RawDataStart),
            ),
    {
        received_message(queue_recv(&self.inner))
    }

    /// Receives raw data, blocking until some comes. Fails when every sender
    /// is gone and the queue is empty, or when a message comes instead.
    pub fn recv_raw(&self) -> (r: Result<Vec<u8>, ChannelError>)
        ensures
            r is Err ==> r == Err::<Vec<u8>, ChannelError>(ChannelError::Disconnected) || r
                == Err::<Vec<u8>, ChannelError>(ChannelError::Unexpected(MessageKind::Message))
                || r == Err::<Vec<u8>, ChannelError>(
                ChannelError::Unexpected(MessageKind::RawDataStart),
            ),
    {
        received_raw_data(queue_recv(&self.inner))
    }
}

} // verus!

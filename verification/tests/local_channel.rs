use ductile::local::{received_message, received_raw_data, send_outcome};
use ductile::{new_local_channel, ChannelError, ChannelMessage, MessageKind};

#[test]
fn simple_local_channel() {
    let (tx, rx) = new_local_channel();
    tx.send(42u64).unwrap();
    tx.send_raw(&vec![1, 2, 3, 4]).unwrap();
    let answer = rx.recv().unwrap();
    assert_eq!(answer, 42u64);
    let data = rx.recv_raw().unwrap();
    assert_eq!(data, vec![1, 2, 3, 4]);
}

struct Thing {
    pub x: u32,
    pub y: String,
}

#[test]
fn local_channel_with_custom_type() {
    let (tx, rx) = new_local_channel();
    tx.send(Thing { x: 42, y: "foobar".into() }).unwrap();
    let thing: Thing = rx.recv().unwrap();
    assert_eq!(thing.x, 42);
    assert_eq!(thing.y, "foobar");
}

#[test]
fn send_fails_once_receiver_is_dropped() {
    let (sender, receiver) = new_local_channel();
    sender.send(42u8).unwrap();
    drop(receiver);
    assert_eq!(sender.send(69u8), Err(ChannelError::Disconnected));
}

#[test]
fn send_raw_fails_once_receiver_is_dropped() {
    let (sender, receiver) = new_local_channel::<()>();
    sender.send_raw(&vec![1, 2, 3, 4]).unwrap();
    drop(receiver);
    assert!(sender.send_raw(&vec![1, 2]).is_err());
}

#[test]
fn recv_gives_message() {
    let (sender, receiver) = new_local_channel();
    sender.send(42).unwrap();
    let num: i32 = receiver.recv().unwrap();
    assert_eq!(num, 42);
}

#[test]
fn recv_raw_gives_data() {
    let (sender, receiver) = new_local_channel::<()>();
    sender.send_raw(&vec![1, 2, 3]).unwrap();
    let data: Vec<u8> = receiver.recv_raw().unwrap();
    assert_eq!(data, vec![1, 2, 3]);
}

#[test]
fn receiving_in_the_wrong_mode_fails() {
    let (sender, receiver) = new_local_channel::<u8>();
    sender.send_raw(&[1, 2]).unwrap();
    sender.send(7).unwrap();
    assert_eq!(receiver.recv(), Err(ChannelError::Unexpected(MessageKind::RawData)));
    assert_eq!(receiver.recv_raw(), Err(ChannelError::Unexpected(MessageKind::Message)));
}

#[test]
fn receiver_stops_when_senders_are_gone() {
    let (sender, receiver) = new_local_channel::<()>();
    let other = sender.clone();
    sender.send(()).unwrap();
    other.send(()).unwrap();
    drop(sender);
    drop(other);
    receiver.recv().unwrap();
    receiver.recv().unwrap();
    assert_eq!(receiver.recv(), Err(ChannelError::Disconnected));
}

#[test]
fn cloned_senders_share_the_queue_in_order() {
    let (sender, receiver) = new_local_channel::<u32>();
    let other = sender.clone();
    sender.send(1).unwrap();
    other.send(2).unwrap();
    sender.send(3).unwrap();
    assert_eq!(receiver.recv(), Ok(1));
    assert_eq!(receiver.recv(), Ok(2));
    assert_eq!(receiver.recv(), Ok(3));
}

#[test]
fn envelope_accessors() {
    let m: ChannelMessage<u8> = ChannelMessage::Message(5);
    assert_eq!(m.kind(), MessageKind::Message);
    assert_eq!(m.raw_data_len(), Err(ChannelError::Unexpected(MessageKind::Message)));
    assert_eq!(m.into_message(), Ok(5));

    let r: ChannelMessage<u8> = ChannelMessage::RawDataStart(12345);
    assert_eq!(r.kind(), MessageKind::RawDataStart);
    assert_eq!(r.raw_data_len(), Ok(12345));
    assert_eq!(r.into_message(), Err(ChannelError::Unexpected(MessageKind::RawDataStart)));

    let d: ChannelMessage<u8> = ChannelMessage::RawData(vec![1, 2]);
    assert_eq!(d.kind(), MessageKind::RawData);
    assert_eq!(d.into_raw_data(), Ok(vec![1, 2]));
    let s: ChannelMessage<u8> = ChannelMessage::RawDataStart(3);
    assert_eq!(s.into_raw_data(), Err(ChannelError::Unexpected(MessageKind::RawDataStart)));
}

#[test]
fn outcomes_of_queue_answers() {
    assert_eq!(send_outcome::<u8>(Ok(())), Ok(()));
    assert_eq!(send_outcome(Err(ChannelMessage::Message(3u8))), Err(ChannelError::Disconnected));
    assert_eq!(received_message::<u8>(None), Err(ChannelError::Disconnected));
    assert_eq!(received_message(Some(ChannelMessage::Message(9u8))), Ok(9));
    assert_eq!(
        received_message::<u8>(Some(ChannelMessage::RawData(vec![1]))),
        Err(ChannelError::Unexpected(MessageKind::RawData))
    );
    assert_eq!(received_raw_data::<u8>(Some(ChannelMessage::RawData(vec![1]))), Ok(vec![1]));
    assert_eq!(
        received_raw_data::<u8>(Some(ChannelMessage::RawDataStart(1))),
        Err(ChannelError::Unexpected(MessageKind::RawDataStart))
    );
    assert_eq!(received_raw_data::<u8>(None), Err(ChannelError::Disconnected));
}

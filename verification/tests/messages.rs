use arzmq::message::{multipart_sends, Message, MultipartMessage, GROUP_MAX_LENGTH};
use arzmq::socket::SendFlags;
use arzmq::ZmqError;

#[test]
fn message_parts() {
    let m = Message::from(vec![1u8, 2, 3]);
    assert_eq!(m.len(), 3);
    assert!(!m.is_empty());
    assert_eq!(m.bytes(), vec![1, 2, 3]);
    assert_eq!(m.as_bytes(), &[1, 2, 3]);
    assert!(!m.get_more());
    assert!(Message::new().is_empty());
    assert!(Message::default().is_empty());
    assert_eq!(Message::with_size(4).map(|m| m.bytes()), Ok(vec![0, 0, 0, 0]));
    assert_eq!(Message::from_text("hi").bytes(), b"hi".to_vec());
    let received = Message::from_parts(vec![9], true, Some(5), Some("g".to_string()));
    assert!(received.get_more());
    assert_eq!(received.routing_id(), Some(5));
    assert_eq!(received.group(), Some("g".to_string()));
    let copy = received.clone();
    assert_eq!(copy.bytes(), vec![9]);
}

#[test]
fn routing_ids() {
    let mut m = Message::new();
    assert_eq!(m.routing_id(), None);
    assert_eq!(m.set_routing_id(0), Err(ZmqError::InvalidArgument));
    assert_eq!(m.routing_id(), None);
    assert_eq!(m.set_routing_id(42), Ok(()));
    assert_eq!(m.routing_id(), Some(42));
}

#[test]
fn groups() {
    let mut m = Message::new();
    assert_eq!(m.group(), None);
    assert_eq!(m.set_group("weather"), Ok(()));
    assert_eq!(m.group(), Some("weather".to_string()));
    let longest = "x".repeat(GROUP_MAX_LENGTH);
    assert_eq!(m.set_group(&longest), Ok(()));
    let too_long = "x".repeat(GROUP_MAX_LENGTH + 1);
    assert_eq!(m.set_group(&too_long), Err(ZmqError::InvalidArgument));
    assert_eq!(m.group(), Some(longest));
    assert_eq!(m.set_group("a\0b"), Err(ZmqError::InvalidArgument));
}

#[test]
fn multipart_messages() {
    let mut multipart = MultipartMessage::new();
    assert!(multipart.is_empty());
    multipart.push_back(Message::from(vec![2]));
    multipart.push_front(Message::from(vec![1]));
    multipart.push_back(Message::from(vec![3]));
    assert_eq!(multipart.len(), 3);
    assert_eq!(multipart.get(0).map(|m| m.bytes()), Some(vec![1]));
    assert_eq!(multipart.get(3).map(|m| m.bytes()), None);
    assert_eq!(multipart.pop_back().map(|m| m.bytes()), Some(vec![3]));
    assert_eq!(multipart.pop_front().map(|m| m.bytes()), Some(vec![1]));
    let inner = multipart.into_inner();
    assert_eq!(inner.len(), 1);
    let single = MultipartMessage::from_message(Message::from(vec![7]));
    assert_eq!(single.len(), 1);
    let parts = MultipartMessage::from_parts(vec![Message::from(vec![1]), Message::from(vec![2])]);
    assert_eq!(parts.get(1).map(|m| m.bytes()), Some(vec![2]));
}

#[test]
fn multipart_sends_mark_all_but_the_last_part() {
    let parts = MultipartMessage::from_parts(vec![Message::from(vec![1]), Message::from(vec![2]), Message::from(vec![3])]);
    let sends = multipart_sends(parts, SendFlags::DONT_WAIT());
    let flags: Vec<i32> = sends.iter().map(|(_, f)| f.bits()).collect();
    assert_eq!(flags, vec![3, 3, 1]);
    let bytes: Vec<Vec<u8>> = sends.iter().map(|(m, _)| m.bytes()).collect();
    assert_eq!(bytes, vec![vec![1], vec![2], vec![3]]);
    let single = multipart_sends(MultipartMessage::from_message(Message::from(vec![4])), SendFlags::empty());
    assert_eq!(single.len(), 1);
    assert_eq!(single[0].1.bits(), 0);
    assert!(multipart_sends(MultipartMessage::new(), SendFlags::DONT_WAIT()).is_empty());
}

#[test]
fn a_sent_message_is_received_whole() {
    let parts = MultipartMessage::from_parts(vec![Message::from(vec![1]), Message::from(vec![2]), Message::from(vec![3])]);
    let sends = multipart_sends(parts, SendFlags::empty());
    let mut received = MultipartMessage::new();
    let mut completions = Vec::new();
    for (part, flags) in sends {
        let more = flags.contains(SendFlags::SEND_MORE());
        completions.push(received.push_received(Message::from_parts(part.bytes(), more, None, None)));
    }
    assert_eq!(completions, vec![false, false, true]);
    assert_eq!(received.len(), 3);
    assert_eq!(received.get(2).map(|m| m.bytes()), Some(vec![3]));
}

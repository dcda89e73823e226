use arzmq::message::{Message, MultipartMessage};
use arzmq::socket::monitor::event_from;
use arzmq::socket::{HandshakeProtocolError, MonitorFlags, MonitorSocketEvent};
use arzmq::{errno, ZmqError};

fn event_message(id: u16, value: u32) -> MultipartMessage {
    let mut first = id.to_le_bytes().to_vec();
    first.extend_from_slice(&value.to_le_bytes());
    MultipartMessage::from_parts(vec![Message::from(first), Message::from_text("tcp://127.0.0.1:5555")])
}

#[test]
fn monitor_messages_decode_to_events() {
    let cases = [
        (1u16, 0u32, MonitorSocketEvent::Connected),
        (2, 0, MonitorSocketEvent::ConnectDelayed),
        (4, 1000, MonitorSocketEvent::ConnectRetried(1000)),
        (8, 0, MonitorSocketEvent::Listening),
        (32, 0, MonitorSocketEvent::Accepted),
        (64, errno::EINVAL as u32, MonitorSocketEvent::AcceptFailed(ZmqError::InvalidArgument)),
        (128, 0, MonitorSocketEvent::Closed),
        (256, errno::ENOTSOCK as u32, MonitorSocketEvent::CloseFailed(ZmqError::SocketNull)),
        (512, 0, MonitorSocketEvent::Disconnected),
        (1024, 0, MonitorSocketEvent::MonitorStopped),
        (2048, errno::ECONNRESET as u32, MonitorSocketEvent::HandshakeFailedNoDetail(ZmqError::ConnectionReset)),
        (4096, 0, MonitorSocketEvent::HandshakeSucceeded),
        (8192, 0x11000001, MonitorSocketEvent::HandshakeFailedProtocol(HandshakeProtocolError::ZmtpCryptographic)),
        (16384, 400, MonitorSocketEvent::HandshakeFailedAuth(400)),
    ];
    for (id, value, event) in cases {
        assert_eq!(MonitorSocketEvent::try_from(event_message(id, value)), Ok(event));
        assert_eq!(event_from(id, value), event);
    }
}

#[test]
fn unread_events_are_unsupported() {
    assert_eq!(
        MonitorSocketEvent::try_from(event_message(16, 7)),
        Ok(MonitorSocketEvent::UnSupported(MonitorFlags::BindFailed(), 0))
    );
    assert_eq!(event_from(0x8000, 9), MonitorSocketEvent::UnSupported(MonitorFlags::from_bits_retain(0x8000), 0));
    assert_eq!(event_from(3, 9), MonitorSocketEvent::UnSupported(MonitorFlags::from(3u16), 0));
}

#[test]
fn malformed_monitor_messages_are_refused() {
    let one_part = MultipartMessage::from_message(Message::from(vec![1, 0, 0, 0, 0, 0]));
    assert_eq!(MonitorSocketEvent::try_from(one_part), Err(ZmqError::InvalidArgument));
    let short = MultipartMessage::from_parts(vec![Message::from(vec![1, 0, 0, 0, 0]), Message::new()]);
    assert_eq!(MonitorSocketEvent::try_from(short), Err(ZmqError::InvalidArgument));
    let three = MultipartMessage::from_parts(vec![Message::from(vec![1, 0, 0, 0, 0, 0]), Message::new(), Message::new()]);
    assert_eq!(MonitorSocketEvent::try_from(three), Err(ZmqError::InvalidArgument));
    assert_eq!(MonitorSocketEvent::try_from(MultipartMessage::new()), Err(ZmqError::InvalidArgument));
}

#[test]
fn handshake_protocol_errors() {
    let table = [
        (0x10000000u32, HandshakeProtocolError::ZmtpUnspecified),
        (0x10000001, HandshakeProtocolError::ZmtpUnexpectedCommand),
        (0x10000002, HandshakeProtocolError::ZmtpInvalidSequence),
        (0x10000003, HandshakeProtocolError::ZmtpKeyEchange),
        (0x10000011, HandshakeProtocolError::ZmtpMalformedCommandUnspecified),
        (0x10000012, HandshakeProtocolError::ZmtpMalformedCommandMessage),
        (0x10000013, HandshakeProtocolError::ZmtpMalformedCommandHello),
        (0x10000014, HandshakeProtocolError::ZmtpMalformedCommandInitiate),
        (0x10000015, HandshakeProtocolError::ZmtpMalformedCommandError),
        (0x10000016, HandshakeProtocolError::ZmtpMalformedCommandReady),
        (0x10000017, HandshakeProtocolError::ZmtpMalformedCommandWelcome),
        (0x10000018, HandshakeProtocolError::ZapInvalidMetadata),
        (0x11000001, HandshakeProtocolError::ZmtpCryptographic),
        (0x11000002, HandshakeProtocolError::ZmtpMechanismMismatch),
        (0x20000000, HandshakeProtocolError::ZapUnspecified),
        (0x20000001, HandshakeProtocolError::ZapMalformedReply),
        (0x20000002, HandshakeProtocolError::ZapBadRequestId),
        (0x20000003, HandshakeProtocolError::ZapBadVersion),
        (0x20000004, HandshakeProtocolError::ZapInvalidStatusCode),
        (0x20000005, HandshakeProtocolError::ZapInvalidMetadata),
        (0x30000000, HandshakeProtocolError::UnsupportedError(0x30000000)),
    ];
    for (value, err) in table {
        assert_eq!(HandshakeProtocolError::from(value), err);
    }
}

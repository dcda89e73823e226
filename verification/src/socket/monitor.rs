//! Monitor sockets, and the events they report.
use vstd::prelude::*;

use crate::error::{error_of_errno, ZmqError};
use crate::message::{Message, MultipartMessage};
use crate::sealed;
use crate::socket::{MonitorFlags, Socket, SocketType};

verus! {

/// Protocol errors reported with a failed handshake.
#[derive(Debug, Clone, Copy, PartialEq, Eq, Structural)]
pub enum HandshakeProtocolError {
    ZmtpUnspecified,
    ZmtpUnexpectedCommand,
    ZmtpInvalidSequence,
    ZmtpKeyEchange,
    ZmtpMalformedCommandUnspecified,
    ZmtpMalformedCommandMessage,
    ZmtpMalformedCommandHello,
    ZmtpMalformedCommandInitiate,
    ZmtpMalformedCommandError,
    ZmtpMalformedCommandReady,
    ZmtpMalformedCommandWelcome,
    ZmtpInvalidMetadata,
    ZmtpCryptographic,
    ZmtpMechanismMismatch,
    ZapUnspecified,
    ZapMalformedReply,
    ZapBadRequestId,
    ZapBadVersion,
    ZapInvalidStatusCode,
    ZapInvalidMetadata,
    /// a protocol error number without a variant of its own
    UnsupportedError(u32),
}

/// The protocol error that the runtime reports by `value`. The runtime's
/// `ZMQ_PROTOCOL_ERROR_ZMTP_INVALID_METADATA` is reported as
/// [`ZapInvalidMetadata`](HandshakeProtocolError::ZapInvalidMetadata), like
/// `ZMQ_PROTOCOL_ERROR_ZAP_INVALID_METADATA`.
pub open spec fn protocol_error_of(value: u32) -> HandshakeProtocolError {
    if value == 0x10000000 {
        HandshakeProtocolError::ZmtpUnspecified
    } else if value == 0x10000001 {
        HandshakeProtocolError::ZmtpUnexpectedCommand
    } else if value == 0x10000002 {
        HandshakeProtocolError::ZmtpInvalidSequence
    } else if value == 0x10000003 {
        HandshakeProtocolError::ZmtpKeyEchange
    } else if value == 0x10000011 {
        HandshakeProtocolError::ZmtpMalformedCommandUnspecified
    } else if value == 0x10000012 {
        HandshakeProtocolError::ZmtpMalformedCommandMessage
    } else if value == 0x10000013 {
        HandshakeProtocolError::ZmtpMalformedCommandHello
    } else if value == 0x10000014 {
        HandshakeProtocolError::ZmtpMalformedCommandInitiate
    } else if value == 0x10000015 {
        HandshakeProtocolError::ZmtpMalformedCommandError
    } else if value == 0x10000016 {
        HandshakeProtocolError::ZmtpMalformedCommandReady
    } else if value == 0x10000017 {
        HandshakeProtocolError::ZmtpMalformedCommandWelcome
    } else if value == 0x10000018 {
        HandshakeProtocolError::ZapInvalidMetadata
    } else if value == 0x11000001 {
        HandshakeProtocolError::ZmtpCryptographic
    } else if value == 0x11000002 {
        HandshakeProtocolError::ZmtpMechanismMismatch
    } else if value == 0x20000000 {
        HandshakeProtocolError::ZapUnspecified
    } else if value == 0x20000001 {
        HandshakeProtocolError::ZapMalformedReply
    } else if value == 0x20000002 {
        HandshakeProtocolError::ZapBadRequestId
    } else if value == 0x20000003 {
        HandshakeProtocolError::ZapBadVersion
    } else if value == 0x20000004 {
        HandshakeProtocolError::ZapInvalidStatusCode
    } else if value == 0x20000005 {
        HandshakeProtocolError::ZapInvalidMetadata
    } else {
        HandshakeProtocolError::UnsupportedError(value)
    }
}

impl From<u32> for HandshakeProtocolError {
    fn from(value: u32) -> (e: HandshakeProtocolError) {
        if value == 0x10000000 {
            HandshakeProtocolError::ZmtpUnspecified
        } else if value == 0x10000001 {
            HandshakeProtocolError::ZmtpUnexpectedCommand
        } else if value == 0x10000002 {
            HandshakeProtocolError::ZmtpInvalidSequence
        } else if value == 0x10000003 {
            HandshakeProtocolError::ZmtpKeyEchange
        } else if value == 0x10000011 {
            HandshakeProtocolError::ZmtpMalformedCommandUnspecified
        } else if value == 0x10000012 {
            HandshakeProtocolError::ZmtpMalformedCommandMessage
        } else if value == 0x10000013 {
            HandshakeProtocolError::ZmtpMalformedCommandHello
        } else if value == 0x10000014 {
            HandshakeProtocolError::ZmtpMalformedCommandInitiate
        } else if value == 0x10000015 {
            HandshakeProtocolError::ZmtpMalformedCommandError
        } else if value == 0x10000016 {
            HandshakeProtocolError::ZmtpMalformedCommandReady
        } else if value == 0x10000017 {
            HandshakeProtocolError::ZmtpMalformedCommandWelcome
        } else if value == 0x10000018 {
            HandshakeProtocolError::ZapInvalidMetadata
        } else if value == 0x11000001 {
            HandshakeProtocolError::ZmtpCryptographic
        } else if value == 0x11000002 {
            HandshakeProtocolError::ZmtpMechanismMismatch
        } else if value == 0x20000000 {
            HandshakeProtocolError::ZapUnspecified
        } else if value == 0x20000001 {
            HandshakeProtocolError::ZapMalformedReply
        } else if value == 0x20000002 {
            HandshakeProtocolError::ZapBadRequestId
        } else if value == 0x20000003 {
            HandshakeProtocolError::ZapBadVersion
        } else if value == 0x20000004 {
            HandshakeProtocolError::ZapInvalidStatusCode
        } else if value == 0x20000005 {
            HandshakeProtocolError::ZapInvalidMetadata
        } else {
            HandshakeProtocolError::UnsupportedError(value)
        }
    }
}

impl vstd::std_specs::convert::FromSpecImpl<u32> for HandshakeProtocolError {
    open spec fn obeys_from_spec() -> bool {
        true
    }

    open spec fn from_spec(value: u32) -> HandshakeProtocolError {
        protocol_error_of(value)
    }
}

/// The events that a monitor socket reports.
#[derive(Debug, Clone, Copy, PartialEq, Eq, Structural)]
pub enum MonitorSocketEvent {
    /// the socket connected to a peer
    Connected,
    /// a connection is pending
    ConnectDelayed,
    /// a connection failed and is retried after the given interval, in milliseconds
    ConnectRetried(u32),
    /// the socket is bound to an interface
    Listening,
    /// the socket could not bind to an interface
    BindFailed,
    /// the socket accepted a connection
    Accepted,
    /// the socket rejected a connection, with the error of the accept call
    AcceptFailed(ZmqError),
    /// the socket was closed
    Closed,
    /// closing the socket failed, with the error of the close call
    CloseFailed(ZmqError),
    /// the socket was disconnected
    Disconnected,
    /// monitoring ended
    MonitorStopped,
    /// a handshake failed without details, with its error
    HandshakeFailedNoDetail(ZmqError),
    /// a handshake succeeded
    HandshakeSucceeded,
    /// a handshake failed on a protocol error
    HandshakeFailedProtocol(HandshakeProtocolError),
    /// a handshake failed on authentication, with the status code of the ZAP handler
    HandshakeFailedAuth(u32),
    /// an event that the library does not read, with its event number
    UnSupported(MonitorFlags, u32),
}

/// The 16-bit number that two bytes hold, least significant byte first.
pub open spec fn le_u16(b0: u8, b1: u8) -> u16 {
    (b0 as int + b1 as int * 256) as u16
}

/// The 32-bit number that four bytes hold, least significant byte first.
pub open spec fn le_u32(b0: u8, b1: u8, b2: u8, b3: u8) -> u32 {
    (b0 as int + b1 as int * 256 + b2 as int * 65536 + b3 as int * 16777216) as u32
}

/// The event with number `id` and value `value`. The event numbers are the bits of
/// [`MonitorFlags`]; the value is the error number of failed accepts, closes and handshakes,
/// the retry interval of retried connections, the protocol error of failed protocol
/// handshakes and the status code of failed authentications. An event number that is not
/// read, such as that of a failed bind, gives [`UnSupported`](MonitorSocketEvent::UnSupported)
/// with the number and a value of zero.
pub open spec fn event_of(id: u16, value: u32) -> MonitorSocketEvent {
    if id == 1 {
        MonitorSocketEvent::Connected
    } else if id == 2 {
        MonitorSocketEvent::ConnectDelayed
    } else if id == 4 {
        MonitorSocketEvent::ConnectRetried(value)
    } else if id == 8 {
        MonitorSocketEvent::Listening
    } else if id == 32 {
        MonitorSocketEvent::Accepted
    } else if id == 64 {
        MonitorSocketEvent::AcceptFailed(error_of_errno(value as i32))
    } else if id == 128 {
        MonitorSocketEvent::Closed
    } else if id == 256 {
        MonitorSocketEvent::CloseFailed(error_of_errno(value as i32))
    } else if id == 512 {
        MonitorSocketEvent::Disconnected
    } else if id == 1024 {
        MonitorSocketEvent::MonitorStopped
    } else if id == 2048 {
        MonitorSocketEvent::HandshakeFailedNoDetail(error_of_errno(value as i32))
    } else if id == 4096 {
        MonitorSocketEvent::HandshakeSucceeded
    } else if id == 8192 {
        MonitorSocketEvent::HandshakeFailedProtocol(protocol_error_of(value))
    } else if id == 16384 {
        MonitorSocketEvent::HandshakeFailedAuth(value)
    } else {
        MonitorSocketEvent::UnSupported(MonitorFlags(id), 0)
    }
}

/// The event that a monitor message of the given parts reports: a message of two parts
/// whose first part has six bytes, the event number in the first two and the event value
/// in the last four, least significant byte first. Any other message is an invalid
/// argument.
pub open spec fn event_of_parts(parts: Seq<Message>) -> Result<MonitorSocketEvent, ZmqError> {
    if parts.len() != 2 || parts[0]@.data.len() != 6 {
        Err(ZmqError::InvalidArgument)
    } else {
        let b = parts[0]@.data;
        Ok(event_of(le_u16(b[0], b[1]), le_u32(b[2], b[3], b[4], b[5])))
    }
}

/// The six bytes in which the runtime packs an event: its number in two bytes and its value
/// in four, least significant byte first.
pub open spec fn event_bytes(id: u16, value: u32) -> Seq<u8> {
    seq![
        (id & 0xff) as u8,
        (id >> 8) as u8,
        (value & 0xff) as u8,
        ((value >> 8) & 0xff) as u8,
        ((value >> 16) & 0xff) as u8,
        (value >> 24) as u8,
    ]
}

/// A monitor message whose first part holds the packed event and which has a second part
/// (the endpoint) reads back as that event: the number and the value come back unchanged.
pub proof fn lemma_event_message_round_trip(parts: Seq<Message>, id: u16, value: u32)
    requires
        parts.len() == 2,
        parts[0]@.data == event_bytes(id, value),
    ensures
        event_of_parts(parts) == Ok::<MonitorSocketEvent, ZmqError>(event_of(id, value)),
{
    let b0 = (id & 0xff) as u8;
    let b1 = (id >> 8) as u8;
    assert(b0 as int + b1 as int * 256 == id as int) by (bit_vector)
        requires
            b0 == (id & 0xff) as u8,
            b1 == (id >> 8) as u8,
    ;
    let c0 = (value & 0xff) as u8;
    let c1 = ((value >> 8) & 0xff) as u8;
    let c2 = ((value >> 16) & 0xff) as u8;
    let c3 = (value >> 24) as u8;
    assert(c0 as int + c1 as int * 256 + c2 as int * 65536 + c3 as int * 16777216 == value as int) by (bit_vector)
        requires
            c0 == (value & 0xff) as u8,
            c1 == ((value >> 8) & 0xff) as u8,
            c2 == ((value >> 16) & 0xff) as u8,
            c3 == (value >> 24) as u8,
    ;
    let b = parts[0]@.data;
    assert(le_u16(b[0], b[1]) == id);
    assert(le_u32(b[2], b[3], b[4], b[5]) == value);
}

/// The event with number `id` and value `value` (see [`event_of`]).
pub fn event_from(id: u16, value: u32) -> (e: MonitorSocketEvent)
    ensures
        e == event_of(id, value),
{
    if id == 1 {
        MonitorSocketEvent::Connected
    } else if id == 2 {
        MonitorSocketEvent::ConnectDelayed
    } else if id == 4 {
        MonitorSocketEvent::ConnectRetried(value)
    } else if id == 8 {
        MonitorSocketEvent::Listening
    } else if id == 32 {
        MonitorSocketEvent::Accepted
    } else if id == 64 {
        MonitorSocketEvent::AcceptFailed(ZmqError::from(value as i32))
    } else if id == 128 {
        MonitorSocketEvent::Closed
    } else if id == 256 {
        MonitorSocketEvent::CloseFailed(ZmqError::from(value as i32))
    } else if id == 512 {
        MonitorSocketEvent::Disconnected
    } else if id == 1024 {
        MonitorSocketEvent::MonitorStopped
    } else if id == 2048 {
        MonitorSocketEvent::HandshakeFailedNoDetail(ZmqError::from(value as i32))
    } else if id == 4096 {
        MonitorSocketEvent::HandshakeSucceeded
    } else if id == 8192 {
        MonitorSocketEvent::HandshakeFailedProtocol(HandshakeProtocolError::from(value))
    } else if id == 16384 {
        MonitorSocketEvent::HandshakeFailedAuth(value)
    } else {
        MonitorSocketEvent::UnSupported(MonitorFlags::from_bits_retain(id), 0)
    }
}

impl TryFrom<MultipartMessage> for MonitorSocketEvent {
    type Error = ZmqError;

    /// Reads the event that a monitor message reports (see [`event_of_parts`]).
    fn try_from(zmq_msgs: MultipartMessage) -> (r: Result<MonitorSocketEvent, ZmqError>) {
        if zmq_msgs.len() != 2 {
            return Err(ZmqError::InvalidArgument);
        }
        let first = match zmq_msgs.get(0) {
            Some(m) => m,
            None => return Err(ZmqError::InvalidArgument),
        };
        if first.len() != 6 {
            return Err(ZmqError::InvalidArgument);
        }
        let b = first.as_bytes();
        let id: u16 = b[0] as u16 + (b[1] as u16) * 256;
        let value: u32 = b[2] as u32 + (b[3] as u32) * 256 + (b[4] as u32) * 65536 + (b[5] as u32) * 16777216;
        Ok(event_from(id, value))
    }
}

impl vstd::std_specs::convert::TryFromSpecImpl<MultipartMessage> for MonitorSocketEvent {
    open spec fn obeys_try_from_spec() -> bool {
        true
    }

    open spec fn try_from_spec(zmq_msgs: MultipartMessage) -> Result<MonitorSocketEvent, ZmqError> {
        event_of_parts(zmq_msgs@)
    }
}

/// The kind of monitor sockets: pair sockets that receive the events of a monitored
/// socket.
pub struct Monitor {}

impl sealed::ReceiverFlag for Monitor {}

impl sealed::SocketType for Monitor {
    open spec fn spec_socket_type() -> SocketType {
        SocketType::Pair
    }

    fn raw_socket_type() -> (t: SocketType) {
        SocketType::Pair
    }
}

/// A monitor socket `ZMQ_PAIR`.
pub type MonitorSocket = Socket<Monitor>;

} // verus!

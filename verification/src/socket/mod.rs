//! Socket kinds, socket options, and the typed sockets of the library.
//!
//! A [`Socket`] decides what the runtime is asked to do: which option is written with
//! which value, which option is read in which width, which endpoint is bound or connected.
//! The runtime's answers become results through the functions of [`crate::option`].
use vstd::prelude::*;
use vstd::string::{StrSliceExecFns, StringSliceAdditionalSpecFns};
use std::marker::PhantomData;

use crate::context::Context;
use crate::error::{ZmqError, ZmqResult};
use crate::option::{flag_int, flag_value, holds_bytes, OptionData, OptionValue, ValueKind};
use crate::auth::ZapDomain;
use crate::sealed;
use crate::security::{
    mechanism_writes, nametype_code, replies_view, security_progress, security_progress_spec,
    GssApiNametype, SecurityMechanism, SecurityProgress,
};
use vstd::utf8::encode_utf8;

pub mod flags;
pub mod channel;
pub mod client;
pub mod dealer;
pub mod dish;
pub mod gather;
pub mod pair;
pub mod peer;
pub mod publish;
pub mod pull;
pub mod push;
pub mod radio;
pub mod reply;
pub mod request;
pub mod router;
pub mod scatter;
pub mod server;
pub mod stream;
pub mod xpublish;
pub mod xsubscribe;
pub mod monitor;

pub use flags::{MonitorFlags, PollEvents, RecvFlags, RouterNotify, SendFlags};
pub use monitor::{HandshakeProtocolError, Monitor, MonitorSocket, MonitorSocketEvent};

pub use channel::{Channel, ChannelSocket};
pub use client::{Client, ClientSocket};
pub use dealer::{Dealer, DealerSocket};
pub use dish::{Dish, DishSocket};
pub use gather::{Gather, GatherSocket};
pub use pair::{Pair, PairSocket};
pub use peer::{Peer, PeerSocket};
pub use publish::{Publish, PublishSocket};
pub use pull::{Pull, PullSocket};
pub use push::{Push, PushSocket};
pub use radio::{Radio, RadioSocket};
pub use reply::{Reply, ReplySocket};
pub use request::{Request, RequestSocket};
pub use router::{Router, RouterSocket};
pub use scatter::{Scatter, ScatterSocket};
pub use server::{Server, ServerSocket};
pub use stream::{Stream, StreamSocket};
pub use xpublish::{XPublish, XPublishSocket};
pub use xsubscribe::{XSubscribe, XSubscribeSocket};

verus! {

/// The kinds of sockets of the runtime.
#[derive(Debug, Clone, Copy, PartialEq, Eq, Structural)]
pub enum SocketType {
    /// `ZMQ_PAIR`
    Pair,
    /// `ZMQ_PUB`
    Publish,
    /// `ZMQ_SUB`
    Subscribe,
    /// `ZMQ_REQ`
    Request,
    /// `ZMQ_REP`
    Reply,
    /// `ZMQ_DEALER`
    Dealer,
    /// `ZMQ_ROUTER`
    Router,
    /// `ZMQ_PULL`
    Pull,
    /// `ZMQ_PUSH`
    Push,
    /// `ZMQ_XPUB`
    XPublish,
    /// `ZMQ_XSUB`
    XSubscribe,
    /// `ZMQ_STREAM`
    Stream,
    /// `ZMQ_SERVER`
    Server,
    /// `ZMQ_CLIENT`
    Client,
    /// `ZMQ_RADIO`
    Radio,
    /// `ZMQ_DISH`
    Dish,
    /// `ZMQ_GATHER`
    Gather,
    /// `ZMQ_SCATTER`
    Scatter,
    /// `ZMQ_DGRAM`
    Datagram,
    /// `ZMQ_PEER`
    Peer,
    /// `ZMQ_CHANNEL`
    Channel,
}

/// The number by which the runtime knows a socket kind.
pub open spec fn socket_type_code(t: SocketType) -> i32 {
    match t {
        SocketType::Pair => 0,
        SocketType::Publish => 1,
        SocketType::Subscribe => 2,
        SocketType::Request => 3,
        SocketType::Reply => 4,
        SocketType::Dealer => 5,
        SocketType::Router => 6,
        SocketType::Pull => 7,
        SocketType::Push => 8,
        SocketType::XPublish => 9,
        SocketType::XSubscribe => 10,
        SocketType::Stream => 11,
        SocketType::Server => 12,
        SocketType::Client => 13,
        SocketType::Radio => 14,
        SocketType::Dish => 15,
        SocketType::Gather => 16,
        SocketType::Scatter => 17,
        SocketType::Datagram => 18,
        SocketType::Peer => 19,
        SocketType::Channel => 20,
    }
}

impl From<SocketType> for i32 {
    fn from(value: SocketType) -> (code: i32) {
        match value {
            SocketType::Pair => 0,
            SocketType::Publish => 1,
            SocketType::Subscribe => 2,
            SocketType::Request => 3,
            SocketType::Reply => 4,
            SocketType::Dealer => 5,
            SocketType::Router => 6,
            SocketType::Pull => 7,
            SocketType::Push => 8,
            SocketType::XPublish => 9,
            SocketType::XSubscribe => 10,
            SocketType::Stream => 11,
            SocketType::Server => 12,
            SocketType::Client => 13,
            SocketType::Radio => 14,
            SocketType::Dish => 15,
            SocketType::Gather => 16,
            SocketType::Scatter => 17,
            SocketType::Datagram => 18,
            SocketType::Peer => 19,
            SocketType::Channel => 20,
        }
    }
}

impl vstd::std_specs::convert::FromSpecImpl<SocketType> for i32 {
    open spec fn obeys_from_spec() -> bool {
        true
    }

    open spec fn from_spec(value: SocketType) -> i32 {
        socket_type_code(value)
    }
}

/// Different socket kinds have different numbers.
pub proof fn lemma_socket_type_codes_distinct(a: SocketType, b: SocketType)
    requires
        a != b,
    ensures
        socket_type_code(a) != socket_type_code(b),
{
}

/// The options of a socket.
#[derive(Debug, Clone, Copy, PartialEq, Eq, Structural)]
#[non_exhaustive]
pub enum SocketOption {
    /// `ZMQ_AFFINITY`
    Affinity,
    /// `ZMQ_ROUTING_ID`
    RoutingId,
    /// `ZMQ_SUBSCRIBE`
    Subscribe,
    /// `ZMQ_UNSUBSCRIBE`
    Unsubscribe,
    /// `ZMQ_RATE`
    Rate,
    /// `ZMQ_RECOVERY_IVL`
    RecoveryInterval,
    /// `ZMQ_SNDBUF`
    SendBuffer,
    /// `ZMQ_RCVBUF`
    ReceiveBuffer,
    /// `ZMQ_RCVMORE`
    ReceiveMore,
    /// `ZMQ_FD`
    FileDescriptor,
    /// `ZMQ_EVENTS`
    Events,
    /// `ZMQ_TYPE`
    Type,
    /// `ZMQ_LINGER`
    Linger,
    /// `ZMQ_RECONNECT_IVL`
    ReconnectInterval,
    /// `ZMQ_BACKLOG`
    Backlog,
    /// `ZMQ_RECONNECT_IVL_MAX`
    ReconnectIntervalMax,
    /// `ZMQ_MAXMSGSIZE`
    MaxMessageSize,
    /// `ZMQ_SNDHWM`
    SendHighWatermark,
    /// `ZMQ_RCVHWM`
    ReceiveHighWatermark,
    /// `ZMQ_MULTICAST_HOPS`
    MulticastHops,
    /// `ZMQ_RCVTIMEO`
    ReceiveTimeout,
    /// `ZMQ_SNDTIMEO`
    SendTimeout,
    /// `ZMQ_LAST_ENDPOINT`
    LastEndpoint,
    /// `ZMQ_ROUTER_MANDATORY`
    RouterMandatory,
    /// `ZMQ_TCP_KEEPALIVE`
    TcpKeepalive,
    /// `ZMQ_TCP_KEEPALIVE_CNT`
    TcpKeepaliveCount,
    /// `ZMQ_TCP_KEEPALIVE_IDLE`
    TcpKeepaliveIdle,
    /// `ZMQ_TCP_KEEPALIVE_INTVL`
    TcpKeepaliveInterval,
    /// `ZMQ_TCP_ACCEPT_FILTER`
    TcpAcceptFilter,
    /// `ZMQ_IMMEDIATE`
    Immediate,
    /// `ZMQ_XPUB_VERBOSE`
    XpubVerbose,
    /// `ZMQ_ROUTER_RAW`
    RouterRaw,
    /// `ZMQ_IPV6`
    IPv6,
    /// `ZMQ_MECHANISM`
    Mechanism,
    /// `ZMQ_PLAIN_SERVER`
    PlainServer,
    /// `ZMQ_PLAIN_USERNAME`
    PlainUsername,
    /// `ZMQ_PLAIN_PASSWORD`
    PlainPassword,
    /// `ZMQ_CURVE_PUBLICKEY`
    CurvePublicKey,
    /// `ZMQ_CURVE_SECRETKEY`
    CurveSecretKey,
    /// `ZMQ_CURVE_SERVER`
    CurveServer,
    /// `ZMQ_CURVE_SERVERKEY`
    CurveServerKey,
    /// `ZMQ_PROBE_ROUTER`
    ProbeRouter,
    /// `ZMQ_REQ_CORRELATE`
    RequestCorrelate,
    /// `ZMQ_REQ_RELAXED`
    RequestRelaxed,
    /// `ZMQ_CONFLATE`
    Conflate,
    /// `ZMQ_ZAP_DOMAIN`
    ZapDomain,
    /// `ZMQ_ROUTER_HANDOVER`
    RouterHandover,
    /// `ZMQ_TOS`
    TypeOfService,
    /// `ZMQ_IPC_FILTER_PID`
    IpcFilterProcessId,
    /// `ZMQ_IPC_FILTER_UID`
    IpcFilterUserId,
    /// `ZMQ_IPC_FILTER_GID`
    IpcFilterGroupId,
    /// `ZMQ_CONNECT_ROUTING_ID`
    ConnectRoutingId,
    /// `ZMQ_GSSAPI_SERVER`
    GssApiServer,
    /// `ZMQ_GSSAPI_PRINCIPAL`
    GssApiPrincipal,
    /// `ZMQ_GSSAPI_SERVICE_PRINCIPAL`
    GssApiServicePrincipal,
    /// `ZMQ_GSSAPI_PLAINTEXT`
    GssApiPlainText,
    /// `ZMQ_HANDSHAKE_IVL`
    HandshakeInterval,
    /// `ZMQ_SOCKS_PROXY`
    SocksProxy,
    /// `ZMQ_XPUB_NODROP`
    XpubNoDrop,
    /// `ZMQ_XPUB_MANUAL`
    XpubManual,
    /// `ZMQ_XPUB_WELCOME_MSG`
    XpubWelcomeMessage,
    /// `ZMQ_STREAM_NOTIFY`
    StreamNotify,
    /// `ZMQ_INVERT_MATCHING`
    InvertMatching,
    /// `ZMQ_HEARTBEAT_IVL`
    HeartbeatInterval,
    /// `ZMQ_HEARTBEAT_TTL`
    HeartbeatTimeToLive,
    /// `ZMQ_HEARTBEAT_TIMEOUT`
    HeartbeatTimeout,
    /// `ZMQ_XPUB_VERBOSER`
    XpubVerboser,
    /// `ZMQ_CONNECT_TIMEOUT`
    ConnectTimeout,
    /// `ZMQ_TCP_MAXRT`
    MaxTcpTransmitTimeout,
    /// `ZMQ_THREAD_SAFE`
    ThreadSafe,
    /// `ZMQ_MULTICAST_MAXTPDU`
    MulticastMaxTransportDataUnitSize,
    /// `ZMQ_VMCI_BUFFER_SIZE`
    VmciBufferSize,
    /// `ZMQ_VMCI_BUFFER_MIN_SIZE`
    VmciBufferMinSize,
    /// `ZMQ_VMCI_BUFFER_MAX_SIZE`
    VmciBufferMaxSize,
    /// `ZMQ_VMCI_CONNECT_TIMEOUT`
    VmciConntectTimeout,
    /// `ZMQ_USE_FD`
    UseFd,
    /// `ZMQ_GSSAPI_PRINCIPAL_NAMETYPE`
    GssApiPrincipalNametype,
    /// `ZMQ_GSSAPI_SERVICE_PRINCIPAL_NAMETYPE`
    GssApiServicePrincipalNametype,
    /// `ZMQ_BINDTODEVICE`
    BindToDevice,
    /// `ZMQ_ZAP_ENFORCE_DOMAIN`
    ZapEnforceDomain,
    /// `ZMQ_METADATA`
    Metadata,
    /// `ZMQ_MULTICAST_LOOP`
    MulticastLoop,
    /// `ZMQ_ROUTER_NOTIFY`
    RouterNotify,
    /// `ZMQ_XPUB_MANUAL_LAST_VALUE`
    XpubManualLastValue,
    /// `ZMQ_SOCKS_USERNAME`
    SocksUsername,
    /// `ZMQ_SOCKS_PASSWORD`
    SocksPassword,
    /// `ZMQ_IN_BATCH_SIZE`
    InBatchSize,
    /// `ZMQ_OUT_BATCH_SIZE`
    OutBatchSize,
    /// `ZMQ_ONLY_FIRST_SUBSCRIBE`
    OnlyFirstSubscribe,
    /// `ZMQ_RECONNECT_STOP`
    ReconnectStop,
    /// `ZMQ_HELLO_MSG`
    HelloMessage,
    /// `ZMQ_DISCONNECT_MSG`
    DisconnectMessage,
    /// `ZMQ_PRIORITY`
    Priority,
    /// `ZMQ_BUSY_POLL`
    BusyPoll,
    /// `ZMQ_HICCUP_MSG`
    HiccupMessage,
    /// `ZMQ_XSUB_VERBOSE_UNSUBSCRIBE`
    XsubVerboseUnsubscribe,
    /// `ZMQ_TOPICS_COUNT`
    TopicsCount,
    /// `ZMQ_NORM_MODE`
    NormMode,
    /// `ZMQ_NORM_UNICAST_NACK`
    NormUnicastNack,
    /// `ZMQ_NORM_BUFFER_SIZE`
    NormBufferSize,
    /// `ZMQ_NORM_SEGMENT_SIZE`
    NormSegmentSize,
    /// `ZMQ_NORM_BLOCK_SIZE`
    NormBlockSize,
    /// `ZMQ_NORM_NUM_PARITY`
    NormNumnParity,
    /// `ZMQ_NORM_NUM_AUTOPARITY`
    NormNumnAutoParity,
    /// `ZMQ_NORM_PUSH`
    NormPush,
}

/// The number by which the runtime knows a socket option.
pub open spec fn option_code(option: SocketOption) -> i32 {
    match option {
        SocketOption::Affinity => 4,
        SocketOption::RoutingId => 5,
        SocketOption::Subscribe => 6,
        SocketOption::Unsubscribe => 7,
        SocketOption::Rate => 8,
        SocketOption::RecoveryInterval => 9,
        SocketOption::SendBuffer => 11,
        SocketOption::ReceiveBuffer => 12,
        SocketOption::ReceiveMore => 13,
        SocketOption::FileDescriptor => 14,
        SocketOption::Events => 15,
        SocketOption::Type => 16,
        SocketOption::Linger => 17,
        SocketOption::ReconnectInterval => 18,
        SocketOption::Backlog => 19,
        SocketOption::ReconnectIntervalMax => 21,
        SocketOption::MaxMessageSize => 22,
        SocketOption::SendHighWatermark => 23,
        SocketOption::ReceiveHighWatermark => 24,
        SocketOption::MulticastHops => 25,
        SocketOption::ReceiveTimeout => 27,
        SocketOption::SendTimeout => 28,
        SocketOption::LastEndpoint => 32,
        SocketOption::RouterMandatory => 33,
        SocketOption::TcpKeepalive => 34,
        SocketOption::TcpKeepaliveCount => 35,
        SocketOption::TcpKeepaliveIdle => 36,
        SocketOption::TcpKeepaliveInterval => 37,
        SocketOption::TcpAcceptFilter => 38,
        SocketOption::Immediate => 39,
        SocketOption::XpubVerbose => 40,
        SocketOption::RouterRaw => 41,
        SocketOption::IPv6 => 42,
        SocketOption::Mechanism => 43,
        SocketOption::PlainServer => 44,
        SocketOption::PlainUsername => 45,
        SocketOption::PlainPassword => 46,
        SocketOption::CurvePublicKey => 48,
        SocketOption::CurveSecretKey => 49,
        SocketOption::CurveServer => 47,
        SocketOption::CurveServerKey => 50,
        SocketOption::ProbeRouter => 51,
        SocketOption::RequestCorrelate => 52,
        SocketOption::RequestRelaxed => 53,
        SocketOption::Conflate => 54,
        SocketOption::ZapDomain => 55,
        SocketOption::RouterHandover => 56,
        SocketOption::TypeOfService => 57,
        SocketOption::IpcFilterProcessId => 58,
        SocketOption::IpcFilterUserId => 59,
        SocketOption::IpcFilterGroupId => 60,
        SocketOption::ConnectRoutingId => 61,
        SocketOption::GssApiServer => 62,
        SocketOption::GssApiPrincipal => 63,
        SocketOption::GssApiServicePrincipal => 64,
        SocketOption::GssApiPlainText => 65,
        SocketOption::HandshakeInterval => 66,
        SocketOption::SocksProxy => 68,
        SocketOption::XpubNoDrop => 69,
        SocketOption::XpubManual => 71,
        SocketOption::XpubWelcomeMessage => 72,
        SocketOption::StreamNotify => 73,
        SocketOption::InvertMatching => 74,
        SocketOption::HeartbeatInterval => 75,
        SocketOption::HeartbeatTimeToLive => 76,
        SocketOption::HeartbeatTimeout => 77,
        SocketOption::XpubVerboser => 78,
        SocketOption::ConnectTimeout => 79,
        SocketOption::MaxTcpTransmitTimeout => 80,
        SocketOption::ThreadSafe => 81,
        SocketOption::MulticastMaxTransportDataUnitSize => 84,
        SocketOption::VmciBufferSize => 85,
        SocketOption::VmciBufferMinSize => 86,
        SocketOption::VmciBufferMaxSize => 87,
        SocketOption::VmciConntectTimeout => 88,
        SocketOption::UseFd => 89,
        SocketOption::GssApiPrincipalNametype => 90,
        SocketOption::GssApiServicePrincipalNametype => 91,
        SocketOption::BindToDevice => 92,
        SocketOption::ZapEnforceDomain => 93,
        SocketOption::Metadata => 95,
        SocketOption::MulticastLoop => 96,
        SocketOption::RouterNotify => 97,
        SocketOption::XpubManualLastValue => 98,
        SocketOption::SocksUsername => 99,
        SocketOption::SocksPassword => 100,
        SocketOption::InBatchSize => 101,
        SocketOption::OutBatchSize => 102,
        SocketOption::OnlyFirstSubscribe => 108,
        SocketOption::ReconnectStop => 109,
        SocketOption::HelloMessage => 110,
        SocketOption::DisconnectMessage => 111,
        SocketOption::Priority => 112,
        SocketOption::BusyPoll => 113,
        SocketOption::HiccupMessage => 114,
        SocketOption::XsubVerboseUnsubscribe => 115,
        SocketOption::TopicsCount => 116,
        SocketOption::NormMode => 117,
        SocketOption::NormUnicastNack => 118,
        SocketOption::NormBufferSize => 119,
        SocketOption::NormSegmentSize => 120,
        SocketOption::NormBlockSize => 121,
        SocketOption::NormNumnParity => 122,
        SocketOption::NormNumnAutoParity => 123,
        SocketOption::NormPush => 124,
    }
}

/// The socket option that the runtime knows by `code`, if any.
pub open spec fn option_with_code(code: i32) -> Option<SocketOption> {
    if code == 4 {
        Some(SocketOption::Affinity)
    } else if code == 5 {
        Some(SocketOption::RoutingId)
    } else if code == 6 {
        Some(SocketOption::Subscribe)
    } else if code == 7 {
        Some(SocketOption::Unsubscribe)
    } else if code == 8 {
        Some(SocketOption::Rate)
    } else if code == 9 {
        Some(SocketOption::RecoveryInterval)
    } else if code == 11 {
        Some(SocketOption::SendBuffer)
    } else if code == 12 {
        Some(SocketOption::ReceiveBuffer)
    } else if code == 13 {
        Some(SocketOption::ReceiveMore)
    } else if code == 14 {
        Some(SocketOption::FileDescriptor)
    } else if code == 15 {
        Some(SocketOption::Events)
    } else if code == 16 {
        Some(SocketOption::Type)
    } else if code == 17 {
        Some(SocketOption::Linger)
    } else if code == 18 {
        Some(SocketOption::ReconnectInterval)
    } else if code == 19 {
        Some(SocketOption::Backlog)
    } else if code == 21 {
        Some(SocketOption::ReconnectIntervalMax)
    } else if code == 22 {
        Some(SocketOption::MaxMessageSize)
    } else if code == 23 {
        Some(SocketOption::SendHighWatermark)
    } else if code == 24 {
        Some(SocketOption::ReceiveHighWatermark)
    } else if code == 25 {
        Some(SocketOption::MulticastHops)
    } else if code == 27 {
        Some(SocketOption::ReceiveTimeout)
    } else if code == 28 {
        Some(SocketOption::SendTimeout)
    } else if code == 32 {
        Some(SocketOption::LastEndpoint)
    } else if code == 33 {
        Some(SocketOption::RouterMandatory)
    } else if code == 34 {
        Some(SocketOption::TcpKeepalive)
    } else if code == 35 {
        Some(SocketOption::TcpKeepaliveCount)
    } else if code == 36 {
        Some(SocketOption::TcpKeepaliveIdle)
    } else if code == 37 {
        Some(SocketOption::TcpKeepaliveInterval)
    } else if code == 38 {
        Some(SocketOption::TcpAcceptFilter)
    } else if code == 39 {
        Some(SocketOption::Immediate)
    } else if code == 40 {
        Some(SocketOption::XpubVerbose)
    } else if code == 41 {
        Some(SocketOption::RouterRaw)
    } else if code == 42 {
        Some(SocketOption::IPv6)
    } else if code == 43 {
        Some(SocketOption::Mechanism)
    } else if code == 44 {
        Some(SocketOption::PlainServer)
    } else if code == 45 {
        Some(SocketOption::PlainUsername)
    } else if code == 46 {
        Some(SocketOption::PlainPassword)
    } else if code == 48 {
        Some(SocketOption::CurvePublicKey)
    } else if code == 49 {
        Some(SocketOption::CurveSecretKey)
    } else if code == 47 {
        Some(SocketOption::CurveServer)
    } else if code == 50 {
        Some(SocketOption::CurveServerKey)
    } else if code == 51 {
        Some(SocketOption::ProbeRouter)
    } else if code == 52 {
        Some(SocketOption::RequestCorrelate)
    } else if code == 53 {
        Some(SocketOption::RequestRelaxed)
    } else if code == 54 {
        Some(SocketOption::Conflate)
    } else if code == 55 {
        Some(SocketOption::ZapDomain)
    } else if code == 56 {
        Some(SocketOption::RouterHandover)
    } else if code == 57 {
        Some(SocketOption::TypeOfService)
    } else if code == 58 {
        Some(SocketOption::IpcFilterProcessId)
    } else if code == 59 {
        Some(SocketOption::IpcFilterUserId)
    } else if code == 60 {
        Some(SocketOption::IpcFilterGroupId)
    } else if code == 61 {
        Some(SocketOption::ConnectRoutingId)
    } else if code == 62 {
        Some(SocketOption::GssApiServer)
    } else if code == 63 {
        Some(SocketOption::GssApiPrincipal)
    } else if code == 64 {
        Some(SocketOption::GssApiServicePrincipal)
    } else if code == 65 {
        Some(SocketOption::GssApiPlainText)
    } else if code == 66 {
        Some(SocketOption::HandshakeInterval)
    } else if code == 68 {
        Some(SocketOption::SocksProxy)
    } else if code == 69 {
        Some(SocketOption::XpubNoDrop)
    } else if code == 71 {
        Some(SocketOption::XpubManual)
    } else if code == 72 {
        Some(SocketOption::XpubWelcomeMessage)
    } else if code == 73 {
        Some(SocketOption::StreamNotify)
    } else if code == 74 {
        Some(SocketOption::InvertMatching)
    } else if code == 75 {
        Some(SocketOption::HeartbeatInterval)
    } else if code == 76 {
        Some(SocketOption::HeartbeatTimeToLive)
    } else if code == 77 {
        Some(SocketOption::HeartbeatTimeout)
    } else if code == 78 {
        Some(SocketOption::XpubVerboser)
    } else if code == 79 {
        Some(SocketOption::ConnectTimeout)
    } else if code == 80 {
        Some(SocketOption::MaxTcpTransmitTimeout)
    } else if code == 81 {
        Some(SocketOption::ThreadSafe)
    } else if code == 84 {
        Some(SocketOption::MulticastMaxTransportDataUnitSize)
    } else if code == 85 {
        Some(SocketOption::VmciBufferSize)
    } else if code == 86 {
        Some(SocketOption::VmciBufferMinSize)
    } else if code == 87 {
        Some(SocketOption::VmciBufferMaxSize)
    } else if code == 88 {
        Some(SocketOption::VmciConntectTimeout)
    } else if code == 89 {
        Some(SocketOption::UseFd)
    } else if code == 90 {
        Some(SocketOption::GssApiPrincipalNametype)
    } else if code == 91 {
        Some(SocketOption::GssApiServicePrincipalNametype)
    } else if code == 92 {
        Some(SocketOption::BindToDevice)
    } else if code == 93 {
        Some(SocketOption::ZapEnforceDomain)
    } else if code == 95 {
        Some(SocketOption::Metadata)
    } else if code == 96 {
        Some(SocketOption::MulticastLoop)
    } else if code == 97 {
        Some(SocketOption::RouterNotify)
    } else if code == 98 {
        Some(SocketOption::XpubManualLastValue)
    } else if code == 99 {
        Some(SocketOption::SocksUsername)
    } else if code == 100 {
        Some(SocketOption::SocksPassword)
    } else if code == 101 {
        Some(SocketOption::InBatchSize)
    } else if code == 102 {
        Some(SocketOption::OutBatchSize)
    } else if code == 108 {
        Some(SocketOption::OnlyFirstSubscribe)
    } else if code == 109 {
        Some(SocketOption::ReconnectStop)
    } else if code == 110 {
        Some(SocketOption::HelloMessage)
    } else if code == 111 {
        Some(SocketOption::DisconnectMessage)
    } else if code == 112 {
        Some(SocketOption::Priority)
    } else if code == 113 {
        Some(SocketOption::BusyPoll)
    } else if code == 114 {
        Some(SocketOption::HiccupMessage)
    } else if code == 115 {
        Some(SocketOption::XsubVerboseUnsubscribe)
    } else if code == 116 {
        Some(SocketOption::TopicsCount)
    } else if code == 117 {
        Some(SocketOption::NormMode)
    } else if code == 118 {
        Some(SocketOption::NormUnicastNack)
    } else if code == 119 {
        Some(SocketOption::NormBufferSize)
    } else if code == 120 {
        Some(SocketOption::NormSegmentSize)
    } else if code == 121 {
        Some(SocketOption::NormBlockSize)
    } else if code == 122 {
        Some(SocketOption::NormNumnParity)
    } else if code == 123 {
        Some(SocketOption::NormNumnAutoParity)
    } else if code == 124 {
        Some(SocketOption::NormPush)
    } else {
        None
    }
}

impl From<SocketOption> for i32 {
    fn from(value: SocketOption) -> (code: i32) {
        match value {
            SocketOption::Affinity => 4,
            SocketOption::RoutingId => 5,
            SocketOption::Subscribe => 6,
            SocketOption::Unsubscribe => 7,
            SocketOption::Rate => 8,
            SocketOption::RecoveryInterval => 9,
            SocketOption::SendBuffer => 11,
            SocketOption::ReceiveBuffer => 12,
            SocketOption::ReceiveMore => 13,
            SocketOption::FileDescriptor => 14,
            SocketOption::Events => 15,
            SocketOption::Type => 16,
            SocketOption::Linger => 17,
            SocketOption::ReconnectInterval => 18,
            SocketOption::Backlog => 19,
            SocketOption::ReconnectIntervalMax => 21,
            SocketOption::MaxMessageSize => 22,
            SocketOption::SendHighWatermark => 23,
            SocketOption::ReceiveHighWatermark => 24,
            SocketOption::MulticastHops => 25,
            SocketOption::ReceiveTimeout => 27,
            SocketOption::SendTimeout => 28,
            SocketOption::LastEndpoint => 32,
            SocketOption::RouterMandatory => 33,
            SocketOption::TcpKeepalive => 34,
            SocketOption::TcpKeepaliveCount => 35,
            SocketOption::TcpKeepaliveIdle => 36,
            SocketOption::TcpKeepaliveInterval => 37,
            SocketOption::TcpAcceptFilter => 38,
            SocketOption::Immediate => 39,
            SocketOption::XpubVerbose => 40,
            SocketOption::RouterRaw => 41,
            SocketOption::IPv6 => 42,
            SocketOption::Mechanism => 43,
            SocketOption::PlainServer => 44,
            SocketOption::PlainUsername => 45,
            SocketOption::PlainPassword => 46,
            SocketOption::CurvePublicKey => 48,
            SocketOption::CurveSecretKey => 49,
            SocketOption::CurveServer => 47,
            SocketOption::CurveServerKey => 50,
            SocketOption::ProbeRouter => 51,
            SocketOption::RequestCorrelate => 52,
            SocketOption::RequestRelaxed => 53,
            SocketOption::Conflate => 54,
            SocketOption::ZapDomain => 55,
            SocketOption::RouterHandover => 56,
            SocketOption::TypeOfService => 57,
            SocketOption::IpcFilterProcessId => 58,
            SocketOption::IpcFilterUserId => 59,
            SocketOption::IpcFilterGroupId => 60,
            SocketOption::ConnectRoutingId => 61,
            SocketOption::GssApiServer => 62,
            SocketOption::GssApiPrincipal => 63,
            SocketOption::GssApiServicePrincipal => 64,
            SocketOption::GssApiPlainText => 65,
            SocketOption::HandshakeInterval => 66,
            SocketOption::SocksProxy => 68,
            SocketOption::XpubNoDrop => 69,
            SocketOption::XpubManual => 71,
            SocketOption::XpubWelcomeMessage => 72,
            SocketOption::StreamNotify => 73,
            SocketOption::InvertMatching => 74,
            SocketOption::HeartbeatInterval => 75,
            SocketOption::HeartbeatTimeToLive => 76,
            SocketOption::HeartbeatTimeout => 77,
            SocketOption::XpubVerboser => 78,
            SocketOption::ConnectTimeout => 79,
            SocketOption::MaxTcpTransmitTimeout => 80,
            SocketOption::ThreadSafe => 81,
            SocketOption::MulticastMaxTransportDataUnitSize => 84,
            SocketOption::VmciBufferSize => 85,
            SocketOption::VmciBufferMinSize => 86,
            SocketOption::VmciBufferMaxSize => 87,
            SocketOption::VmciConntectTimeout => 88,
            SocketOption::UseFd => 89,
            SocketOption::GssApiPrincipalNametype => 90,
            SocketOption::GssApiServicePrincipalNametype => 91,
            SocketOption::BindToDevice => 92,
            SocketOption::ZapEnforceDomain => 93,
            SocketOption::Metadata => 95,
            SocketOption::MulticastLoop => 96,
            SocketOption::RouterNotify => 97,
            SocketOption::XpubManualLastValue => 98,
            SocketOption::SocksUsername => 99,
            SocketOption::SocksPassword => 100,
            SocketOption::InBatchSize => 101,
            SocketOption::OutBatchSize => 102,
            SocketOption::OnlyFirstSubscribe => 108,
            SocketOption::ReconnectStop => 109,
            SocketOption::HelloMessage => 110,
            SocketOption::DisconnectMessage => 111,
            SocketOption::Priority => 112,
            SocketOption::BusyPoll => 113,
            SocketOption::HiccupMessage => 114,
            SocketOption::XsubVerboseUnsubscribe => 115,
            SocketOption::TopicsCount => 116,
            SocketOption::NormMode => 117,
            SocketOption::NormUnicastNack => 118,
            SocketOption::NormBufferSize => 119,
            SocketOption::NormSegmentSize => 120,
            SocketOption::NormBlockSize => 121,
            SocketOption::NormNumnParity => 122,
            SocketOption::NormNumnAutoParity => 123,
            SocketOption::NormPush => 124,
        }
    }
}

impl vstd::std_specs::convert::FromSpecImpl<SocketOption> for i32 {
    open spec fn obeys_from_spec() -> bool {
        true
    }

    open spec fn from_spec(value: SocketOption) -> i32 {
        option_code(value)
    }
}

/// Every socket option is found again from its number.
pub proof fn lemma_option_code_decodes(option: SocketOption)
    ensures
        option_with_code(option_code(option)) == Some(option),
{
}

/// Different socket options have different numbers.
pub proof fn lemma_option_codes_distinct(a: SocketOption, b: SocketOption)
    requires
        a != b,
    ensures
        option_code(a) != option_code(b),
{
    lemma_option_code_decodes(a);
    lemma_option_code_decodes(b);
}


/// A write of a socket option: the option, and the value it is set to.
#[derive(Debug, Clone, PartialEq, Eq)]
pub struct OptionWrite {
    pub option: SocketOption,
    pub value: OptionValue,
}

/// A read of a socket option: the option, and the width it is read in.
#[derive(Debug, Clone, Copy, PartialEq, Eq, Structural)]
pub struct OptionRead {
    pub option: SocketOption,
    pub kind: ValueKind,
}

/// What a socket does with an endpoint or a group.
#[derive(Debug, Clone, Copy, PartialEq, Eq, Structural)]
pub enum EndpointAction {
    /// accepts incoming connections on the endpoint
    Bind,
    /// stops accepting connections on the endpoint
    Unbind,
    /// connects to the endpoint
    Connect,
    /// disconnects from the endpoint
    Disconnect,
    /// joins the group (dish sockets)
    Join,
    /// leaves the group (dish sockets)
    Leave,
    /// connects to the endpoint and learns the peer's routing id (peer sockets)
    ConnectPeer,
}

/// A call that names an endpoint or a group, which the runtime takes as a C string.
#[derive(Debug, Clone, PartialEq, Eq)]
pub struct EndpointCall {
    pub action: EndpointAction,
    /// the characters of the endpoint or group, without a terminating zero byte
    pub endpoint: Vec<u8>,
}

/// A request to poll a socket for events.
#[derive(Debug, Clone, Copy, PartialEq, Eq, Structural)]
pub struct PollCall {
    /// the events polled for, among the known ones
    pub events: PollEvents,
    /// how long to wait, in milliseconds
    pub timeout_ms: i64,
}

/// A request to monitor a socket: the runtime publishes the chosen events on `endpoint`,
/// to which the monitor socket then connects.
#[derive(Debug, Clone, PartialEq, Eq)]
pub struct MonitorCall {
    /// the monitor endpoint, as the characters of a C string
    pub endpoint: Vec<u8>,
    /// the bits of the monitored events
    pub events: i32,
}

/// The mathematical value of an option write: the option and its value.
pub open spec fn write_view(w: OptionWrite) -> (SocketOption, OptionData) {
    (w.option, w.value@)
}

/// The mathematical values of a sequence of option writes.
pub open spec fn writes_view(writes: Seq<OptionWrite>) -> Seq<(SocketOption, OptionData)> {
    writes.map_values(|w: OptionWrite| write_view(w))
}

/// The write of an optional flag option: none where the flag is not given.
pub open spec fn optional_flag_writes(option: SocketOption, value: Option<bool>) -> Seq<(SocketOption, OptionData)> {
    match value {
        Some(v) => seq![(option, OptionData::Int(flag_int(v)))],
        None => Seq::empty(),
    }
}

/// The write of an optional text option: none where the text is not given.
pub open spec fn optional_text_writes(option: SocketOption, value: Option<String>) -> Seq<(SocketOption, OptionData)> {
    match value {
        Some(t) => seq![(option, OptionData::Bytes(encode_utf8(t@)))],
        None => Seq::empty(),
    }
}

/// The mathematical value of an optional write: empty where there is none.
pub open spec fn optional_write_view(w: Option<OptionWrite>) -> Seq<(SocketOption, OptionData)> {
    match w {
        Some(w) => seq![write_view(w)],
        None => Seq::empty(),
    }
}

/// Appends the write, if there is one, to `writes`.
pub fn push_write(writes: &mut Vec<OptionWrite>, w: Option<OptionWrite>)
    ensures
        writes_view(final(writes)@) == writes_view(old(writes)@) + optional_write_view(w),
{
    match w {
        Some(w) => {
            writes.push(w);
            assert(writes_view(writes@) =~= writes_view(old(writes)@) + optional_write_view(Some(w)));
        },
        None => {
            assert(writes_view(writes@) =~= writes_view(old(writes)@) + optional_write_view(None));
        },
    }
}

/// Appends `more` to `writes`.
pub fn append_writes(writes: &mut Vec<OptionWrite>, more: Vec<OptionWrite>)
    ensures
        writes_view(final(writes)@) == writes_view(old(writes)@) + writes_view(more@),
{
    let ghost added = more@;
    let mut more = more;
    writes.append(&mut more);
    assert(writes_view(writes@) =~= writes_view(old(writes)@) + writes_view(added));
}

/// Whether a byte sequence holds a zero byte.
pub open spec fn has_nul(bytes: Seq<u8>) -> bool {
    exists|i: int| 0 <= i < bytes.len() && bytes[i] == 0
}

/// The characters of a text as the runtime takes them: its UTF-8 bytes, which must hold no
/// zero byte since the runtime reads them as a C string.
pub fn c_text(text: &str) -> (r: ZmqResult<Vec<u8>>)
    ensures
        has_nul(text.spec_bytes()) ==> r == Err::<Vec<u8>, ZmqError>(ZmqError::InvalidArgument),
        !has_nul(text.spec_bytes()) ==> (r matches Ok(b) && b@ == text.spec_bytes()),
{
    let bytes = text.as_bytes_vec();
    let mut i: usize = 0;
    while i < bytes.len()
        invariant
            i <= bytes.len(),
            bytes@ == text.spec_bytes(),
            forall|j: int| 0 <= j < i ==> bytes@[j] != 0,
        decreases bytes.len() - i,
    {
        if bytes[i] == 0 {
            return Err(ZmqError::InvalidArgument);
        }
        i = i + 1;
    }
    Ok(bytes)
}

/// The decimal digits of a number, as ASCII bytes, most significant first.
pub open spec fn decimal_digits(n: nat) -> Seq<u8>
    decreases n,
{
    if n < 10 {
        seq![(48 + n) as u8]
    } else {
        decimal_digits(n / 10).push((48 + n % 10) as u8)
    }
}

/// The ASCII bytes of `inproc://monitor.s-`, the prefix of monitor endpoints.
pub open spec fn monitor_endpoint_prefix() -> Seq<u8> {
    seq![105u8, 110, 112, 114, 111, 99, 58, 47, 47, 109, 111, 110, 105, 116, 111, 114, 46, 115, 45]
}

/// The endpoint on which the monitor of the socket with file descriptor `fd` publishes:
/// `inproc://monitor.s-` followed by the decimal digits of `fd`.
pub open spec fn monitor_endpoint(fd: u64) -> Seq<u8> {
    monitor_endpoint_prefix() + decimal_digits(fd as nat)
}

/// The decimal digits of a number, as ASCII bytes.
pub fn write_decimal(n: u64) -> (digits: Vec<u8>)
    ensures
        digits@ == decimal_digits(n as nat),
    decreases n,
{
    if n < 10 {
        let d: u8 = (48 + n) as u8;
        let mut digits: Vec<u8> = Vec::new();
        digits.push(d);
        digits
    } else {
        let mut digits = write_decimal(n / 10);
        let d: u8 = (48 + n % 10) as u8;
        digits.push(d);
        digits
    }
}

/// A typed socket of the kind `T`. It decides which options, endpoints and requests the
/// runtime socket of that kind is given.
pub struct Socket<T: sealed::SocketType> {
    socket_type: SocketType,
    marker: PhantomData<T>,
}

impl<T: sealed::SocketType> Socket<T> {
    /// The kind of runtime socket that this socket is made of.
    pub closed spec fn kind(&self) -> SocketType {
        self.socket_type
    }

    /// A socket of the kind `T` on the given context.
    pub fn from_context(context: &Context) -> (s: Self)
        ensures
            s.kind() == T::spec_socket_type(),
    {
        Socket { socket_type: T::raw_socket_type(), marker: PhantomData }
    }

    /// The kind of runtime socket that this socket is made of.
    pub fn socket_type(&self) -> (t: SocketType)
        ensures
            t == self.kind(),
    {
        self.socket_type
    }

    /// Sets a binary option.
    pub fn set_sockopt_bytes(&self, option: SocketOption, value: &[u8]) -> (w: OptionWrite)
        ensures
            w.option == option,
            holds_bytes(w.value, value@),
    {
        OptionWrite { option, value: OptionValue::Bytes(vstd::slice::slice_to_vec(value)) }
    }

    /// Sets a character option to the UTF-8 bytes of `value`.
    pub fn set_sockopt_string(&self, option: SocketOption, value: &str) -> (w: OptionWrite)
        ensures
            w.option == option,
            holds_bytes(w.value, value.spec_bytes()),
    {
        OptionWrite { option, value: OptionValue::Bytes(value.as_bytes_vec()) }
    }

    /// Sets a C `int` option.
    pub fn set_sockopt_int(&self, option: SocketOption, value: i32) -> (w: OptionWrite)
        ensures
            w == (OptionWrite { option, value: OptionValue::Int(value) }),
    {
        OptionWrite { option, value: OptionValue::Int(value) }
    }

    /// Sets a 64-bit signed option.
    pub fn set_sockopt_i64(&self, option: SocketOption, value: i64) -> (w: OptionWrite)
        ensures
            w == (OptionWrite { option, value: OptionValue::Long(value) }),
    {
        OptionWrite { option, value: OptionValue::Long(value) }
    }

    /// Sets a 64-bit unsigned option.
    pub fn set_sockopt_u64(&self, option: SocketOption, value: u64) -> (w: OptionWrite)
        ensures
            w == (OptionWrite { option, value: OptionValue::ULong(value) }),
    {
        OptionWrite { option, value: OptionValue::ULong(value) }
    }

    /// Sets a flag option: the runtime stores `true` as `1` and `false` as `0`.
    pub fn set_sockopt_bool(&self, option: SocketOption, value: bool) -> (w: OptionWrite)
        ensures
            w == (OptionWrite { option, value: OptionValue::Int(flag_int(value)) }),
    {
        OptionWrite { option, value: flag_value(value) }
    }

    /// Reads a binary option (see [`crate::option::bytes_value`]).
    pub fn get_sockopt_bytes(&self, option: SocketOption) -> (r: OptionRead)
        ensures
            r == (OptionRead { option, kind: ValueKind::Bytes }),
    {
        OptionRead { option, kind: ValueKind::Bytes }
    }

    /// Reads a character option (see [`crate::option::string_value`]).
    pub fn get_sockopt_string(&self, option: SocketOption) -> (r: OptionRead)
        ensures
            r == (OptionRead { option, kind: ValueKind::Bytes }),
    {
        OptionRead { option, kind: ValueKind::Bytes }
    }

    /// Reads a C `int` option (see [`crate::option::int_value`]).
    pub fn get_sockopt_int(&self, option: SocketOption) -> (r: OptionRead)
        ensures
            r == (OptionRead { option, kind: ValueKind::Int }),
    {
        OptionRead { option, kind: ValueKind::Int }
    }

    /// Reads a 64-bit signed option (see [`crate::option::long_value`]).
    pub fn get_sockopt_i64(&self, option: SocketOption) -> (r: OptionRead)
        ensures
            r == (OptionRead { option, kind: ValueKind::Long }),
    {
        OptionRead { option, kind: ValueKind::Long }
    }

    /// Reads a 64-bit unsigned option (see [`crate::option::ulong_value`]).
    pub fn get_sockopt_u64(&self, option: SocketOption) -> (r: OptionRead)
        ensures
            r == (OptionRead { option, kind: ValueKind::ULong }),
    {
        OptionRead { option, kind: ValueKind::ULong }
    }

    /// Reads a flag option (see [`crate::option::bool_value`]).
    pub fn get_sockopt_bool(&self, option: SocketOption) -> (r: OptionRead)
        ensures
            r == (OptionRead { option, kind: ValueKind::Int }),
    {
        OptionRead { option, kind: ValueKind::Int }
    }

    /// Sets the I/O thread affinity of new connections `ZMQ_AFFINITY`.
    pub fn set_affinity(&self, value: u64) -> (w: OptionWrite)
        ensures
            w == (OptionWrite { option: SocketOption::Affinity, value: OptionValue::ULong(value) }),
    {
        self.set_sockopt_u64(SocketOption::Affinity, value)
    }
    /// Reads the I/O thread affinity of new connections `ZMQ_AFFINITY`.
    pub fn affinity(&self) -> (r: OptionRead)
        ensures
            r == (OptionRead { option: SocketOption::Affinity, kind: ValueKind::ULong }),
    {
        self.get_sockopt_u64(SocketOption::Affinity)
    }
    /// Sets the length of the queue of outstanding connections `ZMQ_BACKLOG`.
    pub fn set_backlog(&self, value: i32) -> (w: OptionWrite)
        ensures
            w == (OptionWrite { option: SocketOption::Backlog, value: OptionValue::Int(value) }),
    {
        self.set_sockopt_int(SocketOption::Backlog, value)
    }
    /// Reads the length of the queue of outstanding connections `ZMQ_BACKLOG`.
    pub fn backlog(&self) -> (r: OptionRead)
        ensures
            r == (OptionRead { option: SocketOption::Backlog, kind: ValueKind::Int }),
    {
        self.get_sockopt_int(SocketOption::Backlog)
    }
    /// Sets the timeout of `connect()` system calls `ZMQ_CONNECT_TIMEOUT`.
    pub fn set_connect_timeout(&self, value: i32) -> (w: OptionWrite)
        ensures
            w == (OptionWrite { option: SocketOption::ConnectTimeout, value: OptionValue::Int(value) }),
    {
        self.set_sockopt_int(SocketOption::ConnectTimeout, value)
    }
    /// Reads the timeout of `connect()` system calls `ZMQ_CONNECT_TIMEOUT`.
    pub fn connect_timeout(&self) -> (r: OptionRead)
        ensures
            r == (OptionRead { option: SocketOption::ConnectTimeout, kind: ValueKind::Int }),
    {
        self.get_sockopt_int(SocketOption::ConnectTimeout)
    }
    /// Turns GSSAPI plaintext on or off `ZMQ_GSSAPI_PLAINTEXT`.
    pub fn set_gssapi_plaintext(&self, value: bool) -> (w: OptionWrite)
        ensures
            w == (OptionWrite { option: SocketOption::GssApiPlainText, value: OptionValue::Int(flag_int(value)) }),
    {
        self.set_sockopt_bool(SocketOption::GssApiPlainText, value)
    }
    /// Reads whether GSSAPI plaintext is on `ZMQ_GSSAPI_PLAINTEXT`.
    pub fn gssapi_plaintext(&self) -> (r: OptionRead)
        ensures
            r == (OptionRead { option: SocketOption::GssApiPlainText, kind: ValueKind::Int }),
    {
        self.get_sockopt_bool(SocketOption::GssApiPlainText)
    }
    /// Sets the GSSAPI principal `ZMQ_GSSAPI_PRINCIPAL`.
    pub fn set_gssapi_principal(&self, value: &str) -> (w: OptionWrite)
        ensures
            w.option == SocketOption::GssApiPrincipal,
            holds_bytes(w.value, value.spec_bytes()),
    {
        self.set_sockopt_string(SocketOption::GssApiPrincipal, value)
    }
    /// Reads the GSSAPI principal `ZMQ_GSSAPI_PRINCIPAL`.
    pub fn gssapi_principal(&self) -> (r: OptionRead)
        ensures
            r == (OptionRead { option: SocketOption::GssApiPrincipal, kind: ValueKind::Bytes }),
    {
        self.get_sockopt_string(SocketOption::GssApiPrincipal)
    }
    /// Sets the maximum handshake interval `ZMQ_HANDSHAKE_IVL`.
    pub fn set_handshake_ivl(&self, value: i32) -> (w: OptionWrite)
        ensures
            w == (OptionWrite { option: SocketOption::HandshakeInterval, value: OptionValue::Int(value) }),
    {
        self.set_sockopt_int(SocketOption::HandshakeInterval, value)
    }
    /// Reads the maximum handshake interval `ZMQ_HANDSHAKE_IVL`.
    pub fn handshake_ivl(&self) -> (r: OptionRead)
        ensures
            r == (OptionRead { option: SocketOption::HandshakeInterval, kind: ValueKind::Int }),
    {
        self.get_sockopt_int(SocketOption::HandshakeInterval)
    }
    /// Sets the interval between heartbeats `ZMQ_HEARTBEAT_IVL`.
    pub fn set_heartbeat_ivl(&self, value: i32) -> (w: OptionWrite)
        ensures
            w == (OptionWrite { option: SocketOption::HeartbeatInterval, value: OptionValue::Int(value) }),
    {
        self.set_sockopt_int(SocketOption::HeartbeatInterval, value)
    }
    /// Reads the interval between heartbeats `ZMQ_HEARTBEAT_IVL`.
    pub fn heartbeat_ivl(&self) -> (r: OptionRead)
        ensures
            r == (OptionRead { option: SocketOption::HeartbeatInterval, kind: ValueKind::Int }),
    {
        self.get_sockopt_int(SocketOption::HeartbeatInterval)
    }
    /// Sets the heartbeat timeout `ZMQ_HEARTBEAT_TIMEOUT`.
    pub fn set_heartbeat_timeout(&self, value: i32) -> (w: OptionWrite)
        ensures
            w == (OptionWrite { option: SocketOption::HeartbeatTimeout, value: OptionValue::Int(value) }),
    {
        self.set_sockopt_int(SocketOption::HeartbeatTimeout, value)
    }
    /// Reads the heartbeat timeout `ZMQ_HEARTBEAT_TIMEOUT`.
    pub fn heartbeat_timeout(&self) -> (r: OptionRead)
        ensures
            r == (OptionRead { option: SocketOption::HeartbeatTimeout, kind: ValueKind::Int }),
    {
        self.get_sockopt_int(SocketOption::HeartbeatTimeout)
    }
    /// Sets the time-to-live of heartbeats `ZMQ_HEARTBEAT_TTL`.
    pub fn set_heartbeat_ttl(&self, value: i32) -> (w: OptionWrite)
        ensures
            w == (OptionWrite { option: SocketOption::HeartbeatTimeToLive, value: OptionValue::Int(value) }),
    {
        self.set_sockopt_int(SocketOption::HeartbeatTimeToLive, value)
    }
    /// Reads the time-to-live of heartbeats `ZMQ_HEARTBEAT_TTL`.
    pub fn heartbeat_ttl(&self) -> (r: OptionRead)
        ensures
            r == (OptionRead { option: SocketOption::HeartbeatTimeToLive, kind: ValueKind::Int }),
    {
        self.get_sockopt_int(SocketOption::HeartbeatTimeToLive)
    }
    /// Queues messages only to completed connections `ZMQ_IMMEDIATE`.
    pub fn set_immediate(&self, value: bool) -> (w: OptionWrite)
        ensures
            w == (OptionWrite { option: SocketOption::Immediate, value: OptionValue::Int(flag_int(value)) }),
    {
        self.set_sockopt_bool(SocketOption::Immediate, value)
    }
    /// Reads whether messages are queued only to completed connections `ZMQ_IMMEDIATE`.
    pub fn immediate(&self) -> (r: OptionRead)
        ensures
            r == (OptionRead { option: SocketOption::Immediate, kind: ValueKind::Int }),
    {
        self.get_sockopt_bool(SocketOption::Immediate)
    }
    /// Turns IPv6 on or off `ZMQ_IPV6`.
    pub fn set_ipv6(&self, value: bool) -> (w: OptionWrite)
        ensures
            w == (OptionWrite { option: SocketOption::IPv6, value: OptionValue::Int(flag_int(value)) }),
    {
        self.set_sockopt_bool(SocketOption::IPv6, value)
    }
    /// Reads whether IPv6 is on `ZMQ_IPV6`.
    pub fn ipv6(&self) -> (r: OptionRead)
        ensures
            r == (OptionRead { option: SocketOption::IPv6, kind: ValueKind::Int }),
    {
        self.get_sockopt_bool(SocketOption::IPv6)
    }
    /// Sets the linger period on close `ZMQ_LINGER`.
    pub fn set_linger(&self, value: i32) -> (w: OptionWrite)
        ensures
            w == (OptionWrite { option: SocketOption::Linger, value: OptionValue::Int(value) }),
    {
        self.set_sockopt_int(SocketOption::Linger, value)
    }
    /// Reads the linger period on close `ZMQ_LINGER`.
    pub fn linger(&self) -> (r: OptionRead)
        ensures
            r == (OptionRead { option: SocketOption::Linger, kind: ValueKind::Int }),
    {
        self.get_sockopt_int(SocketOption::Linger)
    }
    /// Reads the last endpoint bound `ZMQ_LAST_ENDPOINT`.
    pub fn last_endpoint(&self) -> (r: OptionRead)
        ensures
            r == (OptionRead { option: SocketOption::LastEndpoint, kind: ValueKind::Bytes }),
    {
        self.get_sockopt_string(SocketOption::LastEndpoint)
    }
    /// Sets the maximum size of an inbound message `ZMQ_MAXMSGSIZE`.
    pub fn set_maxmsgsize(&self, value: i64) -> (w: OptionWrite)
        ensures
            w == (OptionWrite { option: SocketOption::MaxMessageSize, value: OptionValue::Long(value) }),
    {
        self.set_sockopt_i64(SocketOption::MaxMessageSize, value)
    }
    /// Reads the maximum size of an inbound message `ZMQ_MAXMSGSIZE`.
    pub fn maxmsgsize(&self) -> (r: OptionRead)
        ensures
            r == (OptionRead { option: SocketOption::MaxMessageSize, kind: ValueKind::Long }),
    {
        self.get_sockopt_i64(SocketOption::MaxMessageSize)
    }
    /// Sets the maximum number of multicast hops `ZMQ_MULTICAST_HOPS`.
    pub fn set_multicast_hops(&self, value: i32) -> (w: OptionWrite)
        ensures
            w == (OptionWrite { option: SocketOption::MulticastHops, value: OptionValue::Int(value) }),
    {
        self.set_sockopt_int(SocketOption::MulticastHops, value)
    }
    /// Reads the maximum number of multicast hops `ZMQ_MULTICAST_HOPS`.
    pub fn multicast_hops(&self) -> (r: OptionRead)
        ensures
            r == (OptionRead { option: SocketOption::MulticastHops, kind: ValueKind::Int }),
    {
        self.get_sockopt_int(SocketOption::MulticastHops)
    }
    /// Sets the multicast data rate `ZMQ_RATE`.
    pub fn set_rate(&self, value: i32) -> (w: OptionWrite)
        ensures
            w == (OptionWrite { option: SocketOption::Rate, value: OptionValue::Int(value) }),
    {
        self.set_sockopt_int(SocketOption::Rate, value)
    }
    /// Reads the multicast data rate `ZMQ_RATE`.
    pub fn rate(&self) -> (r: OptionRead)
        ensures
            r == (OptionRead { option: SocketOption::Rate, kind: ValueKind::Int }),
    {
        self.get_sockopt_int(SocketOption::Rate)
    }
    /// Sets the kernel receive buffer size `ZMQ_RCVBUF`.
    pub fn set_receive_buffer(&self, value: i32) -> (w: OptionWrite)
        ensures
            w == (OptionWrite { option: SocketOption::ReceiveBuffer, value: OptionValue::Int(value) }),
    {
        self.set_sockopt_int(SocketOption::ReceiveBuffer, value)
    }
    /// Reads the kernel receive buffer size `ZMQ_RCVBUF`.
    pub fn receive_buffer(&self) -> (r: OptionRead)
        ensures
            r == (OptionRead { option: SocketOption::ReceiveBuffer, kind: ValueKind::Int }),
    {
        self.get_sockopt_int(SocketOption::ReceiveBuffer)
    }
    /// Sets the high water mark of inbound messages `ZMQ_RCVHWM`.
    pub fn set_receive_highwater_mark(&self, value: i32) -> (w: OptionWrite)
        ensures
            w == (OptionWrite { option: SocketOption::ReceiveHighWatermark, value: OptionValue::Int(value) }),
    {
        self.set_sockopt_int(SocketOption::ReceiveHighWatermark, value)
    }
    /// Reads the high water mark of inbound messages `ZMQ_RCVHWM`.
    pub fn receive_highwater_mark(&self) -> (r: OptionRead)
        ensures
            r == (OptionRead { option: SocketOption::ReceiveHighWatermark, kind: ValueKind::Int }),
    {
        self.get_sockopt_int(SocketOption::ReceiveHighWatermark)
    }
    /// Sets the timeout of receive operations `ZMQ_RCVTIMEO`.
    pub fn set_receive_timeout(&self, value: i32) -> (w: OptionWrite)
        ensures
            w == (OptionWrite { option: SocketOption::ReceiveTimeout, value: OptionValue::Int(value) }),
    {
        self.set_sockopt_int(SocketOption::ReceiveTimeout, value)
    }
    /// Reads the timeout of receive operations `ZMQ_RCVTIMEO`.
    pub fn receive_timeout(&self) -> (r: OptionRead)
        ensures
            r == (OptionRead { option: SocketOption::ReceiveTimeout, kind: ValueKind::Int }),
    {
        self.get_sockopt_int(SocketOption::ReceiveTimeout)
    }
    /// Sets the reconnection interval `ZMQ_RECONNECT_IVL`.
    pub fn set_reconnect_interval(&self, value: i32) -> (w: OptionWrite)
        ensures
            w == (OptionWrite { option: SocketOption::ReconnectInterval, value: OptionValue::Int(value) }),
    {
        self.set_sockopt_int(SocketOption::ReconnectInterval, value)
    }
    /// Reads the reconnection interval `ZMQ_RECONNECT_IVL`.
    pub fn reconnect_interval(&self) -> (r: OptionRead)
        ensures
            r == (OptionRead { option: SocketOption::ReconnectInterval, kind: ValueKind::Int }),
    {
        self.get_sockopt_int(SocketOption::ReconnectInterval)
    }
    /// Sets the maximum reconnection interval `ZMQ_RECONNECT_IVL_MAX`.
    pub fn set_reconnect_interval_max(&self, value: i32) -> (w: OptionWrite)
        ensures
            w == (OptionWrite { option: SocketOption::ReconnectIntervalMax, value: OptionValue::Int(value) }),
    {
        self.set_sockopt_int(SocketOption::ReconnectIntervalMax, value)
    }
    /// Reads the maximum reconnection interval `ZMQ_RECONNECT_IVL_MAX`.
    pub fn reconnect_interval_max(&self) -> (r: OptionRead)
        ensures
            r == (OptionRead { option: SocketOption::ReconnectIntervalMax, kind: ValueKind::Int }),
    {
        self.get_sockopt_int(SocketOption::ReconnectIntervalMax)
    }
    /// Sets the multicast recovery interval `ZMQ_RECOVERY_IVL`.
    pub fn set_recovery_interval(&self, value: i32) -> (w: OptionWrite)
        ensures
            w == (OptionWrite { option: SocketOption::RecoveryInterval, value: OptionValue::Int(value) }),
    {
        self.set_sockopt_int(SocketOption::RecoveryInterval, value)
    }
    /// Reads the multicast recovery interval `ZMQ_RECOVERY_IVL`.
    pub fn recovery_interval(&self) -> (r: OptionRead)
        ensures
            r == (OptionRead { option: SocketOption::RecoveryInterval, kind: ValueKind::Int }),
    {
        self.get_sockopt_int(SocketOption::RecoveryInterval)
    }
    /// Sets the kernel send buffer size `ZMQ_SNDBUF`.
    pub fn set_send_buffer(&self, value: i32) -> (w: OptionWrite)
        ensures
            w == (OptionWrite { option: SocketOption::SendBuffer, value: OptionValue::Int(value) }),
    {
        self.set_sockopt_int(SocketOption::SendBuffer, value)
    }
    /// Reads the kernel send buffer size `ZMQ_SNDBUF`.
    pub fn send_buffer(&self) -> (r: OptionRead)
        ensures
            r == (OptionRead { option: SocketOption::SendBuffer, kind: ValueKind::Int }),
    {
        self.get_sockopt_int(SocketOption::SendBuffer)
    }
    /// Sets the high water mark of outbound messages `ZMQ_SNDHWM`.
    pub fn set_send_highwater_mark(&self, value: i32) -> (w: OptionWrite)
        ensures
            w == (OptionWrite { option: SocketOption::SendHighWatermark, value: OptionValue::Int(value) }),
    {
        self.set_sockopt_int(SocketOption::SendHighWatermark, value)
    }
    /// Reads the high water mark of outbound messages `ZMQ_SNDHWM`.
    pub fn send_highwater_mark(&self) -> (r: OptionRead)
        ensures
            r == (OptionRead { option: SocketOption::SendHighWatermark, kind: ValueKind::Int }),
    {
        self.get_sockopt_int(SocketOption::SendHighWatermark)
    }
    /// Sets the timeout of send operations `ZMQ_SNDTIMEO`.
    pub fn set_send_timeout(&self, value: i32) -> (w: OptionWrite)
        ensures
            w == (OptionWrite { option: SocketOption::SendTimeout, value: OptionValue::Int(value) }),
    {
        self.set_sockopt_int(SocketOption::SendTimeout, value)
    }
    /// Reads the timeout of send operations `ZMQ_SNDTIMEO`.
    pub fn send_timeout(&self) -> (r: OptionRead)
        ensures
            r == (OptionRead { option: SocketOption::SendTimeout, kind: ValueKind::Int }),
    {
        self.get_sockopt_int(SocketOption::SendTimeout)
    }
    /// Reads the SOCKS5 proxy address `ZMQ_SOCKS_PROXY`.
    pub fn socks_proxy(&self) -> (r: OptionRead)
        ensures
            r == (OptionRead { option: SocketOption::SocksProxy, kind: ValueKind::Bytes }),
    {
        self.get_sockopt_string(SocketOption::SocksProxy)
    }
    /// Overrides `SO_KEEPALIVE` `ZMQ_TCP_KEEPALIVE`.
    pub fn set_tcp_keepalive(&self, value: i32) -> (w: OptionWrite)
        ensures
            w == (OptionWrite { option: SocketOption::TcpKeepalive, value: OptionValue::Int(value) }),
    {
        self.set_sockopt_int(SocketOption::TcpKeepalive, value)
    }
    /// Reads the `SO_KEEPALIVE` override `ZMQ_TCP_KEEPALIVE`.
    pub fn tcp_keepalive(&self) -> (r: OptionRead)
        ensures
            r == (OptionRead { option: SocketOption::TcpKeepalive, kind: ValueKind::Int }),
    {
        self.get_sockopt_int(SocketOption::TcpKeepalive)
    }
    /// Overrides `TCP_KEEPCNT` `ZMQ_TCP_KEEPALIVE_CNT`.
    pub fn set_tcp_keepalive_count(&self, value: i32) -> (w: OptionWrite)
        ensures
            w == (OptionWrite { option: SocketOption::TcpKeepaliveCount, value: OptionValue::Int(value) }),
    {
        self.set_sockopt_int(SocketOption::TcpKeepaliveCount, value)
    }
    /// Reads the `TCP_KEEPCNT` override `ZMQ_TCP_KEEPALIVE_CNT`.
    pub fn tcp_keepalive_count(&self) -> (r: OptionRead)
        ensures
            r == (OptionRead { option: SocketOption::TcpKeepaliveCount, kind: ValueKind::Int }),
    {
        self.get_sockopt_int(SocketOption::TcpKeepaliveCount)
    }
    /// Overrides `TCP_KEEPIDLE` `ZMQ_TCP_KEEPALIVE_IDLE`.
    pub fn set_tcp_keepalive_idle(&self, value: i32) -> (w: OptionWrite)
        ensures
            w == (OptionWrite { option: SocketOption::TcpKeepaliveIdle, value: OptionValue::Int(value) }),
    {
        self.set_sockopt_int(SocketOption::TcpKeepaliveIdle, value)
    }
    /// Reads the `TCP_KEEPIDLE` override `ZMQ_TCP_KEEPALIVE_IDLE`.
    pub fn tcp_keepalive_idle(&self) -> (r: OptionRead)
        ensures
            r == (OptionRead { option: SocketOption::TcpKeepaliveIdle, kind: ValueKind::Int }),
    {
        self.get_sockopt_int(SocketOption::TcpKeepaliveIdle)
    }
    /// Overrides `TCP_KEEPINTVL` `ZMQ_TCP_KEEPALIVE_INTVL`.
    pub fn set_tcp_keepalive_interval(&self, value: i32) -> (w: OptionWrite)
        ensures
            w == (OptionWrite { option: SocketOption::TcpKeepaliveInterval, value: OptionValue::Int(value) }),
    {
        self.set_sockopt_int(SocketOption::TcpKeepaliveInterval, value)
    }
    /// Reads the `TCP_KEEPINTVL` override `ZMQ_TCP_KEEPALIVE_INTVL`.
    pub fn tcp_keepalive_interval(&self) -> (r: OptionRead)
        ensures
            r == (OptionRead { option: SocketOption::TcpKeepaliveInterval, kind: ValueKind::Int }),
    {
        self.get_sockopt_int(SocketOption::TcpKeepaliveInterval)
    }
    /// Sets the TCP maximum retransmit timeout `ZMQ_TCP_MAXRT`.
    pub fn set_tcp_max_retransmit_timeout(&self, value: i32) -> (w: OptionWrite)
        ensures
            w == (OptionWrite { option: SocketOption::MaxTcpTransmitTimeout, value: OptionValue::Int(value) }),
    {
        self.set_sockopt_int(SocketOption::MaxTcpTransmitTimeout, value)
    }
    /// Reads the TCP maximum retransmit timeout `ZMQ_TCP_MAXRT`.
    pub fn tcp_max_retransmit_timeout(&self) -> (r: OptionRead)
        ensures
            r == (OptionRead { option: SocketOption::MaxTcpTransmitTimeout, kind: ValueKind::Int }),
    {
        self.get_sockopt_int(SocketOption::MaxTcpTransmitTimeout)
    }
    /// Sets the Type-of-Service field of the IP header `ZMQ_TOS`.
    pub fn set_type_of_service(&self, value: i32) -> (w: OptionWrite)
        ensures
            w == (OptionWrite { option: SocketOption::TypeOfService, value: OptionValue::Int(value) }),
    {
        self.set_sockopt_int(SocketOption::TypeOfService, value)
    }
    /// Reads the Type-of-Service field of the IP header `ZMQ_TOS`.
    pub fn type_of_service(&self) -> (r: OptionRead)
        ensures
            r == (OptionRead { option: SocketOption::TypeOfService, kind: ValueKind::Int }),
    {
        self.get_sockopt_int(SocketOption::TypeOfService)
    }

    /// Sets the name type of the GSSAPI service principal `ZMQ_GSSAPI_SERVICE_PRINCIPAL_NAMETYPE`.
    pub fn set_gssapi_service_principal_nametype(&self, value: GssApiNametype) -> (w: OptionWrite)
        ensures
            w == (OptionWrite { option: SocketOption::GssApiServicePrincipalNametype, value: OptionValue::Int(nametype_code(value)) }),
    {
        self.set_sockopt_int(SocketOption::GssApiServicePrincipalNametype, i32::from(value))
    }

    /// Reads the name type of the GSSAPI service principal
    /// `ZMQ_GSSAPI_SERVICE_PRINCIPAL_NAMETYPE` (see [`crate::security::nametype_value`]).
    pub fn gssapi_service_principal_nametype(&self) -> (r: OptionRead)
        ensures
            r == (OptionRead { option: SocketOption::GssApiServicePrincipalNametype, kind: ValueKind::Int }),
    {
        self.get_sockopt_int(SocketOption::GssApiServicePrincipalNametype)
    }

    /// Sets the name type of the GSSAPI principal `ZMQ_GSSAPI_PRINCIPAL_NAMETYPE`.
    pub fn set_gssapi_principal_nametype(&self, value: GssApiNametype) -> (w: OptionWrite)
        ensures
            w == (OptionWrite { option: SocketOption::GssApiPrincipalNametype, value: OptionValue::Int(nametype_code(value)) }),
    {
        self.set_sockopt_int(SocketOption::GssApiPrincipalNametype, i32::from(value))
    }

    /// Reads the name type of the GSSAPI principal `ZMQ_GSSAPI_PRINCIPAL_NAMETYPE` (see
    /// [`crate::security::nametype_value`]).
    pub fn gssapi_principal_nametype(&self) -> (r: OptionRead)
        ensures
            r == (OptionRead { option: SocketOption::GssApiPrincipalNametype, kind: ValueKind::Int }),
    {
        self.get_sockopt_int(SocketOption::GssApiPrincipalNametype)
    }

    /// The writes that set the security mechanism of the socket up (see
    /// [`SecurityMechanism::apply`]).
    pub fn set_security_mechanism(&self, security: &SecurityMechanism) -> (writes: Vec<OptionWrite>)
        ensures
            writes@.map_values(|w: OptionWrite| write_view(w)) == mechanism_writes(security@),
    {
        security.apply(self)
    }

    /// The next step of reading the security mechanism of the socket back, from the answers
    /// to the reads asked so far (see [`crate::security::security_progress`]).
    pub fn security_mechanism(&self, replies: &Vec<Result<OptionValue, i32>>) -> (p: SecurityProgress)
        ensures
            p@ == security_progress_spec(replies_view(replies@)),
    {
        security_progress(replies)
    }

    /// The writes that set the ZAP domain of the socket (see [`ZapDomain::apply`]).
    pub fn set_zap_domain(&self, domain: &ZapDomain) -> (writes: Vec<OptionWrite>)
        ensures
            writes@.len() == 2,
            writes@[0].option == SocketOption::ZapDomain,
            holds_bytes(writes@[0].value, encode_utf8(domain@)),
            writes@[1] == (OptionWrite { option: SocketOption::ZapEnforceDomain, value: OptionValue::Int(flag_int(true)) }),
    {
        domain.apply(self)
    }

    /// Reads the ZAP domain of the socket `ZMQ_ZAP_DOMAIN` (see
    /// [`crate::auth::zap_domain_value`]).
    pub fn zap_domain(&self) -> (r: OptionRead)
        ensures
            r == (OptionRead { option: SocketOption::ZapDomain, kind: ValueKind::Bytes }),
    {
        self.get_sockopt_string(SocketOption::ZapDomain)
    }

    /// Reads the event state of the socket `ZMQ_EVENTS` (see [`events_value`]).
    pub fn events(&self) -> (r: OptionRead)
        ensures
            r == (OptionRead { option: SocketOption::Events, kind: ValueKind::Int }),
    {
        self.get_sockopt_int(SocketOption::Events)
    }

    /// Sets the SOCKS5 proxy address `ZMQ_SOCKS_PROXY`; `None` clears it with an empty value.
    pub fn set_socks_proxy(&self, value: Option<&str>) -> (w: OptionWrite)
        ensures
            w.option == SocketOption::SocksProxy,
            match value {
                None => holds_bytes(w.value, Seq::<u8>::empty()),
                Some(proxy) => holds_bytes(w.value, proxy.spec_bytes()),
            },
    {
        match value {
            None => {
                let empty: Vec<u8> = Vec::new();
                OptionWrite { option: SocketOption::SocksProxy, value: OptionValue::Bytes(empty) }
            },
            Some(proxy) => self.set_sockopt_string(SocketOption::SocksProxy, proxy),
        }
    }

    /// Binds the socket to an endpoint.
    pub fn bind(&self, endpoint: &str) -> (r: ZmqResult<EndpointCall>)
        ensures
            endpoint_call_of(r, EndpointAction::Bind, endpoint.spec_bytes()),
    {
        endpoint_call(EndpointAction::Bind, endpoint)
    }

    /// Stops accepting connections on an endpoint.
    pub fn unbind(&self, endpoint: &str) -> (r: ZmqResult<EndpointCall>)
        ensures
            endpoint_call_of(r, EndpointAction::Unbind, endpoint.spec_bytes()),
    {
        endpoint_call(EndpointAction::Unbind, endpoint)
    }

    /// Connects the socket to an endpoint.
    pub fn connect(&self, endpoint: &str) -> (r: ZmqResult<EndpointCall>)
        ensures
            endpoint_call_of(r, EndpointAction::Connect, endpoint.spec_bytes()),
    {
        endpoint_call(EndpointAction::Connect, endpoint)
    }

    /// Disconnects the socket from an endpoint.
    pub fn disconnect(&self, endpoint: &str) -> (r: ZmqResult<EndpointCall>)
        ensures
            endpoint_call_of(r, EndpointAction::Disconnect, endpoint.spec_bytes()),
    {
        endpoint_call(EndpointAction::Disconnect, endpoint)
    }

    /// Monitors the socket whose file descriptor (`ZMQ_FD`, read as a 64-bit unsigned
    /// option) is `fd`: the runtime publishes the chosen events on the endpoint
    /// `inproc://monitor.s-<fd>`, to which a pair socket then connects.
    pub fn monitor(&self, events: MonitorFlags, fd: u64) -> (r: MonitorCall)
        ensures
            r.endpoint@ == monitor_endpoint(fd),
            r.events == events.0 as i32,
    {
        let mut endpoint: Vec<u8> = vec![105u8, 110, 112, 114, 111, 99, 58, 47, 47, 109, 111, 110, 105, 116, 111, 114, 46, 115, 45];
        let mut digits = write_decimal(fd);
        endpoint.append(&mut digits);
        MonitorCall { endpoint, events: events.bits() as i32 }
    }

    /// Polls the socket for the known events among `events`, waiting up to `timeout_ms`.
    pub fn poll(&self, events: PollEvents, timeout_ms: i64) -> (r: PollCall)
        ensures
            r.events.0 == events.0 & PollEvents::known_bits(),
            r.timeout_ms == timeout_ms,
    {
        PollCall { events: PollEvents::from_bits_truncate(events.bits()), timeout_ms }
    }
}

/// Whether `r` is the call `action` on the endpoint with characters `text`, or the invalid
/// argument where those hold a zero byte.
pub open spec fn endpoint_call_of(r: ZmqResult<EndpointCall>, action: EndpointAction, text: Seq<u8>) -> bool {
    if has_nul(text) {
        r == Err::<EndpointCall, ZmqError>(ZmqError::InvalidArgument)
    } else {
        r matches Ok(call) && call.action == action && call.endpoint@ == text
    }
}

/// The call `action` on the endpoint `endpoint`.
pub fn endpoint_call(action: EndpointAction, endpoint: &str) -> (r: ZmqResult<EndpointCall>)
    ensures
        endpoint_call_of(r, action, endpoint.spec_bytes()),
{
    match c_text(endpoint) {
        Ok(bytes) => Ok(EndpointCall { action, endpoint: bytes }),
        Err(e) => Err(e),
    }
}

/// The event state that a read of `ZMQ_EVENTS` gave back: the known poll events among the
/// low 16 bits of the value.
pub fn events_value(reply: &Result<OptionValue, i32>) -> (r: ZmqResult<PollEvents>)
    ensures
        match *reply {
            Ok(OptionValue::Int(v)) => r == Ok::<PollEvents, ZmqError>(PollEvents((v as i16) & PollEvents::known_bits())),
            Ok(_) => r == Err::<PollEvents, ZmqError>(ZmqError::InvalidArgument),
            Err(code) => r == Err::<PollEvents, ZmqError>(crate::error::error_of_errno(code)),
        },
{
    match reply {
        Ok(OptionValue::Int(v)) => Ok(PollEvents::from_bits_truncate(*v as i16)),
        Ok(_) => Err(ZmqError::InvalidArgument),
        Err(code) => Err(ZmqError::from(*code)),
    }
}

} // verus!

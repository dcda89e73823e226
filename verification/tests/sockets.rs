use arzmq::builder::SocketConfig;
use arzmq::context::Context;
use arzmq::security::SecurityMechanism;
use arzmq::option::{OptionValue, ValueKind};
use arzmq::socket::dealer::DealerConfig;
use arzmq::socket::dish::DishBuilder;
use arzmq::socket::peer::connect_peer_result;
use arzmq::socket::publish::PublishBuilder;
use arzmq::socket::pull::PullBuilder;
use arzmq::socket::push::PushBuilder;
use arzmq::socket::radio::RadioBuilder;
use arzmq::socket::reply::ReplyBuilder;
use arzmq::socket::router::router_notify_value;
use arzmq::socket::xpublish::XPublishBuilder;
use arzmq::socket::{
    c_text, endpoint_call, events_value, write_decimal, DealerSocket, DishSocket, EndpointAction,
    EndpointCall, MonitorFlags, OptionRead, OptionWrite, PairSocket, PeerSocket, PollEvents,
    PublishSocket, PullSocket, PushSocket, RadioSocket, ReplySocket, RouterNotify, RouterSocket,
    SocketOption, SocketType, XPublishSocket, XSubscribeSocket,
};
use arzmq::{errno, ZmqError};

fn flag(option: SocketOption, value: i32) -> OptionWrite {
    OptionWrite { option, value: OptionValue::Int(value) }
}

fn text(option: SocketOption, value: &str) -> OptionWrite {
    OptionWrite { option, value: OptionValue::Bytes(value.as_bytes().to_vec()) }
}

#[test]
fn socket_type_numbers() {
    assert_eq!(i32::from(SocketType::Pair), 0);
    assert_eq!(i32::from(SocketType::Publish), 1);
    assert_eq!(i32::from(SocketType::Subscribe), 2);
    assert_eq!(i32::from(SocketType::Request), 3);
    assert_eq!(i32::from(SocketType::Reply), 4);
    assert_eq!(i32::from(SocketType::Dealer), 5);
    assert_eq!(i32::from(SocketType::Router), 6);
    assert_eq!(i32::from(SocketType::Pull), 7);
    assert_eq!(i32::from(SocketType::Push), 8);
    assert_eq!(i32::from(SocketType::XPublish), 9);
    assert_eq!(i32::from(SocketType::XSubscribe), 10);
    assert_eq!(i32::from(SocketType::Stream), 11);
    assert_eq!(i32::from(SocketType::Server), 12);
    assert_eq!(i32::from(SocketType::Client), 13);
    assert_eq!(i32::from(SocketType::Radio), 14);
    assert_eq!(i32::from(SocketType::Dish), 15);
    assert_eq!(i32::from(SocketType::Gather), 16);
    assert_eq!(i32::from(SocketType::Scatter), 17);
    assert_eq!(i32::from(SocketType::Datagram), 18);
    assert_eq!(i32::from(SocketType::Peer), 19);
    assert_eq!(i32::from(SocketType::Channel), 20);
}

#[test]
fn sockets_are_made_of_their_kind() {
    let context = Context::new();
    assert_eq!(PublishSocket::from_context(&context).socket_type(), SocketType::Publish);
    assert_eq!(PairSocket::from_context(&context).socket_type(), SocketType::Pair);
    assert_eq!(PeerSocket::from_context(&context).socket_type(), SocketType::Peer);
    assert_eq!(XSubscribeSocket::from_context(&context).socket_type(), SocketType::XSubscribe);
}

#[test]
fn option_numbers() {
    assert_eq!(i32::from(SocketOption::Affinity), 4);
    assert_eq!(i32::from(SocketOption::RoutingId), 5);
    assert_eq!(i32::from(SocketOption::Subscribe), 6);
    assert_eq!(i32::from(SocketOption::Unsubscribe), 7);
    assert_eq!(i32::from(SocketOption::Linger), 17);
    assert_eq!(i32::from(SocketOption::Conflate), 54);
    assert_eq!(i32::from(SocketOption::ZapDomain), 55);
    assert_eq!(i32::from(SocketOption::HiccupMessage), 114);
    assert_eq!(i32::from(SocketOption::NormPush), 124);
}

#[test]
fn option_writes_and_reads() {
    let context = Context::new();
    let publish = PublishSocket::from_context(&context);
    assert_eq!(publish.set_conflate(true), flag(SocketOption::Conflate, 1));
    assert_eq!(publish.set_linger(250), flag(SocketOption::Linger, 250));
    assert_eq!(publish.linger(), OptionRead { option: SocketOption::Linger, kind: ValueKind::Int });
    assert_eq!(publish.set_sockopt_string(SocketOption::ZapDomain, "global"), text(SocketOption::ZapDomain, "global"));
    assert_eq!(
        publish.set_sockopt_i64(SocketOption::MaxMessageSize, -1),
        OptionWrite { option: SocketOption::MaxMessageSize, value: OptionValue::Long(-1) }
    );
    assert_eq!(
        publish.set_sockopt_u64(SocketOption::Affinity, 3),
        OptionWrite { option: SocketOption::Affinity, value: OptionValue::ULong(3) }
    );
    assert_eq!(publish.get_sockopt_bool(SocketOption::Conflate), OptionRead { option: SocketOption::Conflate, kind: ValueKind::Int });
    assert_eq!(publish.last_endpoint(), OptionRead { option: SocketOption::LastEndpoint, kind: ValueKind::Bytes });
    assert_eq!(publish.set_socks_proxy(None), OptionWrite { option: SocketOption::SocksProxy, value: OptionValue::Bytes(Vec::new()) });
    assert_eq!(publish.set_socks_proxy(Some("127.0.0.1:1080")), text(SocketOption::SocksProxy, "127.0.0.1:1080"));
    assert_eq!(publish.events(), OptionRead { option: SocketOption::Events, kind: ValueKind::Int });
}

#[test]
fn endpoints() {
    let context = Context::new();
    let socket = PairSocket::from_context(&context);
    assert_eq!(
        socket.bind("tcp://127.0.0.1:5555"),
        Ok(EndpointCall { action: EndpointAction::Bind, endpoint: b"tcp://127.0.0.1:5555".to_vec() })
    );
    assert_eq!(
        socket.connect("inproc://pair"),
        Ok(EndpointCall { action: EndpointAction::Connect, endpoint: b"inproc://pair".to_vec() })
    );
    assert_eq!(socket.unbind("inproc://pair").map(|c| c.action), Ok(EndpointAction::Unbind));
    assert_eq!(socket.disconnect("inproc://pair").map(|c| c.action), Ok(EndpointAction::Disconnect));
    assert_eq!(socket.bind("inproc://a\0b"), Err(ZmqError::InvalidArgument));
    assert_eq!(endpoint_call(EndpointAction::Join, "weather"), Ok(EndpointCall { action: EndpointAction::Join, endpoint: b"weather".to_vec() }));
    assert_eq!(c_text("abc"), Ok(b"abc".to_vec()));
    assert_eq!(c_text("a\0"), Err(ZmqError::InvalidArgument));
}

#[test]
fn monitor_requests() {
    let context = Context::new();
    let socket = PairSocket::from_context(&context);
    let call = socket.monitor(MonitorFlags::all(), 42);
    assert_eq!(call.endpoint, b"inproc://monitor.s-42".to_vec());
    assert_eq!(call.events, 32767);
    let call = socket.monitor(MonitorFlags::Connected().union(MonitorFlags::Closed()), 0);
    assert_eq!(call.endpoint, b"inproc://monitor.s-0".to_vec());
    assert_eq!(call.events, 129);
    assert_eq!(write_decimal(0), b"0".to_vec());
    assert_eq!(write_decimal(9), b"9".to_vec());
    assert_eq!(write_decimal(10), b"10".to_vec());
    assert_eq!(write_decimal(18446744073709551615), b"18446744073709551615".to_vec());
}

#[test]
fn polling() {
    let context = Context::new();
    let socket = PairSocket::from_context(&context);
    let call = socket.poll(PollEvents::from(0x31), -1);
    assert_eq!(call.events.bits(), 1);
    assert_eq!(call.timeout_ms, -1);
    assert_eq!(events_value(&Ok(OptionValue::Int(0x10003))), Ok(PollEvents::from(3)));
    assert_eq!(events_value(&Ok(OptionValue::Int(0xff))), Ok(PollEvents::from(15)));
    assert_eq!(events_value(&Ok(OptionValue::Long(1))), Err(ZmqError::InvalidArgument));
    assert_eq!(events_value(&Err(errno::ETERM)), Err(ZmqError::ContextTerminated));
}

#[test]
fn publish_builder_writes_in_field_order() {
    let context = Context::new();
    let socket = PublishSocket::from_context(&context);
    assert_eq!(PublishBuilder::new().apply(&socket), Vec::new());
    let builder = PublishBuilder::new().nodrop(true).conflate(false);
    assert_eq!(builder.apply(&socket), vec![flag(SocketOption::Conflate, 0), flag(SocketOption::XpubNoDrop, 1)]);
    let (built, writes) = PublishBuilder::new().invert_matching(true).build_from_context(&context);
    assert_eq!(built.socket_type(), SocketType::Publish);
    assert_eq!(writes, vec![flag(SocketOption::InvertMatching, 1)]);
}

#[test]
fn xpublish_builder_writes_in_field_order() {
    let context = Context::new();
    let socket = XPublishSocket::from_context(&context);
    let builder = XPublishBuilder::new()
        .only_first_subscribe(true)
        .welcome_msg("hello".to_string())
        .manual_last_value(false)
        .manual(true)
        .verboser(false)
        .verbose(true)
        .nodrop(false)
        .invert_matching(true);
    assert_eq!(
        builder.apply(&socket),
        vec![
            flag(SocketOption::InvertMatching, 1),
            flag(SocketOption::XpubNoDrop, 0),
            flag(SocketOption::XpubVerbose, 1),
            flag(SocketOption::XpubVerboser, 0),
            flag(SocketOption::XpubManual, 1),
            flag(SocketOption::XpubManualLastValue, 0),
            text(SocketOption::XpubWelcomeMessage, "hello"),
            flag(SocketOption::OnlyFirstSubscribe, 1),
        ]
    );
    let (built, writes) = XPublishBuilder::new().verbose(true).build_from_context(&context);
    assert_eq!(built.socket_type(), SocketType::XPublish);
    assert_eq!(writes, vec![flag(SocketOption::XpubVerbose, 1)]);
}

#[test]
fn single_option_builders() {
    let context = Context::new();
    assert_eq!(PullBuilder::new().conflate(true).apply(&PullSocket::from_context(&context)), vec![flag(SocketOption::Conflate, 1)]);
    assert_eq!(PushBuilder::new().conflate(false).apply(&PushSocket::from_context(&context)), vec![flag(SocketOption::Conflate, 0)]);
    assert_eq!(RadioBuilder::new().multicast_loop(true).apply(&RadioSocket::from_context(&context)), vec![flag(SocketOption::MulticastLoop, 1)]);
    assert_eq!(ReplyBuilder::new().routing_id("worker-1".to_string()).apply(&ReplySocket::from_context(&context)), vec![text(SocketOption::RoutingId, "worker-1")]);
    assert_eq!(PullBuilder::new().apply(&PullSocket::from_context(&context)), Vec::new());
}

#[test]
fn dealer_configuration() {
    let context = Context::new();
    let socket = DealerSocket::from_context(&context);
    let config = DealerConfig {
        socket_config: SocketConfig::new().linger(0),
        conflate: true,
        hiccup_msg: "hiccup".to_string(),
        hello_message: "hello".to_string(),
        routing_id: "dealer".to_string(),
    };
    assert_eq!(
        config.apply(&socket),
        vec![
            flag(SocketOption::Linger, 0),
            flag(SocketOption::Conflate, 1),
            text(SocketOption::HiccupMessage, "hiccup"),
            text(SocketOption::HelloMessage, "hello"),
            text(SocketOption::RoutingId, "dealer"),
        ]
    );
    assert_eq!(DealerConfig::default().apply(&socket)[0], flag(SocketOption::Conflate, 0));
}

#[test]
fn dish_groups() {
    let context = Context::new();
    let socket = DishSocket::from_context(&context);
    assert_eq!(socket.join("weather"), Ok(EndpointCall { action: EndpointAction::Join, endpoint: b"weather".to_vec() }));
    assert_eq!(socket.leave("weather").map(|c| c.action), Ok(EndpointAction::Leave));
    assert_eq!(socket.join("bad\0group"), Err(ZmqError::InvalidArgument));
    assert_eq!(DishBuilder::new().apply(&socket), (Vec::new(), Ok(Vec::new())));
    assert_eq!(
        DishBuilder::new().join("news".to_string()).socket_config(SocketConfig::new().receive_timeout(5)).apply(&socket),
        (vec![flag(SocketOption::ReceiveTimeout, 5)], Ok(vec![EndpointCall { action: EndpointAction::Join, endpoint: b"news".to_vec() }]))
    );
    assert_eq!(
        DishBuilder::new().socket_config(SocketConfig::new().linger(1)).join("x\0".to_string()).apply(&socket),
        (vec![flag(SocketOption::Linger, 1)], Err(ZmqError::InvalidArgument))
    );
    let (built, writes, joins) = DishBuilder::new().join("news".to_string()).build_from_context(&context);
    assert_eq!(built.socket_type(), SocketType::Dish);
    assert!(writes.is_empty());
    assert_eq!(joins.map(|calls| calls.len()), Ok(1));
}

#[test]
fn peers_and_routers() {
    let context = Context::new();
    let peer = PeerSocket::from_context(&context);
    assert_eq!(peer.connect_peer("tcp://127.0.0.1:6000").map(|c| c.action), Ok(EndpointAction::ConnectPeer));
    assert_eq!(connect_peer_result(17, 0), Ok(17));
    assert_eq!(connect_peer_result(0, errno::EINVAL), Err(ZmqError::InvalidArgument));
    let router = RouterSocket::from_context(&context);
    assert_eq!(router.set_router_notify(RouterNotify::all()), flag(SocketOption::RouterNotify, 3));
    assert_eq!(router.set_router_mandatory(true), flag(SocketOption::RouterMandatory, 1));
    assert_eq!(router.set_probe_router(true), flag(SocketOption::ProbeRouter, 1));
    assert_eq!(router_notify_value(&Ok(OptionValue::Int(2))), Ok(RouterNotify::NotifyDisconnect()));
    assert_eq!(router_notify_value(&Err(errno::EINVAL)), Err(ZmqError::InvalidArgument));
}

#[test]
fn socket_configuration_is_written_first() {
    let context = Context::new();
    let socket = XPublishSocket::from_context(&context);
    let config = SocketConfig::new()
        .security_mechanism(SecurityMechanism::Null)
        .ipv6(true)
        .immediate(false)
        .send_timeout(7)
        .max_message_size(-1)
        .linger(0)
        .connect_timeout(100);
    assert_eq!(
        config.apply(&socket),
        vec![
            flag(SocketOption::ConnectTimeout, 100),
            flag(SocketOption::Linger, 0),
            OptionWrite { option: SocketOption::MaxMessageSize, value: OptionValue::Long(-1) },
            flag(SocketOption::SendTimeout, 7),
            flag(SocketOption::Immediate, 0),
            flag(SocketOption::IPv6, 1),
            flag(SocketOption::PlainServer, 0),
        ]
    );
    assert!(SocketConfig::new().apply(&socket).is_empty());
    let builder = XPublishBuilder::new().verbose(true).socket_config(SocketConfig::new().send_highwater_mark(10));
    assert_eq!(builder.apply(&socket), vec![flag(SocketOption::SendHighWatermark, 10), flag(SocketOption::XpubVerbose, 1)]);
    let publish = PublishSocket::from_context(&context);
    let builder = PublishBuilder::new().conflate(true).socket_config(SocketConfig::new().heartbeat_interval(50));
    assert_eq!(builder.apply(&publish), vec![flag(SocketOption::HeartbeatInterval, 50), flag(SocketOption::Conflate, 1)]);
    let reply = ReplySocket::from_context(&context);
    assert_eq!(
        ReplyBuilder::new().socket_config(SocketConfig::new().reconnect_interval(3)).apply(&reply),
        vec![flag(SocketOption::ReconnectInterval, 3)]
    );
}

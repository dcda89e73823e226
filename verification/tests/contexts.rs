use arzmq::auth::{zap_domain_value, ZapDomain};
use arzmq::context::{Context, ContextBuilder, ContextOption, ContextRead, ContextWrite};
use arzmq::option::{OptionValue, ValueKind};
use arzmq::socket::{OptionWrite, PairSocket, SocketOption};
use arzmq::{errno, ZmqError};

fn int_write(option: ContextOption, value: i32) -> ContextWrite {
    ContextWrite { option, value: OptionValue::Int(value) }
}

#[test]
fn context_option_numbers() {
    assert_eq!(i32::from(ContextOption::IoThreads), 1);
    assert_eq!(i32::from(ContextOption::MaxSockets), 2);
    assert_eq!(i32::from(ContextOption::ThreadPriority), 3);
    assert_eq!(i32::from(ContextOption::ThreadSchedulingPolicy), 4);
    assert_eq!(i32::from(ContextOption::MaxMessageSize), 5);
    assert_eq!(i32::from(ContextOption::ThreadAffinityCPUAdd), 7);
    assert_eq!(i32::from(ContextOption::ThreadAffinityCPURemove), 8);
    assert_eq!(i32::from(ContextOption::ThreadNamePrefix), 9);
    assert_eq!(i32::from(ContextOption::ZeroCopyReceiving), 10);
    assert_eq!(i32::from(ContextOption::IPv6), 42);
    assert_eq!(i32::from(ContextOption::Blocky), 70);
    assert_eq!(i32::from(ContextOption::SocketLimit), 3);
}

#[test]
fn context_options() {
    let context = Context::new();
    assert_eq!(context.set_blocky(false), int_write(ContextOption::Blocky, 0));
    assert_eq!(context.set_io_threads(4), int_write(ContextOption::IoThreads, 4));
    assert_eq!(context.set_ipv6(true), int_write(ContextOption::IPv6, 1));
    assert_eq!(context.set_max_sockets(1024), int_write(ContextOption::MaxSockets, 1024));
    assert_eq!(context.io_threads(), ContextRead { option: ContextOption::IoThreads, kind: ValueKind::Int });
    assert_eq!(context.socket_limit(), ContextRead { option: ContextOption::SocketLimit, kind: ValueKind::Int });
    assert_eq!(
        context.set_option_string(ContextOption::ThreadNamePrefix, "zmq"),
        ContextWrite { option: ContextOption::ThreadNamePrefix, value: OptionValue::Bytes(b"zmq".to_vec()) }
    );
}

#[test]
fn context_builder_writes_in_order() {
    let (_, writes) = ContextBuilder::new().build();
    assert!(writes.is_empty());
    let builder = ContextBuilder::new()
        .ipv6(true)
        .zero_copy_receiving(false)
        .max_sockets(10)
        .max_message_size(4096)
        .io_threads(2)
        .blocky(false);
    let (_, writes) = builder.build();
    assert_eq!(
        writes,
        vec![
            int_write(ContextOption::Blocky, 0),
            int_write(ContextOption::IoThreads, 2),
            int_write(ContextOption::MaxMessageSize, 4096),
            int_write(ContextOption::MaxSockets, 10),
            int_write(ContextOption::IPv6, 1),
            int_write(ContextOption::ZeroCopyReceiving, 0),
        ]
    );
    assert_eq!(ContextBuilder::new().io_threads(1).apply(&Context::new()), vec![int_write(ContextOption::IoThreads, 1)]);
}

#[test]
fn zap_domains() {
    let domain = ZapDomain::new("global".to_string());
    assert_eq!(domain.as_str(), "global");
    assert_eq!(ZapDomain::from("global".to_string()), domain);
    let socket = PairSocket::from_context(&Context::new());
    let expected = vec![
        OptionWrite { option: SocketOption::ZapDomain, value: OptionValue::Bytes(b"global".to_vec()) },
        OptionWrite { option: SocketOption::ZapEnforceDomain, value: OptionValue::Int(1) },
    ];
    assert_eq!(domain.apply(&socket), expected);
    assert_eq!(socket.set_zap_domain(&domain), expected);
    assert_eq!(zap_domain_value(&Ok(OptionValue::Bytes(b"global\0".to_vec()))), Ok(domain));
    assert_eq!(zap_domain_value(&Ok(OptionValue::Bytes(b"global".to_vec()))), Err(ZmqError::InvalidArgument));
    assert_eq!(zap_domain_value(&Err(errno::EFAULT)), Err(ZmqError::ContextInvalid));
}

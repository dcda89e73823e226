use arzmq::context::Context;
use arzmq::option::{OptionValue, ValueKind};
use arzmq::security::{
    curve_key_result, nametype_value, security_progress, GssApiNametype, SecurityMechanism,
    SecurityProgress, MECHANISM_CURVE, MECHANISM_GSSAPI, MECHANISM_NULL, MECHANISM_PLAIN,
};
use arzmq::socket::{OptionRead, OptionWrite, PairSocket, SocketOption};
use arzmq::{errno, ZmqError, ZmqResult};

fn flag(option: SocketOption, value: i32) -> OptionWrite {
    OptionWrite { option, value: OptionValue::Int(value) }
}

fn bytes(option: SocketOption, value: &[u8]) -> OptionWrite {
    OptionWrite { option, value: OptionValue::Bytes(value.to_vec()) }
}

fn is_text_option(option: SocketOption) -> bool {
    matches!(option, SocketOption::PlainUsername | SocketOption::PlainPassword | SocketOption::GssApiServicePrincipal)
}

/// Answers a read the way the runtime does after the given writes: the last value written,
/// text with its terminating zero byte, and the defaults for what was not written.
fn answer(writes: &[OptionWrite], mechanism: i32, read: OptionRead) -> Result<OptionValue, i32> {
    if read.option == SocketOption::Mechanism {
        return Ok(OptionValue::Int(mechanism));
    }
    let written = writes.iter().rev().find(|w| w.option == read.option).map(|w| w.value.clone());
    match (read.kind, written) {
        (ValueKind::Bytes, Some(OptionValue::Bytes(mut b))) => {
            if is_text_option(read.option) {
                b.push(0);
            }
            Ok(OptionValue::Bytes(b))
        }
        (ValueKind::Bytes, None) => Ok(OptionValue::Bytes(if is_text_option(read.option) { vec![0] } else { Vec::new() })),
        (ValueKind::Int, Some(OptionValue::Int(v))) => Ok(OptionValue::Int(v)),
        (ValueKind::Int, None) => Ok(OptionValue::Int(0)),
        _ => Err(errno::EINVAL),
    }
}

fn read_back(writes: &[OptionWrite], mechanism: i32) -> ZmqResult<SecurityMechanism> {
    let mut replies = Vec::new();
    loop {
        match security_progress(&replies) {
            SecurityProgress::Read(read) => replies.push(answer(writes, mechanism, read)),
            SecurityProgress::Done(result) => return result,
        }
    }
}

#[test]
fn mechanism_numbers() {
    assert_eq!(MECHANISM_NULL, 0);
    assert_eq!(MECHANISM_PLAIN, 1);
    assert_eq!(MECHANISM_CURVE, 2);
    assert_eq!(MECHANISM_GSSAPI, 3);
    assert_eq!(SecurityMechanism::default(), SecurityMechanism::Null);
}

#[test]
fn mechanisms_are_set_up_by_their_writes() {
    let context = Context::new();
    let socket = PairSocket::from_context(&context);
    assert_eq!(SecurityMechanism::Null.apply(&socket), vec![flag(SocketOption::PlainServer, 0)]);
    let plain = SecurityMechanism::PlainClient { username: "admin".to_string(), password: "secret".to_string() };
    let expected = vec![
        flag(SocketOption::PlainServer, 1),
        bytes(SocketOption::PlainUsername, b"admin"),
        bytes(SocketOption::PlainPassword, b"secret"),
    ];
    assert_eq!(plain.apply(&socket), expected);
    assert_eq!(socket.set_security_mechanism(&plain), expected);
    let server = SecurityMechanism::PlainServer { username: "admin".to_string(), password: "secret".to_string() };
    assert_eq!(server.apply(&socket), expected);
    let curve_server = SecurityMechanism::CurveServer { secret_key: vec![7; 32] };
    assert_eq!(curve_server.apply(&socket), vec![flag(SocketOption::CurveServer, 1), bytes(SocketOption::CurveSecretKey, &[7; 32])]);
    let curve_client = SecurityMechanism::CurveClient { server_key: vec![1; 32], public_key: vec![2; 32], secret_key: vec![3; 32] };
    assert_eq!(
        curve_client.apply(&socket),
        vec![
            bytes(SocketOption::CurveServerKey, &[1; 32]),
            bytes(SocketOption::CurvePublicKey, &[2; 32]),
            bytes(SocketOption::CurveSecretKey, &[3; 32]),
        ]
    );
    let gss_client = SecurityMechanism::GssApiClient { service_principal: "zmq@host".to_string() };
    assert_eq!(gss_client.apply(&socket), vec![bytes(SocketOption::GssApiServicePrincipal, b"zmq@host")]);
    assert_eq!(SecurityMechanism::GssApiServer.apply(&socket), vec![flag(SocketOption::GssApiServer, 1)]);
}

#[test]
fn mechanisms_read_back_as_they_were_set_up() {
    let context = Context::new();
    let socket = PairSocket::from_context(&context);
    let cases = [
        (SecurityMechanism::Null, MECHANISM_NULL),
        (SecurityMechanism::PlainServer { username: "u".to_string(), password: "p".to_string() }, MECHANISM_PLAIN),
        (SecurityMechanism::CurveServer { secret_key: vec![9; 32] }, MECHANISM_CURVE),
        (SecurityMechanism::CurveClient { server_key: vec![1; 32], public_key: vec![2; 32], secret_key: vec![3; 32] }, MECHANISM_CURVE),
        (SecurityMechanism::GssApiClient { service_principal: "svc".to_string() }, MECHANISM_GSSAPI),
        (SecurityMechanism::GssApiServer, MECHANISM_GSSAPI),
    ];
    for (mechanism, code) in cases {
        let writes = mechanism.apply(&socket);
        assert_eq!(read_back(&writes, code), Ok(mechanism));
    }
}

#[test]
fn a_plain_client_reads_back_as_a_plain_server() {
    let context = Context::new();
    let socket = PairSocket::from_context(&context);
    let client = SecurityMechanism::PlainClient { username: "u".to_string(), password: "p".to_string() };
    let writes = client.apply(&socket);
    assert_eq!(
        read_back(&writes, MECHANISM_PLAIN),
        Ok(SecurityMechanism::PlainServer { username: "u".to_string(), password: "p".to_string() })
    );
}

#[test]
fn reading_a_mechanism_back_step_by_step() {
    let first = security_progress(&Vec::new());
    assert!(matches!(first, SecurityProgress::Read(OptionRead { option: SocketOption::Mechanism, kind: ValueKind::Int })));
    let after_mechanism = security_progress(&vec![Ok(OptionValue::Int(MECHANISM_PLAIN))]);
    assert!(matches!(after_mechanism, SecurityProgress::Read(OptionRead { option: SocketOption::PlainUsername, kind: ValueKind::Bytes })));
    let unsupported = security_progress(&vec![Ok(OptionValue::Int(9))]);
    assert!(matches!(unsupported, SecurityProgress::Done(Err(ZmqError::Unsupported))));
    let failed = security_progress(&vec![Err(errno::ETERM)]);
    assert!(matches!(failed, SecurityProgress::Done(Err(ZmqError::ContextTerminated))));
    let bad_text = security_progress(&vec![Ok(OptionValue::Int(MECHANISM_PLAIN)), Ok(OptionValue::Bytes(b"unterminated".to_vec()))]);
    assert!(matches!(bad_text, SecurityProgress::Done(Err(ZmqError::InvalidArgument))));
    let plain_client = security_progress(&vec![
        Ok(OptionValue::Int(MECHANISM_PLAIN)),
        Ok(OptionValue::Bytes(b"u\0".to_vec())),
        Ok(OptionValue::Bytes(b"p\0".to_vec())),
        Ok(OptionValue::Int(0)),
    ]);
    match plain_client {
        SecurityProgress::Done(Ok(m)) => assert_eq!(m, SecurityMechanism::PlainClient { username: "u".to_string(), password: "p".to_string() }),
        other => panic!("unexpected {other:?}"),
    }
}

#[test]
fn gssapi_name_types() {
    assert_eq!(i32::from(GssApiNametype::NtHostbased), 0);
    assert_eq!(i32::from(GssApiNametype::NtUsername), 1);
    assert_eq!(i32::from(GssApiNametype::NtKrb5Principal), 2);
    assert_eq!(GssApiNametype::try_from(1), Ok(GssApiNametype::NtUsername));
    assert_eq!(GssApiNametype::try_from(2), Ok(GssApiNametype::NtKrb5Principal));
    assert_eq!(GssApiNametype::try_from(7), Err(ZmqError::Unsupported));
    assert_eq!(nametype_value(&Ok(OptionValue::Int(0))), Ok(GssApiNametype::NtHostbased));
    assert_eq!(nametype_value(&Ok(OptionValue::Int(3))), Err(ZmqError::Unsupported));
    assert_eq!(nametype_value(&Err(errno::EINVAL)), Err(ZmqError::InvalidArgument));
    let context = Context::new();
    let socket = PairSocket::from_context(&context);
    assert_eq!(socket.set_gssapi_principal_nametype(GssApiNametype::NtUsername), flag(SocketOption::GssApiPrincipalNametype, 1));
}

#[test]
fn curve_key_outcomes() {
    assert_eq!(curve_key_result(Ok(vec![1u8, 2])), Ok(vec![1, 2]));
    assert_eq!(curve_key_result::<Vec<u8>>(Err(errno::ENOTSUP)), Err(ZmqError::Unsupported));
}

#[test]
fn mechanisms_and_name_types_describe_themselves() {
    assert_eq!(SecurityMechanism::Null.to_string(), "Null");
    assert_eq!(
        SecurityMechanism::PlainClient { username: "u".to_string(), password: "p".to_string() }.to_string(),
        "PlainClient { username = u, password = p }"
    );
    assert_eq!(
        SecurityMechanism::PlainServer { username: "admin".to_string(), password: "".to_string() }.to_string(),
        "PlainServer { username = admin, password =  }"
    );
    assert_eq!(SecurityMechanism::CurveServer { secret_key: vec![1; 32] }.to_string(), "CurveServer { ... }");
    assert_eq!(
        SecurityMechanism::CurveClient { server_key: vec![], public_key: vec![], secret_key: vec![] }.to_string(),
        "CurveClient { ... }"
    );
    assert_eq!(SecurityMechanism::GssApiClient { service_principal: "s".to_string() }.to_string(), "GssApiClient { ... }");
    assert_eq!(SecurityMechanism::GssApiServer.to_string(), "GssApiServer { ... }");
    assert_eq!(GssApiNametype::NtHostbased.to_string(), "NtHostbased");
    assert_eq!(GssApiNametype::NtUsername.to_string(), "NtUsername");
    assert_eq!(GssApiNametype::NtKrb5Principal.to_string(), "NtKrb5Principal");
}

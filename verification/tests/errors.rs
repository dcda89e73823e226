use arzmq::errno;
use arzmq::error::error_from_errno;
use arzmq::{proxy_result, Capability, ZmqError};

#[test]
fn every_named_errno_maps_onto_its_variant() {
    let table = [
        (errno::EAGAIN, ZmqError::Again),
        (errno::EFAULT, ZmqError::ContextInvalid),
        (errno::EINVAL, ZmqError::InvalidArgument),
        (errno::ENOTSUP, ZmqError::Unsupported),
        (errno::EPROTONOSUPPORT, ZmqError::ProtocolNotSupported),
        (errno::ENOBUFS, ZmqError::NoBufferSpaceAvailable),
        (errno::ENETDOWN, ZmqError::NetworkDown),
        (errno::EADDRINUSE, ZmqError::AddressInUse),
        (errno::EADDRNOTAVAIL, ZmqError::AddressNotAvailable),
        (errno::ECONNREFUSED, ZmqError::ConnectionRefused),
        (errno::EINPROGRESS, ZmqError::OperationInProgress),
        (errno::ENOTSOCK, ZmqError::SocketNull),
        (errno::EMSGSIZE, ZmqError::MessageTooLong),
        (errno::EAFNOSUPPORT, ZmqError::AddressFamilyNotSupported),
        (errno::ENETUNREACH, ZmqError::NetworkUnreachable),
        (errno::ECONNABORTED, ZmqError::ConnectionAborted),
        (errno::ECONNRESET, ZmqError::ConnectionReset),
        (errno::ENOTCONN, ZmqError::NotConnected),
        (errno::ETIMEDOUT, ZmqError::ConnectionTimeout),
        (errno::EHOSTUNREACH, ZmqError::HostUnreachable),
        (errno::ENETRESET, ZmqError::NetworkReset),
        (errno::EFSM, ZmqError::OperationNotPossible),
        (errno::ENOCOMPATPROTO, ZmqError::ProtocolIncompatible),
        (errno::ETERM, ZmqError::ContextTerminated),
        (errno::EMTHREAD, ZmqError::IoThreadUnavailable),
        (errno::ENOENT, ZmqError::EndpointNotInUse),
        (errno::EINTR, ZmqError::Interrupted),
        (errno::EMFILE, ZmqError::TooManyOpenFiles),
        (errno::EPROTO, ZmqError::TransportNotSupported),
        (errno::ENODEV, ZmqError::NonExistentInterface),
        (errno::ENOMEM, ZmqError::InsufficientMemory),
    ];
    for (code, err) in table {
        assert_eq!(ZmqError::from(code), err);
        assert_eq!(error_from_errno(code), err);
    }
}

#[test]
fn errno_numbers_of_the_runtime() {
    assert_eq!(errno::ZMQ_HAUSNUMERO, 156384712);
    assert_eq!(errno::EFSM, errno::ZMQ_HAUSNUMERO + 51);
    assert_eq!(errno::ENOCOMPATPROTO, errno::ZMQ_HAUSNUMERO + 52);
    assert_eq!(errno::ETERM, errno::ZMQ_HAUSNUMERO + 53);
    assert_eq!(errno::EMTHREAD, errno::ZMQ_HAUSNUMERO + 54);
}

#[test]
fn an_unknown_errno_is_kept() {
    assert_eq!(ZmqError::from(12345), ZmqError::Other(12345));
    assert_eq!(ZmqError::from(0), ZmqError::Other(0));
    assert_eq!(ZmqError::from(-1), ZmqError::Other(-1));
}

#[test]
fn different_errnos_decode_to_different_errors() {
    let codes = [errno::EAGAIN, errno::EINVAL, errno::ETERM, errno::EINTR, 7777, 7778];
    for a in codes {
        for b in codes {
            if a != b {
                assert_ne!(ZmqError::from(a), ZmqError::from(b));
            }
        }
    }
}

#[test]
fn errors_describe_themselves() {
    assert_eq!(ZmqError::Again.to_string(), "Again");
    assert_eq!(ZmqError::ContextTerminated.to_string(), "Context was terminated");
    assert_eq!(ZmqError::InvalidArgument.message(), "Invalid argument");
    assert_eq!(ZmqError::SocketNull.message(), "The provided socket was null");
    assert_eq!(ZmqError::IoThreadUnavailable.message(), "I/O thread unavaible");
    assert_eq!(ZmqError::Other(99).to_string(), "other");
}

#[test]
fn proxy_outcomes() {
    assert_eq!(proxy_result(0, 0), Ok(()));
    assert_eq!(proxy_result(-1, errno::ETERM), Err(ZmqError::ContextTerminated));
    assert_eq!(proxy_result(-1, errno::EINTR), Err(ZmqError::Interrupted));
    assert_eq!(proxy_result(-1, errno::EFAULT), Err(ZmqError::ContextInvalid));
}

#[test]
fn capability_names() {
    assert_eq!(Capability::Ipc.to_string(), "ipc");
    assert_eq!(Capability::Pgm.name(), "pgm");
    assert_eq!(Capability::Tipc.name(), "tipc");
    assert_eq!(Capability::Vmci.name(), "vmci");
    assert_eq!(Capability::Norm.name(), "norm");
    assert_eq!(Capability::Curve.name(), "curve");
    assert_eq!(Capability::GssApi.name(), "gssapi");
    assert_eq!(Capability::Draft.to_string(), "draft");
}

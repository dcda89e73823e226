//! Errors reported by the 0MQ runtime, and how error numbers map onto them.
use vstd::prelude::*;

use crate::errno;

verus! {

/// The errors of 0MQ operations. Each variant but [`Other`] stands for one error number;
/// [`Other`] keeps an error number that has no variant of its own.
///
/// [`Other`]: ZmqError::Other
#[derive(Debug, Clone, Copy, PartialEq, Eq, Structural)]
#[non_exhaustive]
pub enum ZmqError {
    /// `EAGAIN`
    Again,
    /// `EFAULT`
    ContextInvalid,
    /// `EINVAL`
    InvalidArgument,
    /// `ENOTSUP`
    Unsupported,
    /// `EPROTONOSUPPORT`
    ProtocolNotSupported,
    /// `ENOBUFS`
    NoBufferSpaceAvailable,
    /// `ENETDOWN`
    NetworkDown,
    /// `EADDRINUSE`
    AddressInUse,
    /// `EADDRNOTAVAIL`
    AddressNotAvailable,
    /// `ECONNREFUSED`
    ConnectionRefused,
    /// `EINPROGRESS`
    OperationInProgress,
    /// `ENOTSOCK`
    SocketNull,
    /// `EMSGSIZE`
    MessageTooLong,
    /// `EAFNOSUPPORT`
    AddressFamilyNotSupported,
    /// `ENETUNREACH`
    NetworkUnreachable,
    /// `ECONNABORTED`
    ConnectionAborted,
    /// `ECONNRESET`
    ConnectionReset,
    /// `ENOTCONN`
    NotConnected,
    /// `ETIMEDOUT`
    ConnectionTimeout,
    /// `EHOSTUNREACH`
    HostUnreachable,
    /// `ENETRESET`
    NetworkReset,
    /// `EFSM`
    OperationNotPossible,
    /// `ENOCOMPATPROTO`
    ProtocolIncompatible,
    /// `ETERM`
    ContextTerminated,
    /// `EMTHREAD`
    IoThreadUnavailable,
    /// `ENOENT`
    EndpointNotInUse,
    /// `EINTR`
    Interrupted,
    /// `EMFILE`
    TooManyOpenFiles,
    /// `EPROTO`
    TransportNotSupported,
    /// `ENODEV`
    NonExistentInterface,
    /// `ENOMEM`
    InsufficientMemory,
    /// any other error number
    Other(i32),
}

/// The result type of the library's operations.
pub type ZmqResult<T> = Result<T, ZmqError>;

/// The error that an error number stands for.
pub open spec fn error_of_errno(code: i32) -> ZmqError {
    if code == errno::EAGAIN {
        ZmqError::Again
    } else if code == errno::EFAULT {
        ZmqError::ContextInvalid
    } else if code == errno::EINVAL {
        ZmqError::InvalidArgument
    } else if code == errno::ENOTSUP {
        ZmqError::Unsupported
    } else if code == errno::EPROTONOSUPPORT {
        ZmqError::ProtocolNotSupported
    } else if code == errno::ENOBUFS {
        ZmqError::NoBufferSpaceAvailable
    } else if code == errno::ENETDOWN {
        ZmqError::NetworkDown
    } else if code == errno::EADDRINUSE {
        ZmqError::AddressInUse
    } else if code == errno::EADDRNOTAVAIL {
        ZmqError::AddressNotAvailable
    } else if code == errno::ECONNREFUSED {
        ZmqError::ConnectionRefused
    } else if code == errno::EINPROGRESS {
        ZmqError::OperationInProgress
    } else if code == errno::ENOTSOCK {
        ZmqError::SocketNull
    } else if code == errno::EMSGSIZE {
        ZmqError::MessageTooLong
    } else if code == errno::EAFNOSUPPORT {
        ZmqError::AddressFamilyNotSupported
    } else if code == errno::ENETUNREACH {
        ZmqError::NetworkUnreachable
    } else if code == errno::ECONNABORTED {
        ZmqError::ConnectionAborted
    } else if code == errno::ECONNRESET {
        ZmqError::ConnectionReset
    } else if code == errno::ENOTCONN {
        ZmqError::NotConnected
    } else if code == errno::ETIMEDOUT {
        ZmqError::ConnectionTimeout
    } else if code == errno::EHOSTUNREACH {
        ZmqError::HostUnreachable
    } else if code == errno::ENETRESET {
        ZmqError::NetworkReset
    } else if code == errno::EFSM {
        ZmqError::OperationNotPossible
    } else if code == errno::ENOCOMPATPROTO {
        ZmqError::ProtocolIncompatible
    } else if code == errno::ETERM {
        ZmqError::ContextTerminated
    } else if code == errno::EMTHREAD {
        ZmqError::IoThreadUnavailable
    } else if code == errno::ENOENT {
        ZmqError::EndpointNotInUse
    } else if code == errno::EINTR {
        ZmqError::Interrupted
    } else if code == errno::EMFILE {
        ZmqError::TooManyOpenFiles
    } else if code == errno::EPROTO {
        ZmqError::TransportNotSupported
    } else if code == errno::ENODEV {
        ZmqError::NonExistentInterface
    } else if code == errno::ENOMEM {
        ZmqError::InsufficientMemory
    } else {
        ZmqError::Other(code)
    }
}

/// The error number that an error stands for.
pub open spec fn errno_of_error(err: ZmqError) -> i32 {
    match err {
        ZmqError::Again => errno::EAGAIN,
        ZmqError::ContextInvalid => errno::EFAULT,
        ZmqError::InvalidArgument => errno::EINVAL,
        ZmqError::Unsupported => errno::ENOTSUP,
        ZmqError::ProtocolNotSupported => errno::EPROTONOSUPPORT,
        ZmqError::NoBufferSpaceAvailable => errno::ENOBUFS,
        ZmqError::NetworkDown => errno::ENETDOWN,
        ZmqError::AddressInUse => errno::EADDRINUSE,
        ZmqError::AddressNotAvailable => errno::EADDRNOTAVAIL,
        ZmqError::ConnectionRefused => errno::ECONNREFUSED,
        ZmqError::OperationInProgress => errno::EINPROGRESS,
        ZmqError::SocketNull => errno::ENOTSOCK,
        ZmqError::MessageTooLong => errno::EMSGSIZE,
        ZmqError::AddressFamilyNotSupported => errno::EAFNOSUPPORT,
        ZmqError::NetworkUnreachable => errno::ENETUNREACH,
        ZmqError::ConnectionAborted => errno::ECONNABORTED,
        ZmqError::ConnectionReset => errno::ECONNRESET,
        ZmqError::NotConnected => errno::ENOTCONN,
        ZmqError::ConnectionTimeout => errno::ETIMEDOUT,
        ZmqError::HostUnreachable => errno::EHOSTUNREACH,
        ZmqError::NetworkReset => errno::ENETRESET,
        ZmqError::OperationNotPossible => errno::EFSM,
        ZmqError::ProtocolIncompatible => errno::ENOCOMPATPROTO,
        ZmqError::ContextTerminated => errno::ETERM,
        ZmqError::IoThreadUnavailable => errno::EMTHREAD,
        ZmqError::EndpointNotInUse => errno::ENOENT,
        ZmqError::Interrupted => errno::EINTR,
        ZmqError::TooManyOpenFiles => errno::EMFILE,
        ZmqError::TransportNotSupported => errno::EPROTO,
        ZmqError::NonExistentInterface => errno::ENODEV,
        ZmqError::InsufficientMemory => errno::ENOMEM,
        ZmqError::Other(code) => code,
    }
}

/// Whether an error number has a variant of its own.
pub open spec fn is_named_errno(code: i32) -> bool {
    !(error_of_errno(code) is Other)
}

impl From<i32> for ZmqError {
    /// Maps an error number onto its error; an error number without a variant of its own
    /// is kept in [`ZmqError::Other`].
    fn from(code: i32) -> (err: Self) {
        if code == errno::EAGAIN {
            ZmqError::Again
        } else if code == errno::EFAULT {
            ZmqError::ContextInvalid
        } else if code == errno::EINVAL {
            ZmqError::InvalidArgument
        } else if code == errno::ENOTSUP {
            ZmqError::Unsupported
        } else if code == errno::EPROTONOSUPPORT {
            ZmqError::ProtocolNotSupported
        } else if code == errno::ENOBUFS {
            ZmqError::NoBufferSpaceAvailable
        } else if code == errno::ENETDOWN {
            ZmqError::NetworkDown
        } else if code == errno::EADDRINUSE {
            ZmqError::AddressInUse
        } else if code == errno::EADDRNOTAVAIL {
            ZmqError::AddressNotAvailable
        } else if code == errno::ECONNREFUSED {
            ZmqError::ConnectionRefused
        } else if code == errno::EINPROGRESS {
            ZmqError::OperationInProgress
        } else if code == errno::ENOTSOCK {
            ZmqError::SocketNull
        } else if code == errno::EMSGSIZE {
            ZmqError::MessageTooLong
        } else if code == errno::EAFNOSUPPORT {
            ZmqError::AddressFamilyNotSupported
        } else if code == errno::ENETUNREACH {
            ZmqError::NetworkUnreachable
        } else if code == errno::ECONNABORTED {
            ZmqError::ConnectionAborted
        } else if code == errno::ECONNRESET {
            ZmqError::ConnectionReset
        } else if code == errno::ENOTCONN {
            ZmqError::NotConnected
        } else if code == errno::ETIMEDOUT {
            ZmqError::ConnectionTimeout
        } else if code == errno::EHOSTUNREACH {
            ZmqError::HostUnreachable
        } else if code == errno::ENETRESET {
            ZmqError::NetworkReset
        } else if code == errno::EFSM {
            ZmqError::OperationNotPossible
        } else if code == errno::ENOCOMPATPROTO {
            ZmqError::ProtocolIncompatible
        } else if code == errno::ETERM {
            ZmqError::ContextTerminated
        } else if code == errno::EMTHREAD {
            ZmqError::IoThreadUnavailable
        } else if code == errno::ENOENT {
            ZmqError::EndpointNotInUse
        } else if code == errno::EINTR {
            ZmqError::Interrupted
        } else if code == errno::EMFILE {
            ZmqError::TooManyOpenFiles
        } else if code == errno::EPROTO {
            ZmqError::TransportNotSupported
        } else if code == errno::ENODEV {
            ZmqError::NonExistentInterface
        } else if code == errno::ENOMEM {
            ZmqError::InsufficientMemory
        } else {
            ZmqError::Other(code)
        }
    }
}

impl vstd::std_specs::convert::FromSpecImpl<i32> for ZmqError {
    open spec fn obeys_from_spec() -> bool {
        true
    }

    open spec fn from_spec(v: i32) -> ZmqError {
        error_of_errno(v)
    }
}

/// The text by which an error describes itself.
pub open spec fn error_message(err: ZmqError) -> Seq<char> {
    match err {
        ZmqError::Again => "Again"@,
        ZmqError::ContextInvalid => "Context is invalid"@,
        ZmqError::InvalidArgument => "Invalid argument"@,
        ZmqError::Unsupported => "Not supported"@,
        ZmqError::ProtocolNotSupported => "Protocol not supported"@,
        ZmqError::NoBufferSpaceAvailable => "No buffer space available"@,
        ZmqError::NetworkDown => "Network is down"@,
        ZmqError::AddressInUse => "Address in use"@,
        ZmqError::AddressNotAvailable => "Address not available"@,
        ZmqError::ConnectionRefused => "Connection refused"@,
        ZmqError::OperationInProgress => "Operation in progress"@,
        ZmqError::SocketNull => "The provided socket was null"@,
        ZmqError::MessageTooLong => "Message too long"@,
        ZmqError::AddressFamilyNotSupported => "Address family not supported by protocol"@,
        ZmqError::NetworkUnreachable => "Network is unreachable"@,
        ZmqError::ConnectionAborted => "Software caused connection abort"@,
        ZmqError::ConnectionReset => "Connection reset by peer"@,
        ZmqError::NotConnected => "Transport endpoint is not connected"@,
        ZmqError::ConnectionTimeout => "Connection timed out"@,
        ZmqError::HostUnreachable => "Host unreachable"@,
        ZmqError::NetworkReset => "Network dropped connection on reset"@,
        ZmqError::OperationNotPossible => "Operation cannot be accomplished in current state"@,
        ZmqError::ProtocolIncompatible => "The protocol is not compatible with the socket type"@,
        ZmqError::ContextTerminated => "Context was terminated"@,
        ZmqError::IoThreadUnavailable => "I/O thread unavaible"@,
        ZmqError::EndpointNotInUse => "Endpoint not in use"@,
        ZmqError::Interrupted => "Interrupted function call"@,
        ZmqError::TooManyOpenFiles => "Too many open files"@,
        ZmqError::TransportNotSupported => "Transport protocol not supported"@,
        ZmqError::NonExistentInterface => "Interface not existent"@,
        ZmqError::InsufficientMemory => "Insufficient memory"@,
        ZmqError::Other(_) => "other"@,
    }
}

impl ZmqError {
    /// The text by which this error describes itself.
    pub fn message(&self) -> (s: &'static str)
        ensures
            s@ == error_message(*self),
    {
        match self {
            ZmqError::Again => "Again",
            ZmqError::ContextInvalid => "Context is invalid",
            ZmqError::InvalidArgument => "Invalid argument",
            ZmqError::Unsupported => "Not supported",
            ZmqError::ProtocolNotSupported => "Protocol not supported",
            ZmqError::NoBufferSpaceAvailable => "No buffer space available",
            ZmqError::NetworkDown => "Network is down",
            ZmqError::AddressInUse => "Address in use",
            ZmqError::AddressNotAvailable => "Address not available",
            ZmqError::ConnectionRefused => "Connection refused",
            ZmqError::OperationInProgress => "Operation in progress",
            ZmqError::SocketNull => "The provided socket was null",
            ZmqError::MessageTooLong => "Message too long",
            ZmqError::AddressFamilyNotSupported => "Address family not supported by protocol",
            ZmqError::NetworkUnreachable => "Network is unreachable",
            ZmqError::ConnectionAborted => "Software caused connection abort",
            ZmqError::ConnectionReset => "Connection reset by peer",
            ZmqError::NotConnected => "Transport endpoint is not connected",
            ZmqError::ConnectionTimeout => "Connection timed out",
            ZmqError::HostUnreachable => "Host unreachable",
            ZmqError::NetworkReset => "Network dropped connection on reset",
            ZmqError::OperationNotPossible => "Operation cannot be accomplished in current state",
            ZmqError::ProtocolIncompatible => "The protocol is not compatible with the socket type",
            ZmqError::ContextTerminated => "Context was terminated",
            ZmqError::IoThreadUnavailable => "I/O thread unavaible",
            ZmqError::EndpointNotInUse => "Endpoint not in use",
            ZmqError::Interrupted => "Interrupted function call",
            ZmqError::TooManyOpenFiles => "Too many open files",
            ZmqError::TransportNotSupported => "Transport protocol not supported",
            ZmqError::NonExistentInterface => "Interface not existent",
            ZmqError::InsufficientMemory => "Insufficient memory",
            ZmqError::Other(_) => "other",
        }
    }

    /// The text by which this error describes itself, as an owned string.
    pub fn to_string(&self) -> (s: String)
        ensures
            s@ == error_message(*self),
    {
        self.message().to_owned()
    }
}

/// The error that an error number stands for (the same as `ZmqError::from`).
pub fn error_from_errno(code: i32) -> (err: ZmqError)
    ensures
        err == error_of_errno(code),
{
    ZmqError::from(code)
}

/// Decoding an error number loses nothing: the error gives the number back.
pub proof fn lemma_errno_decoding_is_lossless(code: i32)
    ensures
        errno_of_error(error_of_errno(code)) == code,
{
}

/// An error that is not an [`Other`](ZmqError::Other) wrapping a number with a variant of
/// its own comes back unchanged from its error number.
pub proof fn lemma_errno_round_trip(err: ZmqError)
    requires
        err matches ZmqError::Other(code) ==> !is_named_errno(code),
    ensures
        error_of_errno(errno_of_error(err)) == err,
{
}

/// Two different error numbers never decode to the same error.
pub proof fn lemma_errno_decoding_injective(a: i32, b: i32)
    requires
        a != b,
    ensures
        error_of_errno(a) != error_of_errno(b),
{
    lemma_errno_decoding_is_lossless(a);
    lemma_errno_decoding_is_lossless(b);
}

} // verus!

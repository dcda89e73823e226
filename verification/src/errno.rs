//! Error numbers that the 0MQ runtime reports, as they are defined on Linux and by `zmq.h`.
use vstd::prelude::*;

verus! {

/// Offset of the 0MQ-specific error numbers.
pub const ZMQ_HAUSNUMERO: i32 = 156384712;

pub const EAGAIN: i32 = 11;
pub const EFAULT: i32 = 14;
pub const EINVAL: i32 = 22;
pub const ENOTSUP: i32 = 95;
pub const EPROTONOSUPPORT: i32 = 93;
pub const ENOBUFS: i32 = 105;
pub const ENETDOWN: i32 = 100;
pub const EADDRINUSE: i32 = 98;
pub const EADDRNOTAVAIL: i32 = 99;
pub const ECONNREFUSED: i32 = 111;
pub const EINPROGRESS: i32 = 115;
pub const ENOTSOCK: i32 = 88;
pub const EMSGSIZE: i32 = 90;
pub const EAFNOSUPPORT: i32 = 97;
pub const ENETUNREACH: i32 = 101;
pub const ECONNABORTED: i32 = 103;
pub const ECONNRESET: i32 = 104;
pub const ENOTCONN: i32 = 107;
pub const ETIMEDOUT: i32 = 110;
pub const EHOSTUNREACH: i32 = 113;
pub const ENETRESET: i32 = 102;
pub const EFSM: i32 = 156384763;
pub const ENOCOMPATPROTO: i32 = 156384764;
pub const ETERM: i32 = 156384765;
pub const EMTHREAD: i32 = 156384766;
pub const ENOENT: i32 = 2;
pub const EINTR: i32 = 4;
pub const EMFILE: i32 = 24;
pub const EPROTO: i32 = 71;
pub const ENODEV: i32 = 19;
pub const ENOMEM: i32 = 12;

} // verus!

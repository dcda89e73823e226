//! A typed library around the 0MQ messaging runtime: socket kinds and options, security
//! mechanisms, monitor events, multipart messages and the errors of the runtime.
use vstd::prelude::*;

pub mod errno;
pub mod error;
pub mod option;
pub mod sealed;
pub mod socket;
pub mod context;
pub mod security;
pub mod auth;
pub mod builder;
pub mod message;
pub mod outcome;

pub use error::{ZmqError, ZmqResult};

use crate::error::error_of_errno;

verus! {

/// A capability that the runtime may have been built with, asked for by name.
#[derive(Debug, Clone, Copy, PartialEq, Eq, Structural)]
pub enum Capability {
    /// whether the library supports the `ipc://` protocol
    Ipc,
    /// whether the library supports the `pgm://` protocol
    Pgm,
    /// whether the library supports the `tipc://` protocol
    Tipc,
    /// whether the library support the `vmci://` protocol
    Vmci,
    /// whether the library supports the `norm://` protocol
    Norm,
    /// whether the library supports the CURVE security mechanism
    Curve,
    /// whether the library supports the GSSAPI security mechanism
    GssApi,
    /// whether the library is built with the draft api
    Draft,
}

/// The name under which the runtime knows a capability.
pub open spec fn capability_name(c: Capability) -> Seq<char> {
    match c {
        Capability::Ipc => "ipc"@,
        Capability::Pgm => "pgm"@,
        Capability::Tipc => "tipc"@,
        Capability::Vmci => "vmci"@,
        Capability::Norm => "norm"@,
        Capability::Curve => "curve"@,
        Capability::GssApi => "gssapi"@,
        Capability::Draft => "draft"@,
    }
}

impl Capability {
    /// The name under which the runtime knows this capability.
    pub fn name(&self) -> (s: &'static str)
        ensures
            s@ == capability_name(*self),
    {
        match self {
            Capability::Ipc => "ipc",
            Capability::Pgm => "pgm",
            Capability::Tipc => "tipc",
            Capability::Vmci => "vmci",
            Capability::Norm => "norm",
            Capability::Curve => "curve",
            Capability::GssApi => "gssapi",
            Capability::Draft => "draft",
        }
    }

    /// The name under which the runtime knows this capability, as an owned string.
    pub fn to_string(&self) -> (s: String)
        ensures
            s@ == capability_name(*self),
    {
        self.name().to_owned()
    }
}

/// Whether an errno is one that the proxy reports: the context was terminated, the call was
/// interrupted, or a socket was invalid.
pub open spec fn is_proxy_errno(errno: i32) -> bool {
    errno == crate::errno::ETERM || errno == crate::errno::EINTR || errno == crate::errno::EFAULT
}

/// The outcome of a proxy run from the runtime's return code and, where it failed, its errno.
/// The runtime reports no other errno from a proxy.
pub fn proxy_result(return_code: i32, errno: i32) -> (r: ZmqResult<()>)
    requires
        return_code == -1 ==> is_proxy_errno(errno),
    ensures
        return_code == -1 ==> r == Err::<(), ZmqError>(error_of_errno(errno)),
        return_code != -1 ==> r == Ok::<(), ZmqError>(()),
{
    if return_code == -1 {
        Err(ZmqError::from(errno))
    } else {
        Ok(())
    }
}

} // verus!

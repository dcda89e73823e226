use vstd::prelude::*;
use vstd::string::StringSliceAdditionalSpecFns;

use crate::option::{flag_int, holds_bytes, OptionValue, ValueKind};
use crate::sealed;
use crate::socket::{OptionRead, OptionWrite, Socket, SocketOption, SocketType};

verus! {

/// A scatter socket `ZMQ_SCATTER`: round-robins what it sends among gather sockets.
pub struct Scatter {}

impl sealed::SenderFlag for Scatter {}

impl sealed::SocketType for Scatter {
    open spec fn spec_socket_type() -> SocketType {
        SocketType::Scatter
    }

    fn raw_socket_type() -> (t: SocketType) {
        SocketType::Scatter
    }
}

/// A scatter socket `ZMQ_SCATTER`: round-robins what it sends among gather sockets.
pub type ScatterSocket = Socket<Scatter>;

} // verus!

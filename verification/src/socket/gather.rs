use vstd::prelude::*;
use vstd::string::StringSliceAdditionalSpecFns;

use crate::option::{flag_int, holds_bytes, OptionValue, ValueKind};
use crate::sealed;
use crate::socket::{OptionRead, OptionWrite, Socket, SocketOption, SocketType};

verus! {

/// A gather socket `ZMQ_GATHER`: fair-queues what scatter sockets send it.
pub struct Gather {}

impl sealed::ReceiverFlag for Gather {}

impl sealed::SocketType for Gather {
    open spec fn spec_socket_type() -> SocketType {
        SocketType::Gather
    }

    fn raw_socket_type() -> (t: SocketType) {
        SocketType::Gather
    }
}

/// A gather socket `ZMQ_GATHER`: fair-queues what scatter sockets send it.
pub type GatherSocket = Socket<Gather>;

} // verus!

use vstd::prelude::*;
use vstd::string::StringSliceAdditionalSpecFns;

use crate::option::{flag_int, holds_bytes, OptionValue, ValueKind};
use crate::sealed;
use crate::socket::{OptionRead, OptionWrite, Socket, SocketOption, SocketType};

verus! {

/// A channel socket `ZMQ_CHANNEL`: a thread-safe pair socket.
pub struct Channel {}

impl sealed::SenderFlag for Channel {}

impl sealed::ReceiverFlag for Channel {}

impl sealed::SocketType for Channel {
    open spec fn spec_socket_type() -> SocketType {
        SocketType::Channel
    }

    fn raw_socket_type() -> (t: SocketType) {
        SocketType::Channel
    }
}

/// A channel socket `ZMQ_CHANNEL`: a thread-safe pair socket.
pub type ChannelSocket = Socket<Channel>;

} // verus!

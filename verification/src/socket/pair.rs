use vstd::prelude::*;
use vstd::string::StringSliceAdditionalSpecFns;

use crate::option::{flag_int, holds_bytes, OptionValue, ValueKind};
use crate::sealed;
use crate::socket::{OptionRead, OptionWrite, Socket, SocketOption, SocketType};

verus! {

/// A pair socket `ZMQ_PAIR`: talks to exactly one peer.
pub struct Pair {}

impl sealed::SenderFlag for Pair {}

impl sealed::ReceiverFlag for Pair {}

impl sealed::SocketType for Pair {
    open spec fn spec_socket_type() -> SocketType {
        SocketType::Pair
    }

    fn raw_socket_type() -> (t: SocketType) {
        SocketType::Pair
    }
}

/// A pair socket `ZMQ_PAIR`: talks to exactly one peer.
pub type PairSocket = Socket<Pair>;

} // verus!

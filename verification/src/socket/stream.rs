use vstd::prelude::*;
use vstd::string::StringSliceAdditionalSpecFns;

use crate::option::{flag_int, holds_bytes, OptionValue, ValueKind};
use crate::sealed;
use crate::socket::{OptionRead, OptionWrite, Socket, SocketOption, SocketType};

verus! {

/// A stream socket `ZMQ_STREAM`: exchanges raw TCP data with peers that do not speak 0MQ.
pub struct Stream {}

impl sealed::SenderFlag for Stream {}

impl sealed::ReceiverFlag for Stream {}

impl sealed::SocketType for Stream {
    open spec fn spec_socket_type() -> SocketType {
        SocketType::Stream
    }

    fn raw_socket_type() -> (t: SocketType) {
        SocketType::Stream
    }
}

/// A stream socket `ZMQ_STREAM`: exchanges raw TCP data with peers that do not speak 0MQ.
pub type StreamSocket = Socket<Stream>;

impl Socket<Stream> {
    /// Sets the routing id of the socket `ZMQ_ROUTING_ID`.
    pub fn set_routing_id(&self, value: &str) -> (w: OptionWrite)
        ensures
            w.option == SocketOption::RoutingId,
            holds_bytes(w.value, value.spec_bytes()),
    {
        self.set_sockopt_string(SocketOption::RoutingId, value)
    }
    /// Reads the routing id of the socket `ZMQ_ROUTING_ID`.
    pub fn routing_id(&self) -> (r: OptionRead)
        ensures
            r == (OptionRead { option: SocketOption::RoutingId, kind: ValueKind::Bytes }),
    {
        self.get_sockopt_string(SocketOption::RoutingId)
    }
    /// Assigns the routing id of the next outbound connection `ZMQ_CONNECT_ROUTING_ID`.
    pub fn set_connect_routing_id(&self, value: &str) -> (w: OptionWrite)
        ensures
            w.option == SocketOption::ConnectRoutingId,
            holds_bytes(w.value, value.spec_bytes()),
    {
        self.set_sockopt_string(SocketOption::ConnectRoutingId, value)
    }
    /// Notifies connects and disconnects `ZMQ_STREAM_NOTIFY`.
    pub fn set_stream_notify(&self, value: bool) -> (w: OptionWrite)
        ensures
            w == (OptionWrite { option: SocketOption::StreamNotify, value: OptionValue::Int(flag_int(value)) }),
    {
        self.set_sockopt_bool(SocketOption::StreamNotify, value)
    }
}

} // verus!

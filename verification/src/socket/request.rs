use vstd::prelude::*;
use vstd::string::StringSliceAdditionalSpecFns;

use crate::option::{flag_int, holds_bytes, OptionValue, ValueKind};
use crate::sealed;
use crate::socket::{OptionRead, OptionWrite, Socket, SocketOption, SocketType};

verus! {

/// A request socket `ZMQ_REQ`: sends requests and receives their replies, alternately.
pub struct Request {}

impl sealed::SenderFlag for Request {}

impl sealed::ReceiverFlag for Request {}

impl sealed::SocketType for Request {
    open spec fn spec_socket_type() -> SocketType {
        SocketType::Request
    }

    fn raw_socket_type() -> (t: SocketType) {
        SocketType::Request
    }
}

/// A request socket `ZMQ_REQ`: sends requests and receives their replies, alternately.
pub type RequestSocket = Socket<Request>;

impl Socket<Request> {
    /// Matches replies with requests `ZMQ_REQ_CORRELATE`.
    pub fn set_correlate(&self, value: bool) -> (w: OptionWrite)
        ensures
            w == (OptionWrite { option: SocketOption::RequestCorrelate, value: OptionValue::Int(flag_int(value)) }),
    {
        self.set_sockopt_bool(SocketOption::RequestCorrelate, value)
    }
    /// Relaxes the strict alternation of requests and replies `ZMQ_REQ_RELAXED`.
    pub fn set_relaxed(&self, value: bool) -> (w: OptionWrite)
        ensures
            w == (OptionWrite { option: SocketOption::RequestRelaxed, value: OptionValue::Int(flag_int(value)) }),
    {
        self.set_sockopt_bool(SocketOption::RequestRelaxed, value)
    }
    /// Sets the routing id of the socket `ZMQ_ROUTING_ID`.
    pub fn set_routing_id(&self, value: &str) -> (w: OptionWrite)
        ensures
            w.option == SocketOption::RoutingId,
            holds_bytes(w.value, value.spec_bytes()),
    {
        self.set_sockopt_string(SocketOption::RoutingId, value)
    }
    /// Reads the routing id of the socket `ZMQ_ROUTING_ID`.
    pub fn routing_id(&self) -> (r: OptionRead)
        ensures
            r == (OptionRead { option: SocketOption::RoutingId, kind: ValueKind::Bytes }),
    {
        self.get_sockopt_string(SocketOption::RoutingId)
    }
    /// Sends an empty message on each new connection `ZMQ_PROBE_ROUTER`.
    pub fn set_probe_router(&self, value: bool) -> (w: OptionWrite)
        ensures
            w == (OptionWrite { option: SocketOption::ProbeRouter, value: OptionValue::Int(flag_int(value)) }),
    {
        self.set_sockopt_bool(SocketOption::ProbeRouter, value)
    }
}

} // verus!

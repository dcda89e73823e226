use vstd::prelude::*;
use vstd::string::StringSliceAdditionalSpecFns;

use crate::option::{flag_int, holds_bytes, OptionValue, ValueKind};
use crate::sealed;
use crate::error::{ZmqError, ZmqResult};
use crate::option::{int_of, int_value, reply_view};
use crate::socket::RouterNotify;
use crate::socket::{OptionRead, OptionWrite, Socket, SocketOption, SocketType};

verus! {

/// A router socket `ZMQ_ROUTER`: routes what it sends by the routing id in the first part.
pub struct Router {}

impl sealed::SenderFlag for Router {}

impl sealed::ReceiverFlag for Router {}

impl sealed::SocketType for Router {
    open spec fn spec_socket_type() -> SocketType {
        SocketType::Router
    }

    fn raw_socket_type() -> (t: SocketType) {
        SocketType::Router
    }
}

/// A router socket `ZMQ_ROUTER`: routes what it sends by the routing id in the first part.
pub type RouterSocket = Socket<Router>;

impl Socket<Router> {
    /// Sends an empty message on each new connection `ZMQ_PROBE_ROUTER`.
    pub fn set_probe_router(&self, value: bool) -> (w: OptionWrite)
        ensures
            w == (OptionWrite { option: SocketOption::ProbeRouter, value: OptionValue::Int(flag_int(value)) }),
    {
        self.set_sockopt_bool(SocketOption::ProbeRouter, value)
    }

    /// Sets the routing id of the socket `ZMQ_ROUTING_ID`.
    pub fn set_routing_id(&self, value: &str) -> (w: OptionWrite)
        ensures
            w.option == SocketOption::RoutingId,
            holds_bytes(w.value, value.spec_bytes()),
    {
        self.set_sockopt_string(SocketOption::RoutingId, value)
    }
    /// Reads the routing id of the socket `ZMQ_ROUTING_ID`.
    pub fn routing_id(&self) -> (r: OptionRead)
        ensures
            r == (OptionRead { option: SocketOption::RoutingId, kind: ValueKind::Bytes }),
    {
        self.get_sockopt_string(SocketOption::RoutingId)
    }
    /// Assigns the routing id of the next outbound connection `ZMQ_CONNECT_ROUTING_ID`.
    pub fn set_connect_routing_id(&self, value: &str) -> (w: OptionWrite)
        ensures
            w.option == SocketOption::ConnectRoutingId,
            holds_bytes(w.value, value.spec_bytes()),
    {
        self.set_sockopt_string(SocketOption::ConnectRoutingId, value)
    }
    /// Hands a routing id over to a newer peer `ZMQ_ROUTER_HANDOVER`.
    pub fn set_router_handover(&self, value: bool) -> (w: OptionWrite)
        ensures
            w == (OptionWrite { option: SocketOption::RouterHandover, value: OptionValue::Int(flag_int(value)) }),
    {
        self.set_sockopt_bool(SocketOption::RouterHandover, value)
    }
    /// Fails on unroutable messages `ZMQ_ROUTER_MANDATORY`.
    pub fn set_router_mandatory(&self, value: bool) -> (w: OptionWrite)
        ensures
            w == (OptionWrite { option: SocketOption::RouterMandatory, value: OptionValue::Int(flag_int(value)) }),
    {
        self.set_sockopt_bool(SocketOption::RouterMandatory, value)
    }
    /// Sets the message generated when an accepted peer disconnects `ZMQ_DISCONNECT_MSG`.
    pub fn set_disconnect_message(&self, value: &str) -> (w: OptionWrite)
        ensures
            w.option == SocketOption::DisconnectMessage,
            holds_bytes(w.value, value.spec_bytes()),
    {
        self.set_sockopt_string(SocketOption::DisconnectMessage, value)
    }
    /// Sets the message sent to each new peer `ZMQ_HELLO_MSG`.
    pub fn set_hello_message(&self, value: &str) -> (w: OptionWrite)
        ensures
            w.option == SocketOption::HelloMessage,
            holds_bytes(w.value, value.spec_bytes()),
    {
        self.set_sockopt_string(SocketOption::HelloMessage, value)
    }
}

impl Socket<Router> {
    /// Sets which peer events are notified `ZMQ_ROUTER_NOTIFY`.
    pub fn set_router_notify(&self, value: RouterNotify) -> (w: OptionWrite)
        ensures
            w == (OptionWrite { option: SocketOption::RouterNotify, value: OptionValue::Int(value.0) }),
    {
        self.set_sockopt_int(SocketOption::RouterNotify, value.bits())
    }

    /// Reads which peer events are notified `ZMQ_ROUTER_NOTIFY` (see
    /// [`router_notify_value`]).
    pub fn router_notify(&self) -> (r: OptionRead)
        ensures
            r == (OptionRead { option: SocketOption::RouterNotify, kind: ValueKind::Int }),
    {
        self.get_sockopt_int(SocketOption::RouterNotify)
    }
}

/// The notifications that a read of `ZMQ_ROUTER_NOTIFY` gave back: the known ones among
/// the bits of the value.
pub fn router_notify_value(reply: &Result<OptionValue, i32>) -> (r: ZmqResult<RouterNotify>)
    ensures
        r == (match int_of(reply_view(*reply)) {
            Ok(v) => Ok::<RouterNotify, ZmqError>(RouterNotify(v & RouterNotify::known_bits())),
            Err(e) => Err(e),
        }),
{
    match int_value(reply) {
        Ok(v) => Ok(RouterNotify::from_bits_truncate(v)),
        Err(e) => Err(e),
    }
}
} // verus!

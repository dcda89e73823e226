use vstd::prelude::*;
use vstd::string::StringSliceAdditionalSpecFns;

use crate::option::{flag_int, holds_bytes, OptionValue, ValueKind};
use crate::sealed;
use crate::error::{error_of_errno, ZmqError, ZmqResult};
use crate::socket::{endpoint_call, endpoint_call_of, EndpointAction, EndpointCall};
use crate::socket::{OptionRead, OptionWrite, Socket, SocketOption, SocketType};

verus! {

/// A peer socket `ZMQ_PEER`: talks to a set of peer sockets, addressing each by routing id.
pub struct Peer {}

impl sealed::SenderFlag for Peer {}

impl sealed::ReceiverFlag for Peer {}

impl sealed::SocketType for Peer {
    open spec fn spec_socket_type() -> SocketType {
        SocketType::Peer
    }

    fn raw_socket_type() -> (t: SocketType) {
        SocketType::Peer
    }
}

/// A peer socket `ZMQ_PEER`: talks to a set of peer sockets, addressing each by routing id.
pub type PeerSocket = Socket<Peer>;

impl Socket<Peer> {
    /// Sets the message generated when a connected peer temporarily disconnects `ZMQ_HICCUP_MSG`.
    pub fn set_hiccup_message(&self, value: &str) -> (w: OptionWrite)
        ensures
            w.option == SocketOption::HiccupMessage,
            holds_bytes(w.value, value.spec_bytes()),
    {
        self.set_sockopt_string(SocketOption::HiccupMessage, value)
    }
    /// Sets the message sent to each new peer `ZMQ_HELLO_MSG`.
    pub fn set_hello_message(&self, value: &str) -> (w: OptionWrite)
        ensures
            w.option == SocketOption::HelloMessage,
            holds_bytes(w.value, value.spec_bytes()),
    {
        self.set_sockopt_string(SocketOption::HelloMessage, value)
    }
    /// Sets the message generated when an accepted peer disconnects `ZMQ_DISCONNECT_MSG`.
    pub fn set_disconnect_message(&self, value: &str) -> (w: OptionWrite)
        ensures
            w.option == SocketOption::DisconnectMessage,
            holds_bytes(w.value, value.spec_bytes()),
    {
        self.set_sockopt_string(SocketOption::DisconnectMessage, value)
    }
}

impl Socket<Peer> {
    /// Connects the socket to an endpoint; the runtime answers with the routing id of the
    /// peer (see [`connect_peer_result`]).
    pub fn connect_peer(&self, endpoint: &str) -> (r: ZmqResult<EndpointCall>)
        ensures
            endpoint_call_of(r, EndpointAction::ConnectPeer, endpoint.spec_bytes()),
    {
        endpoint_call(EndpointAction::ConnectPeer, endpoint)
    }
}

/// What a peer connection comes to: the routing id of the peer, or, where the runtime
/// answered with routing id zero, the error of `errno`.
pub fn connect_peer_result(routing_id: u32, errno: i32) -> (r: ZmqResult<u32>)
    ensures
        routing_id == 0 ==> r == Err::<u32, ZmqError>(error_of_errno(errno)),
        routing_id != 0 ==> r == Ok::<u32, ZmqError>(routing_id),
{
    if routing_id == 0 {
        Err(ZmqError::from(errno))
    } else {
        Ok(routing_id)
    }
}
} // verus!

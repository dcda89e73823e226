use vstd::prelude::*;
use vstd::string::StringSliceAdditionalSpecFns;

use crate::option::{flag_int, holds_bytes, OptionValue, ValueKind};
use crate::sealed;
use crate::socket::{OptionRead, OptionWrite, Socket, SocketOption, SocketType};

verus! {

/// A server socket `ZMQ_SERVER`: talks to client sockets, addressing each by routing id.
pub struct Server {}

impl sealed::SenderFlag for Server {}

impl sealed::ReceiverFlag for Server {}

impl sealed::SocketType for Server {
    open spec fn spec_socket_type() -> SocketType {
        SocketType::Server
    }

    fn raw_socket_type() -> (t: SocketType) {
        SocketType::Server
    }
}

/// A server socket `ZMQ_SERVER`: talks to client sockets, addressing each by routing id.
pub type ServerSocket = Socket<Server>;

impl Socket<Server> {
    /// Sets the message sent to each new peer `ZMQ_HELLO_MSG`.
    pub fn set_hello_message(&self, value: &str) -> (w: OptionWrite)
        ensures
            w.option == SocketOption::HelloMessage,
            holds_bytes(w.value, value.spec_bytes()),
    {
        self.set_sockopt_string(SocketOption::HelloMessage, value)
    }
    /// Sets the message generated when an accepted peer disconnects `ZMQ_DISCONNECT_MSG`.
    pub fn set_disconnect_message(&self, value: &str) -> (w: OptionWrite)
        ensures
            w.option == SocketOption::DisconnectMessage,
            holds_bytes(w.value, value.spec_bytes()),
    {
        self.set_sockopt_string(SocketOption::DisconnectMessage, value)
    }
}

} // verus!

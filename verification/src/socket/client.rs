use vstd::prelude::*;
use vstd::string::StringSliceAdditionalSpecFns;

use crate::option::{flag_int, holds_bytes, OptionValue, ValueKind};
use crate::sealed;
use crate::socket::{OptionRead, OptionWrite, Socket, SocketOption, SocketType};

verus! {

/// A client socket `ZMQ_CLIENT`: talks to server sockets, round-robining what it sends.
pub struct Client {}

impl sealed::SenderFlag for Client {}

impl sealed::ReceiverFlag for Client {}

impl sealed::SocketType for Client {
    open spec fn spec_socket_type() -> SocketType {
        SocketType::Client
    }

    fn raw_socket_type() -> (t: SocketType) {
        SocketType::Client
    }
}

/// A client socket `ZMQ_CLIENT`: talks to server sockets, round-robining what it sends.
pub type ClientSocket = Socket<Client>;

impl Socket<Client> {
    /// Sets the message generated when a connected peer temporarily disconnects `ZMQ_HICCUP_MSG`.
    pub fn set_hiccup_message(&self, value: &str) -> (w: OptionWrite)
        ensures
            w.option == SocketOption::HiccupMessage,
            holds_bytes(w.value, value.spec_bytes()),
    {
        self.set_sockopt_string(SocketOption::HiccupMessage, value)
    }
    /// Sets the message sent to each new peer `ZMQ_HELLO_MSG`.
    pub fn set_hello_message(&self, value: &str) -> (w: OptionWrite)
        ensures
            w.option == SocketOption::HelloMessage,
            holds_bytes(w.value, value.spec_bytes()),
    {
        self.set_sockopt_string(SocketOption::HelloMessage, value)
    }
}

} // verus!

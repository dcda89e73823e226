//! The traits that mark the socket kinds of the library.
use vstd::prelude::*;

use crate::socket;

verus! {

/// Marks the socket kinds on which messages can be received.
pub trait ReceiverFlag {}

/// Marks the socket kinds on which messages can be sent.
pub trait SenderFlag {}

/// A socket kind, with the kind of runtime socket it is made of.
pub trait SocketType {
    /// The kind of runtime socket.
    spec fn spec_socket_type() -> socket::SocketType;

    /// The kind of runtime socket.
    fn raw_socket_type() -> (t: socket::SocketType)
        ensures
            t == Self::spec_socket_type(),
    ;
}

} // verus!

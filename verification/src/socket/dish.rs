use vstd::prelude::*;
use vstd::string::StringSliceAdditionalSpecFns;

use crate::option::{flag_int, holds_bytes, OptionValue, ValueKind};
use crate::sealed;
use crate::builder::{socket_config_writes, unset_socket_config, SocketConfig};
use crate::socket::writes_view;
use crate::context::Context;
use crate::error::{ZmqError, ZmqResult};
use crate::socket::{endpoint_call, endpoint_call_of, has_nul, EndpointAction, EndpointCall};
use vstd::utf8::encode_utf8;
use crate::socket::{OptionRead, OptionWrite, Socket, SocketOption, SocketType};

verus! {

/// A dish socket `ZMQ_DISH`: receives the groups it joined from radio sockets.
pub struct Dish {}

impl sealed::ReceiverFlag for Dish {}

impl sealed::SocketType for Dish {
    open spec fn spec_socket_type() -> SocketType {
        SocketType::Dish
    }

    fn raw_socket_type() -> (t: SocketType) {
        SocketType::Dish
    }
}

/// A dish socket `ZMQ_DISH`: receives the groups it joined from radio sockets.
pub type DishSocket = Socket<Dish>;

impl Socket<Dish> {
    /// Joins a group.
    pub fn join(&self, group: &str) -> (r: ZmqResult<EndpointCall>)
        ensures
            endpoint_call_of(r, EndpointAction::Join, group.spec_bytes()),
    {
        endpoint_call(EndpointAction::Join, group)
    }

    /// Leaves a group.
    pub fn leave(&self, group: &str) -> (r: ZmqResult<EndpointCall>)
        ensures
            endpoint_call_of(r, EndpointAction::Leave, group.spec_bytes()),
    {
        endpoint_call(EndpointAction::Leave, group)
    }
}

/// Builder for [`DishSocket`]: the configuration common to all sockets, and the group it
/// joins, if one is given.
#[derive(Debug, Clone, Default, PartialEq, Eq, Hash)]
pub struct DishBuilder {
    pub socket_config: SocketConfig,
    pub join: Option<String>,
}

/// Whether `calls` are the calls that join the group `join`, if there is one: none without
/// a group, else the one join of the group's characters.
pub open spec fn dish_join_calls(join: Option<String>, calls: Seq<EndpointCall>) -> bool {
    match join {
        None => calls.len() == 0,
        Some(group) => calls.len() == 1 && calls[0].action == EndpointAction::Join
            && calls[0].endpoint@ == encode_utf8(group@),
    }
}

/// Whether `r` is what joining the group `join` comes to: the invalid argument where the
/// group holds a zero byte, else the calls of [`dish_join_calls`].
pub open spec fn dish_join_outcome(join: Option<String>, r: ZmqResult<Vec<EndpointCall>>) -> bool {
    match join {
        Some(group) if has_nul(encode_utf8(group@)) => r == Err::<Vec<EndpointCall>, ZmqError>(ZmqError::InvalidArgument),
        _ => r matches Ok(calls) && dish_join_calls(join, calls@),
    }
}

impl DishBuilder {
    /// A builder that sets nothing and joins nothing.
    pub fn new() -> (b: DishBuilder)
        ensures
            b == (DishBuilder { socket_config: unset_socket_config(), join: None }),
    {
        DishBuilder { socket_config: SocketConfig::new(), join: None }
    }

    /// Sets the configuration common to all sockets, see [`SocketConfig`].
    pub fn socket_config(self, value: SocketConfig) -> (b: DishBuilder)
        ensures
            b == (DishBuilder { socket_config: value, ..self }),
    {
        DishBuilder { socket_config: value, ..self }
    }

    /// Sets the group to join.
    pub fn join(self, group: String) -> (b: DishBuilder)
        ensures
            b == (DishBuilder { join: Some(group), ..self }),
    {
        DishBuilder { join: Some(group), ..self }
    }

    /// What applies this builder to `socket`: the writes of its socket configuration, made
    /// first and in order, stopping at the first that fails (see
    /// [`crate::outcome::next_call`]); then the join of its group, if it has one, or the
    /// error that the group comes to.
    pub fn apply(self, socket: &DishSocket) -> (r: (Vec<OptionWrite>, ZmqResult<Vec<EndpointCall>>))
        ensures
            writes_view(r.0@) == socket_config_writes(self.socket_config),
            dish_join_outcome(self.join, r.1),
    {
        let writes = self.socket_config.apply(socket);
        let mut calls: Vec<EndpointCall> = Vec::new();
        if let Some(group) = self.join {
            match socket.join(group.as_str()) {
                Ok(call) => calls.push(call),
                Err(e) => return (writes, Err(e)),
            }
        }
        (writes, Ok(calls))
    }

    /// A new dish socket on `context`, with what applies this builder to it (see
    /// [`DishBuilder::apply`]).
    pub fn build_from_context(self, context: &Context) -> (r: (DishSocket, Vec<OptionWrite>, ZmqResult<Vec<EndpointCall>>))
        ensures
            r.0.kind() == SocketType::Dish,
            writes_view(r.1@) == socket_config_writes(self.socket_config),
            dish_join_outcome(self.join, r.2),
    {
        let socket = DishSocket::from_context(context);
        let (writes, calls) = self.apply(&socket);
        (socket, writes, calls)
    }
}
} // verus!

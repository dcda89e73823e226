use vstd::prelude::*;
use vstd::string::StringSliceAdditionalSpecFns;

use crate::option::{flag_int, holds_bytes, OptionValue, ValueKind};
use crate::context::Context;
use crate::option::OptionData;
use crate::sealed;
use crate::builder::{written_values, lemma_written_values_add, lemma_socket_config_other_options, text_values, lemma_optional_text_values, socket_config_writes, unset_socket_config, SocketConfig};
use crate::socket::{optional_flag_writes, optional_text_writes, writes_view};
use crate::socket::{OptionRead, OptionWrite, Socket, SocketOption, SocketType};

verus! {

/// A reply socket `ZMQ_REP`: answers requests, one reply for each request.
pub struct Reply {}

impl sealed::SenderFlag for Reply {}

impl sealed::ReceiverFlag for Reply {}

impl sealed::SocketType for Reply {
    open spec fn spec_socket_type() -> SocketType {
        SocketType::Reply
    }

    fn raw_socket_type() -> (t: SocketType) {
        SocketType::Reply
    }
}

/// A reply socket `ZMQ_REP`: answers requests, one reply for each request.
pub type ReplySocket = Socket<Reply>;

impl Socket<Reply> {
    /// Sets the routing id of the socket `ZMQ_ROUTING_ID`.
    pub fn set_routing_id(&self, value: &str) -> (w: OptionWrite)
        ensures
            w.option == SocketOption::RoutingId,
            holds_bytes(w.value, value.spec_bytes()),
    {
        self.set_sockopt_string(SocketOption::RoutingId, value)
    }
    /// Reads the routing id of the socket `ZMQ_ROUTING_ID`.
    pub fn routing_id(&self) -> (r: OptionRead)
        ensures
            r == (OptionRead { option: SocketOption::RoutingId, kind: ValueKind::Bytes }),
    {
        self.get_sockopt_string(SocketOption::RoutingId)
    }
}

/// Builder for [`ReplySocket`]: each option that is given is written when the builder
/// is applied, in the order of the fields, the socket configuration first.
#[derive(Debug, Clone, Default, PartialEq, Eq, Hash)]
pub struct ReplyBuilder {
    pub socket_config: SocketConfig,
    pub routing_id: Option<String>,
}

/// The writes of a [`ReplyBuilder`], in order.
pub open spec fn reply_builder_writes(b: ReplyBuilder) -> Seq<(SocketOption, OptionData)> {
    socket_config_writes(b.socket_config)
        + optional_text_writes(SocketOption::RoutingId, b.routing_id)
}

proof fn lemma_reply_builder_writes_routing_id(b: ReplyBuilder)
    ensures
        written_values(reply_builder_writes(b), SocketOption::RoutingId) == text_values(b.routing_id),
{
    lemma_socket_config_other_options(b.socket_config, SocketOption::RoutingId);
    lemma_written_values_add(socket_config_writes(b.socket_config), optional_text_writes(SocketOption::RoutingId, b.routing_id), SocketOption::RoutingId);
    lemma_optional_text_values(SocketOption::RoutingId, b.routing_id, SocketOption::RoutingId);
    assert(written_values(reply_builder_writes(b), SocketOption::RoutingId) =~= text_values(b.routing_id));
}

/// Applying a [`ReplyBuilder`] writes its socket configuration first; then each of its options is
/// written to its own socket option, with the given value, where it is given, and not at
/// all where it is not.
pub proof fn lemma_reply_builder_writes_each_option(b: ReplyBuilder)
    ensures
        reply_builder_writes(b).take(socket_config_writes(b.socket_config).len() as int) == socket_config_writes(b.socket_config),
        written_values(reply_builder_writes(b), SocketOption::RoutingId) == text_values(b.routing_id),
{
    lemma_reply_builder_writes_routing_id(b);
    assert(reply_builder_writes(b).take(socket_config_writes(b.socket_config).len() as int) =~= socket_config_writes(b.socket_config));
}

impl ReplyBuilder {
    /// A builder that sets nothing.
    pub fn new() -> (b: ReplyBuilder)
        ensures
            b == (ReplyBuilder { socket_config: unset_socket_config(), routing_id: None }),
    {
        ReplyBuilder { socket_config: SocketConfig::new(), routing_id: None }
    }

    /// Sets the configuration common to all sockets, see [`SocketConfig`].
    pub fn socket_config(self, value: SocketConfig) -> (b: ReplyBuilder)
        ensures
            b == (ReplyBuilder { socket_config: value, ..self }),
    {
        ReplyBuilder { socket_config: value, ..self }
    }

    /// Sets the `routing_id` option, see [`Socket::set_routing_id`].
    pub fn routing_id(self, value: String) -> (b: ReplyBuilder)
        ensures
            b == (ReplyBuilder { routing_id: Some(value), ..self }),
    {
        ReplyBuilder { routing_id: Some(value), ..self }
    }

    /// The writes that apply this builder to `socket`, the socket configuration's first; they
    /// are made in order, stopping at the first that fails (see [`crate::outcome::next_call`]).
    pub fn apply(&self, socket: &ReplySocket) -> (writes: Vec<OptionWrite>)
        ensures
            writes_view(writes@) == reply_builder_writes(*self),
    {
        let mut writes: Vec<OptionWrite> = self.socket_config.apply(socket);
        if let Some(routing_id) = &self.routing_id {
            writes.push(socket.set_routing_id(routing_id.as_str()));
        }
        assert(writes_view(writes@) =~= reply_builder_writes(*self));
        writes
    }

    /// A new socket on `context`, with the writes that apply this builder to it.
    pub fn build_from_context(&self, context: &Context) -> (r: (ReplySocket, Vec<OptionWrite>))
        ensures
            r.0.kind() == <Reply as sealed::SocketType>::spec_socket_type(),
            writes_view(r.1@) == reply_builder_writes(*self),
    {
        let socket = ReplySocket::from_context(context);
        let writes = self.apply(&socket);
        (socket, writes)
    }
}

} // verus!

use vstd::prelude::*;
use vstd::string::StringSliceAdditionalSpecFns;

use crate::option::{flag_int, holds_bytes, OptionValue, ValueKind};
use crate::context::Context;
use crate::option::OptionData;
use crate::sealed;
use crate::builder::{written_values, lemma_written_values_add, lemma_socket_config_other_options, flag_values, lemma_optional_flag_values, socket_config_writes, unset_socket_config, SocketConfig};
use crate::socket::{optional_flag_writes, optional_text_writes, writes_view};
use crate::socket::{OptionRead, OptionWrite, Socket, SocketOption, SocketType};

verus! {

/// A pull socket `ZMQ_PULL`: fair-queues what push sockets send it.
pub struct Pull {}

impl sealed::ReceiverFlag for Pull {}

impl sealed::SocketType for Pull {
    open spec fn spec_socket_type() -> SocketType {
        SocketType::Pull
    }

    fn raw_socket_type() -> (t: SocketType) {
        SocketType::Pull
    }
}

/// A pull socket `ZMQ_PULL`: fair-queues what push sockets send it.
pub type PullSocket = Socket<Pull>;

impl Socket<Pull> {
    /// Keeps only the last message `ZMQ_CONFLATE`.
    pub fn set_conflate(&self, value: bool) -> (w: OptionWrite)
        ensures
            w == (OptionWrite { option: SocketOption::Conflate, value: OptionValue::Int(flag_int(value)) }),
    {
        self.set_sockopt_bool(SocketOption::Conflate, value)
    }
}

/// Builder for [`PullSocket`]: each option that is given is written when the builder
/// is applied, in the order of the fields, the socket configuration first.
#[derive(Debug, Clone, Default, PartialEq, Eq, Hash)]
pub struct PullBuilder {
    pub socket_config: SocketConfig,
    pub conflate: Option<bool>,
}

/// The writes of a [`PullBuilder`], in order.
pub open spec fn pull_builder_writes(b: PullBuilder) -> Seq<(SocketOption, OptionData)> {
    socket_config_writes(b.socket_config)
        + optional_flag_writes(SocketOption::Conflate, b.conflate)
}

proof fn lemma_pull_builder_writes_conflate(b: PullBuilder)
    ensures
        written_values(pull_builder_writes(b), SocketOption::Conflate) == flag_values(b.conflate),
{
    lemma_socket_config_other_options(b.socket_config, SocketOption::Conflate);
    lemma_written_values_add(socket_config_writes(b.socket_config), optional_flag_writes(SocketOption::Conflate, b.conflate), SocketOption::Conflate);
    lemma_optional_flag_values(SocketOption::Conflate, b.conflate, SocketOption::Conflate);
    assert(written_values(pull_builder_writes(b), SocketOption::Conflate) =~= flag_values(b.conflate));
}

/// Applying a [`PullBuilder`] writes its socket configuration first; then each of its options is
/// written to its own socket option, with the given value, where it is given, and not at
/// all where it is not.
pub proof fn lemma_pull_builder_writes_each_option(b: PullBuilder)
    ensures
        pull_builder_writes(b).take(socket_config_writes(b.socket_config).len() as int) == socket_config_writes(b.socket_config),
        written_values(pull_builder_writes(b), SocketOption::Conflate) == flag_values(b.conflate),
{
    lemma_pull_builder_writes_conflate(b);
    assert(pull_builder_writes(b).take(socket_config_writes(b.socket_config).len() as int) =~= socket_config_writes(b.socket_config));
}

impl PullBuilder {
    /// A builder that sets nothing.
    pub fn new() -> (b: PullBuilder)
        ensures
            b == (PullBuilder { socket_config: unset_socket_config(), conflate: None }),
    {
        PullBuilder { socket_config: SocketConfig::new(), conflate: None }
    }

    /// Sets the configuration common to all sockets, see [`SocketConfig`].
    pub fn socket_config(self, value: SocketConfig) -> (b: PullBuilder)
        ensures
            b == (PullBuilder { socket_config: value, ..self }),
    {
        PullBuilder { socket_config: value, ..self }
    }

    /// Sets the `conflate` option, see [`Socket::set_conflate`].
    pub fn conflate(self, value: bool) -> (b: PullBuilder)
        ensures
            b == (PullBuilder { conflate: Some(value), ..self }),
    {
        PullBuilder { conflate: Some(value), ..self }
    }

    /// The writes that apply this builder to `socket`, the socket configuration's first; they
    /// are made in order, stopping at the first that fails (see [`crate::outcome::next_call`]).
    pub fn apply(&self, socket: &PullSocket) -> (writes: Vec<OptionWrite>)
        ensures
            writes_view(writes@) == pull_builder_writes(*self),
    {
        let mut writes: Vec<OptionWrite> = self.socket_config.apply(socket);
        if let Some(conflate) = self.conflate {
            writes.push(socket.set_conflate(conflate));
        }
        assert(writes_view(writes@) =~= pull_builder_writes(*self));
        writes
    }

    /// A new socket on `context`, with the writes that apply this builder to it.
    pub fn build_from_context(&self, context: &Context) -> (r: (PullSocket, Vec<OptionWrite>))
        ensures
            r.0.kind() == <Pull as sealed::SocketType>::spec_socket_type(),
            writes_view(r.1@) == pull_builder_writes(*self),
    {
        let socket = PullSocket::from_context(context);
        let writes = self.apply(&socket);
        (socket, writes)
    }
}

} // verus!

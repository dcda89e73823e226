use vstd::prelude::*;
use vstd::string::StringSliceAdditionalSpecFns;

use crate::option::{flag_int, holds_bytes, OptionValue, ValueKind};
use crate::context::Context;
use crate::option::OptionData;
use crate::sealed;
use crate::builder::{written_values, lemma_written_values_add, lemma_socket_config_other_options, flag_values, lemma_optional_flag_values, socket_config_writes, unset_socket_config, SocketConfig};
use crate::socket::{optional_flag_writes, optional_text_writes, writes_view};
use crate::socket::{OptionRead, OptionWrite, Socket, SocketOption, SocketType};

verus! {

/// A radio socket `ZMQ_RADIO`: distributes what it sends to the dish sockets of its group.
pub struct Radio {}

impl sealed::SenderFlag for Radio {}

impl sealed::SocketType for Radio {
    open spec fn spec_socket_type() -> SocketType {
        SocketType::Radio
    }

    fn raw_socket_type() -> (t: SocketType) {
        SocketType::Radio
    }
}

/// A radio socket `ZMQ_RADIO`: distributes what it sends to the dish sockets of its group.
pub type RadioSocket = Socket<Radio>;

impl Socket<Radio> {
    /// Reads whether multicast loopback is on `ZMQ_MULTICAST_LOOP`.
    pub fn multicast_loop(&self) -> (r: OptionRead)
        ensures
            r == (OptionRead { option: SocketOption::MulticastLoop, kind: ValueKind::Int }),
    {
        self.get_sockopt_bool(SocketOption::MulticastLoop)
    }
    /// Turns multicast loopback on or off `ZMQ_MULTICAST_LOOP`.
    pub fn set_multicast_loop(&self, value: bool) -> (w: OptionWrite)
        ensures
            w == (OptionWrite { option: SocketOption::MulticastLoop, value: OptionValue::Int(flag_int(value)) }),
    {
        self.set_sockopt_bool(SocketOption::MulticastLoop, value)
    }
}

/// Builder for [`RadioSocket`]: each option that is given is written when the builder
/// is applied, in the order of the fields, the socket configuration first.
#[derive(Debug, Clone, Default, PartialEq, Eq, Hash)]
pub struct RadioBuilder {
    pub socket_config: SocketConfig,
    pub multicast_loop: Option<bool>,
}

/// The writes of a [`RadioBuilder`], in order.
pub open spec fn radio_builder_writes(b: RadioBuilder) -> Seq<(SocketOption, OptionData)> {
    socket_config_writes(b.socket_config)
        + optional_flag_writes(SocketOption::MulticastLoop, b.multicast_loop)
}

proof fn lemma_radio_builder_writes_multicast_loop(b: RadioBuilder)
    ensures
        written_values(radio_builder_writes(b), SocketOption::MulticastLoop) == flag_values(b.multicast_loop),
{
    lemma_socket_config_other_options(b.socket_config, SocketOption::MulticastLoop);
    lemma_written_values_add(socket_config_writes(b.socket_config), optional_flag_writes(SocketOption::MulticastLoop, b.multicast_loop), SocketOption::MulticastLoop);
    lemma_optional_flag_values(SocketOption::MulticastLoop, b.multicast_loop, SocketOption::MulticastLoop);
    assert(written_values(radio_builder_writes(b), SocketOption::MulticastLoop) =~= flag_values(b.multicast_loop));
}

/// Applying a [`RadioBuilder`] writes its socket configuration first; then each of its options is
/// written to its own socket option, with the given value, where it is given, and not at
/// all where it is not.
pub proof fn lemma_radio_builder_writes_each_option(b: RadioBuilder)
    ensures
        radio_builder_writes(b).take(socket_config_writes(b.socket_config).len() as int) == socket_config_writes(b.socket_config),
        written_values(radio_builder_writes(b), SocketOption::MulticastLoop) == flag_values(b.multicast_loop),
{
    lemma_radio_builder_writes_multicast_loop(b);
    assert(radio_builder_writes(b).take(socket_config_writes(b.socket_config).len() as int) =~= socket_config_writes(b.socket_config));
}

impl RadioBuilder {
    /// A builder that sets nothing.
    pub fn new() -> (b: RadioBuilder)
        ensures
            b == (RadioBuilder { socket_config: unset_socket_config(), multicast_loop: None }),
    {
        RadioBuilder { socket_config: SocketConfig::new(), multicast_loop: None }
    }

    /// Sets the configuration common to all sockets, see [`SocketConfig`].
    pub fn socket_config(self, value: SocketConfig) -> (b: RadioBuilder)
        ensures
            b == (RadioBuilder { socket_config: value, ..self }),
    {
        RadioBuilder { socket_config: value, ..self }
    }

    /// Sets the `multicast_loop` option, see [`Socket::set_multicast_loop`].
    pub fn multicast_loop(self, value: bool) -> (b: RadioBuilder)
        ensures
            b == (RadioBuilder { multicast_loop: Some(value), ..self }),
    {
        RadioBuilder { multicast_loop: Some(value), ..self }
    }

    /// The writes that apply this builder to `socket`, the socket configuration's first; they
    /// are made in order, stopping at the first that fails (see [`crate::outcome::next_call`]).
    pub fn apply(&self, socket: &RadioSocket) -> (writes: Vec<OptionWrite>)
        ensures
            writes_view(writes@) == radio_builder_writes(*self),
    {
        let mut writes: Vec<OptionWrite> = self.socket_config.apply(socket);
        if let Some(multicast_loop) = self.multicast_loop {
            writes.push(socket.set_multicast_loop(multicast_loop));
        }
        assert(writes_view(writes@) =~= radio_builder_writes(*self));
        writes
    }

    /// A new socket on `context`, with the writes that apply this builder to it.
    pub fn build_from_context(&self, context: &Context) -> (r: (RadioSocket, Vec<OptionWrite>))
        ensures
            r.0.kind() == <Radio as sealed::SocketType>::spec_socket_type(),
            writes_view(r.1@) == radio_builder_writes(*self),
    {
        let socket = RadioSocket::from_context(context);
        let writes = self.apply(&socket);
        (socket, writes)
    }
}

} // verus!

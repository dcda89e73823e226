use vstd::prelude::*;
use vstd::string::StringSliceAdditionalSpecFns;

use crate::option::{flag_int, holds_bytes, OptionData, OptionValue, ValueKind};
use vstd::utf8::encode_utf8;
use crate::sealed;
use crate::builder::{written_values, lemma_written_values_add, lemma_written_values_one, lemma_socket_config_other_options, socket_config_writes, SocketConfig};
use crate::socket::{writes_view, OptionRead, OptionWrite, Socket, SocketOption, SocketType};

verus! {

/// A dealer socket `ZMQ_DEALER`: round-robins what it sends among its peers and fair-queues what it receives.
pub struct Dealer {}

impl sealed::SenderFlag for Dealer {}

impl sealed::ReceiverFlag for Dealer {}

impl sealed::SocketType for Dealer {
    open spec fn spec_socket_type() -> SocketType {
        SocketType::Dealer
    }

    fn raw_socket_type() -> (t: SocketType) {
        SocketType::Dealer
    }
}

/// A dealer socket `ZMQ_DEALER`: round-robins what it sends among its peers and fair-queues what it receives.
pub type DealerSocket = Socket<Dealer>;

impl Socket<Dealer> {
    /// Keeps only the last message `ZMQ_CONFLATE`.
    pub fn set_conflate(&self, value: bool) -> (w: OptionWrite)
        ensures
            w == (OptionWrite { option: SocketOption::Conflate, value: OptionValue::Int(flag_int(value)) }),
    {
        self.set_sockopt_bool(SocketOption::Conflate, value)
    }
    /// Sets the routing id of the socket `ZMQ_ROUTING_ID`.
    pub fn set_routing_id(&self, value: &str) -> (w: OptionWrite)
        ensures
            w.option == SocketOption::RoutingId,
            holds_bytes(w.value, value.spec_bytes()),
    {
        self.set_sockopt_string(SocketOption::RoutingId, value)
    }
    /// Reads the routing id of the socket `ZMQ_ROUTING_ID`.
    pub fn routing_id(&self) -> (r: OptionRead)
        ensures
            r == (OptionRead { option: SocketOption::RoutingId, kind: ValueKind::Bytes }),
    {
        self.get_sockopt_string(SocketOption::RoutingId)
    }
    /// Sends an empty message on each new connection `ZMQ_PROBE_ROUTER`.
    pub fn set_probe_router(&self, value: bool) -> (w: OptionWrite)
        ensures
            w == (OptionWrite { option: SocketOption::ProbeRouter, value: OptionValue::Int(flag_int(value)) }),
    {
        self.set_sockopt_bool(SocketOption::ProbeRouter, value)
    }
    /// Sets the message generated when a connected peer temporarily disconnects `ZMQ_HICCUP_MSG`.
    pub fn set_hiccup_message(&self, value: &str) -> (w: OptionWrite)
        ensures
            w.option == SocketOption::HiccupMessage,
            holds_bytes(w.value, value.spec_bytes()),
    {
        self.set_sockopt_string(SocketOption::HiccupMessage, value)
    }
    /// Sets the message sent to each new peer `ZMQ_HELLO_MSG`.
    pub fn set_hello_message(&self, value: &str) -> (w: OptionWrite)
        ensures
            w.option == SocketOption::HelloMessage,
            holds_bytes(w.value, value.spec_bytes()),
    {
        self.set_sockopt_string(SocketOption::HelloMessage, value)
    }
}

/// The settings of a dealer socket, applied all at once, the socket configuration first.
#[derive(Debug, Clone, Default, PartialEq, Eq, Hash)]
pub struct DealerConfig {
    pub socket_config: SocketConfig,
    pub conflate: bool,
    pub hiccup_msg: String,
    pub hello_message: String,
    pub routing_id: String,
}

/// The writes of a [`DealerConfig`], in order: the socket configuration, conflation, the
/// hiccup message, the hello message and the routing id.
pub open spec fn dealer_config_writes(c: DealerConfig) -> Seq<(SocketOption, OptionData)> {
    socket_config_writes(c.socket_config) + seq![
        (SocketOption::Conflate, OptionData::Int(flag_int(c.conflate))),
        (SocketOption::HiccupMessage, OptionData::Bytes(encode_utf8(c.hiccup_msg@))),
        (SocketOption::HelloMessage, OptionData::Bytes(encode_utf8(c.hello_message@))),
        (SocketOption::RoutingId, OptionData::Bytes(encode_utf8(c.routing_id@))),
    ]
}

proof fn lemma_dealer_config_writes_conflate(c: DealerConfig)
    ensures
        written_values(dealer_config_writes(c), SocketOption::Conflate) == seq![OptionData::Int(flag_int(c.conflate))],
{
    let sc = socket_config_writes(c.socket_config);
    let e0 = (SocketOption::Conflate, OptionData::Int(flag_int(c.conflate)));
    let e1 = (SocketOption::HiccupMessage, OptionData::Bytes(encode_utf8(c.hiccup_msg@)));
    let e2 = (SocketOption::HelloMessage, OptionData::Bytes(encode_utf8(c.hello_message@)));
    let e3 = (SocketOption::RoutingId, OptionData::Bytes(encode_utf8(c.routing_id@)));
    assert(dealer_config_writes(c) =~= sc + seq![e0] + seq![e1] + seq![e2] + seq![e3]);
    lemma_socket_config_other_options(c.socket_config, SocketOption::Conflate);
    lemma_written_values_add(sc, seq![e0], SocketOption::Conflate);
    lemma_written_values_add(sc + seq![e0], seq![e1], SocketOption::Conflate);
    lemma_written_values_add(sc + seq![e0] + seq![e1], seq![e2], SocketOption::Conflate);
    lemma_written_values_add(sc + seq![e0] + seq![e1] + seq![e2], seq![e3], SocketOption::Conflate);
    lemma_written_values_one(e0, SocketOption::Conflate);
    lemma_written_values_one(e1, SocketOption::Conflate);
    lemma_written_values_one(e2, SocketOption::Conflate);
    lemma_written_values_one(e3, SocketOption::Conflate);
    assert(written_values(dealer_config_writes(c), SocketOption::Conflate) =~= seq![OptionData::Int(flag_int(c.conflate))]);
}

proof fn lemma_dealer_config_writes_hiccup_msg(c: DealerConfig)
    ensures
        written_values(dealer_config_writes(c), SocketOption::HiccupMessage) == seq![OptionData::Bytes(encode_utf8(c.hiccup_msg@))],
{
    let sc = socket_config_writes(c.socket_config);
    let e0 = (SocketOption::Conflate, OptionData::Int(flag_int(c.conflate)));
    let e1 = (SocketOption::HiccupMessage, OptionData::Bytes(encode_utf8(c.hiccup_msg@)));
    let e2 = (SocketOption::HelloMessage, OptionData::Bytes(encode_utf8(c.hello_message@)));
    let e3 = (SocketOption::RoutingId, OptionData::Bytes(encode_utf8(c.routing_id@)));
    assert(dealer_config_writes(c) =~= sc + seq![e0] + seq![e1] + seq![e2] + seq![e3]);
    lemma_socket_config_other_options(c.socket_config, SocketOption::HiccupMessage);
    lemma_written_values_add(sc, seq![e0], SocketOption::HiccupMessage);
    lemma_written_values_add(sc + seq![e0], seq![e1], SocketOption::HiccupMessage);
    lemma_written_values_add(sc + seq![e0] + seq![e1], seq![e2], SocketOption::HiccupMessage);
    lemma_written_values_add(sc + seq![e0] + seq![e1] + seq![e2], seq![e3], SocketOption::HiccupMessage);
    lemma_written_values_one(e0, SocketOption::HiccupMessage);
    lemma_written_values_one(e1, SocketOption::HiccupMessage);
    lemma_written_values_one(e2, SocketOption::HiccupMessage);
    lemma_written_values_one(e3, SocketOption::HiccupMessage);
    assert(written_values(dealer_config_writes(c), SocketOption::HiccupMessage) =~= seq![OptionData::Bytes(encode_utf8(c.hiccup_msg@))]);
}

proof fn lemma_dealer_config_writes_hello_message(c: DealerConfig)
    ensures
        written_values(dealer_config_writes(c), SocketOption::HelloMessage) == seq![OptionData::Bytes(encode_utf8(c.hello_message@))],
{
    let sc = socket_config_writes(c.socket_config);
    let e0 = (SocketOption::Conflate, OptionData::Int(flag_int(c.conflate)));
    let e1 = (SocketOption::HiccupMessage, OptionData::Bytes(encode_utf8(c.hiccup_msg@)));
    let e2 = (SocketOption::HelloMessage, OptionData::Bytes(encode_utf8(c.hello_message@)));
    let e3 = (SocketOption::RoutingId, OptionData::Bytes(encode_utf8(c.routing_id@)));
    assert(dealer_config_writes(c) =~= sc + seq![e0] + seq![e1] + seq![e2] + seq![e3]);
    lemma_socket_config_other_options(c.socket_config, SocketOption::HelloMessage);
    lemma_written_values_add(sc, seq![e0], SocketOption::HelloMessage);
    lemma_written_values_add(sc + seq![e0], seq![e1], SocketOption::HelloMessage);
    lemma_written_values_add(sc + seq![e0] + seq![e1], seq![e2], SocketOption::HelloMessage);
    lemma_written_values_add(sc + seq![e0] + seq![e1] + seq![e2], seq![e3], SocketOption::HelloMessage);
    lemma_written_values_one(e0, SocketOption::HelloMessage);
    lemma_written_values_one(e1, SocketOption::HelloMessage);
    lemma_written_values_one(e2, SocketOption::HelloMessage);
    lemma_written_values_one(e3, SocketOption::HelloMessage);
    assert(written_values(dealer_config_writes(c), SocketOption::HelloMessage) =~= seq![OptionData::Bytes(encode_utf8(c.hello_message@))]);
}

proof fn lemma_dealer_config_writes_routing_id(c: DealerConfig)
    ensures
        written_values(dealer_config_writes(c), SocketOption::RoutingId) == seq![OptionData::Bytes(encode_utf8(c.routing_id@))],
{
    let sc = socket_config_writes(c.socket_config);
    let e0 = (SocketOption::Conflate, OptionData::Int(flag_int(c.conflate)));
    let e1 = (SocketOption::HiccupMessage, OptionData::Bytes(encode_utf8(c.hiccup_msg@)));
    let e2 = (SocketOption::HelloMessage, OptionData::Bytes(encode_utf8(c.hello_message@)));
    let e3 = (SocketOption::RoutingId, OptionData::Bytes(encode_utf8(c.routing_id@)));
    assert(dealer_config_writes(c) =~= sc + seq![e0] + seq![e1] + seq![e2] + seq![e3]);
    lemma_socket_config_other_options(c.socket_config, SocketOption::RoutingId);
    lemma_written_values_add(sc, seq![e0], SocketOption::RoutingId);
    lemma_written_values_add(sc + seq![e0], seq![e1], SocketOption::RoutingId);
    lemma_written_values_add(sc + seq![e0] + seq![e1], seq![e2], SocketOption::RoutingId);
    lemma_written_values_add(sc + seq![e0] + seq![e1] + seq![e2], seq![e3], SocketOption::RoutingId);
    lemma_written_values_one(e0, SocketOption::RoutingId);
    lemma_written_values_one(e1, SocketOption::RoutingId);
    lemma_written_values_one(e2, SocketOption::RoutingId);
    lemma_written_values_one(e3, SocketOption::RoutingId);
    assert(written_values(dealer_config_writes(c), SocketOption::RoutingId) =~= seq![OptionData::Bytes(encode_utf8(c.routing_id@))]);
}

/// Applying a [`DealerConfig`] writes its socket configuration first; then conflation, the
/// hiccup message, the hello message and the routing id are each written once, to their own
/// socket options, with the configuration's values.
pub proof fn lemma_dealer_config_writes_each_option(c: DealerConfig)
    ensures
        dealer_config_writes(c).take(socket_config_writes(c.socket_config).len() as int) == socket_config_writes(c.socket_config),
        written_values(dealer_config_writes(c), SocketOption::Conflate) == seq![OptionData::Int(flag_int(c.conflate))],
        written_values(dealer_config_writes(c), SocketOption::HiccupMessage) == seq![OptionData::Bytes(encode_utf8(c.hiccup_msg@))],
        written_values(dealer_config_writes(c), SocketOption::HelloMessage) == seq![OptionData::Bytes(encode_utf8(c.hello_message@))],
        written_values(dealer_config_writes(c), SocketOption::RoutingId) == seq![OptionData::Bytes(encode_utf8(c.routing_id@))],
{
    lemma_dealer_config_writes_conflate(c);
    lemma_dealer_config_writes_hiccup_msg(c);
    lemma_dealer_config_writes_hello_message(c);
    lemma_dealer_config_writes_routing_id(c);
    assert(dealer_config_writes(c).take(socket_config_writes(c.socket_config).len() as int) =~= socket_config_writes(c.socket_config));
}

impl DealerConfig {
    /// The writes that apply this configuration to `socket`; they are made in order,
    /// stopping at the first that fails (see [`crate::outcome::next_call`]).
    pub fn apply(&self, socket: &DealerSocket) -> (writes: Vec<OptionWrite>)
        ensures
            writes_view(writes@) == dealer_config_writes(*self),
    {
        let mut writes: Vec<OptionWrite> = self.socket_config.apply(socket);
        writes.push(socket.set_conflate(self.conflate));
        writes.push(socket.set_hiccup_message(self.hiccup_msg.as_str()));
        writes.push(socket.set_hello_message(self.hello_message.as_str()));
        writes.push(socket.set_routing_id(self.routing_id.as_str()));
        assert(writes_view(writes@) =~= dealer_config_writes(*self));
        writes
    }
}

} // verus!

use vstd::prelude::*;
use vstd::string::StringSliceAdditionalSpecFns;

use crate::option::{flag_int, holds_bytes, OptionValue, ValueKind};
use crate::context::Context;
use crate::option::OptionData;
use crate::sealed;
use crate::builder::{written_values, lemma_written_values_add, lemma_socket_config_other_options, flag_values, lemma_optional_flag_values, socket_config_writes, unset_socket_config, SocketConfig};
use crate::socket::{optional_flag_writes, optional_text_writes, writes_view};
use crate::socket::{OptionRead, OptionWrite, Socket, SocketOption, SocketType};

verus! {

/// A publish socket `ZMQ_PUB`: distributes what it sends to all its subscribers.
pub struct Publish {}

impl sealed::SenderFlag for Publish {}

impl sealed::SocketType for Publish {
    open spec fn spec_socket_type() -> SocketType {
        SocketType::Publish
    }

    fn raw_socket_type() -> (t: SocketType) {
        SocketType::Publish
    }
}

/// A publish socket `ZMQ_PUB`: distributes what it sends to all its subscribers.
pub type PublishSocket = Socket<Publish>;

impl Socket<Publish> {
    /// Keeps only the last message `ZMQ_CONFLATE`.
    pub fn set_conflate(&self, value: bool) -> (w: OptionWrite)
        ensures
            w == (OptionWrite { option: SocketOption::Conflate, value: OptionValue::Int(flag_int(value)) }),
    {
        self.set_sockopt_bool(SocketOption::Conflate, value)
    }
    /// Inverts message filtering `ZMQ_INVERT_MATCHING`.
    pub fn set_invert_matching(&self, value: bool) -> (w: OptionWrite)
        ensures
            w == (OptionWrite { option: SocketOption::InvertMatching, value: OptionValue::Int(flag_int(value)) }),
    {
        self.set_sockopt_bool(SocketOption::InvertMatching, value)
    }
    /// Reads whether message filtering is inverted `ZMQ_INVERT_MATCHING`.
    pub fn invert_matching(&self) -> (r: OptionRead)
        ensures
            r == (OptionRead { option: SocketOption::InvertMatching, kind: ValueKind::Int }),
    {
        self.get_sockopt_bool(SocketOption::InvertMatching)
    }
    /// Fails in place of dropping messages at the high water mark `ZMQ_XPUB_NODROP`.
    pub fn set_nodrop(&self, value: bool) -> (w: OptionWrite)
        ensures
            w == (OptionWrite { option: SocketOption::XpubNoDrop, value: OptionValue::Int(flag_int(value)) }),
    {
        self.set_sockopt_bool(SocketOption::XpubNoDrop, value)
    }
    /// Reads the number of topic subscriptions `ZMQ_TOPICS_COUNT`.
    pub fn topic_count(&self) -> (r: OptionRead)
        ensures
            r == (OptionRead { option: SocketOption::TopicsCount, kind: ValueKind::Int }),
    {
        self.get_sockopt_int(SocketOption::TopicsCount)
    }
}

/// Builder for [`PublishSocket`]: each option that is given is written when the builder
/// is applied, in the order of the fields, the socket configuration first.
#[derive(Debug, Clone, Default, PartialEq, Eq, Hash)]
pub struct PublishBuilder {
    pub socket_config: SocketConfig,
    pub conflate: Option<bool>,
    pub invert_matching: Option<bool>,
    pub nodrop: Option<bool>,
}

/// The writes of a [`PublishBuilder`], in order.
pub open spec fn publish_builder_writes(b: PublishBuilder) -> Seq<(SocketOption, OptionData)> {
    socket_config_writes(b.socket_config)
        + optional_flag_writes(SocketOption::Conflate, b.conflate)
        + optional_flag_writes(SocketOption::InvertMatching, b.invert_matching)
        + optional_flag_writes(SocketOption::XpubNoDrop, b.nodrop)
}

proof fn lemma_publish_builder_writes_conflate(b: PublishBuilder)
    ensures
        written_values(publish_builder_writes(b), SocketOption::Conflate) == flag_values(b.conflate),
{
    lemma_socket_config_other_options(b.socket_config, SocketOption::Conflate);
    lemma_written_values_add(socket_config_writes(b.socket_config), optional_flag_writes(SocketOption::Conflate, b.conflate), SocketOption::Conflate);
    lemma_written_values_add(socket_config_writes(b.socket_config) + optional_flag_writes(SocketOption::Conflate, b.conflate), optional_flag_writes(SocketOption::InvertMatching, b.invert_matching), SocketOption::Conflate);
    lemma_written_values_add(socket_config_writes(b.socket_config) + optional_flag_writes(SocketOption::Conflate, b.conflate) + optional_flag_writes(SocketOption::InvertMatching, b.invert_matching), optional_flag_writes(SocketOption::XpubNoDrop, b.nodrop), SocketOption::Conflate);
    lemma_optional_flag_values(SocketOption::Conflate, b.conflate, SocketOption::Conflate);
    lemma_optional_flag_values(SocketOption::InvertMatching, b.invert_matching, SocketOption::Conflate);
    lemma_optional_flag_values(SocketOption::XpubNoDrop, b.nodrop, SocketOption::Conflate);
    assert(written_values(publish_builder_writes(b), SocketOption::Conflate) =~= flag_values(b.conflate));
}

proof fn lemma_publish_builder_writes_invert_matching(b: PublishBuilder)
    ensures
        written_values(publish_builder_writes(b), SocketOption::InvertMatching) == flag_values(b.invert_matching),
{
    lemma_socket_config_other_options(b.socket_config, SocketOption::InvertMatching);
    lemma_written_values_add(socket_config_writes(b.socket_config), optional_flag_writes(SocketOption::Conflate, b.conflate), SocketOption::InvertMatching);
    lemma_written_values_add(socket_config_writes(b.socket_config) + optional_flag_writes(SocketOption::Conflate, b.conflate), optional_flag_writes(SocketOption::InvertMatching, b.invert_matching), SocketOption::InvertMatching);
    lemma_written_values_add(socket_config_writes(b.socket_config) + optional_flag_writes(SocketOption::Conflate, b.conflate) + optional_flag_writes(SocketOption::InvertMatching, b.invert_matching), optional_flag_writes(SocketOption::XpubNoDrop, b.nodrop), SocketOption::InvertMatching);
    lemma_optional_flag_values(SocketOption::Conflate, b.conflate, SocketOption::InvertMatching);
    lemma_optional_flag_values(SocketOption::InvertMatching, b.invert_matching, SocketOption::InvertMatching);
    lemma_optional_flag_values(SocketOption::XpubNoDrop, b.nodrop, SocketOption::InvertMatching);
    assert(written_values(publish_builder_writes(b), SocketOption::InvertMatching) =~= flag_values(b.invert_matching));
}

proof fn lemma_publish_builder_writes_nodrop(b: PublishBuilder)
    ensures
        written_values(publish_builder_writes(b), SocketOption::XpubNoDrop) == flag_values(b.nodrop),
{
    lemma_socket_config_other_options(b.socket_config, SocketOption::XpubNoDrop);
    lemma_written_values_add(socket_config_writes(b.socket_config), optional_flag_writes(SocketOption::Conflate, b.conflate), SocketOption::XpubNoDrop);
    lemma_written_values_add(socket_config_writes(b.socket_config) + optional_flag_writes(SocketOption::Conflate, b.conflate), optional_flag_writes(SocketOption::InvertMatching, b.invert_matching), SocketOption::XpubNoDrop);
    lemma_written_values_add(socket_config_writes(b.socket_config) + optional_flag_writes(SocketOption::Conflate, b.conflate) + optional_flag_writes(SocketOption::InvertMatching, b.invert_matching), optional_flag_writes(SocketOption::XpubNoDrop, b.nodrop), SocketOption::XpubNoDrop);
    lemma_optional_flag_values(SocketOption::Conflate, b.conflate, SocketOption::XpubNoDrop);
    lemma_optional_flag_values(SocketOption::InvertMatching, b.invert_matching, SocketOption::XpubNoDrop);
    lemma_optional_flag_values(SocketOption::XpubNoDrop, b.nodrop, SocketOption::XpubNoDrop);
    assert(written_values(publish_builder_writes(b), SocketOption::XpubNoDrop) =~= flag_values(b.nodrop));
}

/// Applying a [`PublishBuilder`] writes its socket configuration first; then each of its options is
/// written to its own socket option, with the given value, where it is given, and not at
/// all where it is not.
pub proof fn lemma_publish_builder_writes_each_option(b: PublishBuilder)
    ensures
        publish_builder_writes(b).take(socket_config_writes(b.socket_config).len() as int) == socket_config_writes(b.socket_config),
        written_values(publish_builder_writes(b), SocketOption::Conflate) == flag_values(b.conflate),
        written_values(publish_builder_writes(b), SocketOption::InvertMatching) == flag_values(b.invert_matching),
        written_values(publish_builder_writes(b), SocketOption::XpubNoDrop) == flag_values(b.nodrop),
{
    lemma_publish_builder_writes_conflate(b);
    lemma_publish_builder_writes_invert_matching(b);
    lemma_publish_builder_writes_nodrop(b);
    assert(publish_builder_writes(b).take(socket_config_writes(b.socket_config).len() as int) =~= socket_config_writes(b.socket_config));
}

impl PublishBuilder {
    /// A builder that sets nothing.
    pub fn new() -> (b: PublishBuilder)
        ensures
            b == (PublishBuilder { socket_config: unset_socket_config(), conflate: None, invert_matching: None, nodrop: None }),
    {
        PublishBuilder { socket_config: SocketConfig::new(), conflate: None, invert_matching: None, nodrop: None }
    }

    /// Sets the configuration common to all sockets, see [`SocketConfig`].
    pub fn socket_config(self, value: SocketConfig) -> (b: PublishBuilder)
        ensures
            b == (PublishBuilder { socket_config: value, ..self }),
    {
        PublishBuilder { socket_config: value, ..self }
    }

    /// Sets the `conflate` option, see [`Socket::set_conflate`].
    pub fn conflate(self, value: bool) -> (b: PublishBuilder)
        ensures
            b == (PublishBuilder { conflate: Some(value), ..self }),
    {
        PublishBuilder { conflate: Some(value), ..self }
    }

    /// Sets the `invert_matching` option, see [`Socket::set_invert_matching`].
    pub fn invert_matching(self, value: bool) -> (b: PublishBuilder)
        ensures
            b == (PublishBuilder { invert_matching: Some(value), ..self }),
    {
        PublishBuilder { invert_matching: Some(value), ..self }
    }

    /// Sets the `nodrop` option, see [`Socket::set_nodrop`].
    pub fn nodrop(self, value: bool) -> (b: PublishBuilder)
        ensures
            b == (PublishBuilder { nodrop: Some(value), ..self }),
    {
        PublishBuilder { nodrop: Some(value), ..self }
    }

    /// The writes that apply this builder to `socket`, the socket configuration's first; they
    /// are made in order, stopping at the first that fails (see [`crate::outcome::next_call`]).
    pub fn apply(&self, socket: &PublishSocket) -> (writes: Vec<OptionWrite>)
        ensures
            writes_view(writes@) == publish_builder_writes(*self),
    {
        let mut writes: Vec<OptionWrite> = self.socket_config.apply(socket);
        if let Some(conflate) = self.conflate {
            writes.push(socket.set_conflate(conflate));
        }
        if let Some(invert_matching) = self.invert_matching {
            writes.push(socket.set_invert_matching(invert_matching));
        }
        if let Some(nodrop) = self.nodrop {
            writes.push(socket.set_nodrop(nodrop));
        }
        assert(writes_view(writes@) =~= publish_builder_writes(*self));
        writes
    }

    /// A new socket on `context`, with the writes that apply this builder to it.
    pub fn build_from_context(&self, context: &Context) -> (r: (PublishSocket, Vec<OptionWrite>))
        ensures
            r.0.kind() == <Publish as sealed::SocketType>::spec_socket_type(),
            writes_view(r.1@) == publish_builder_writes(*self),
    {
        let socket = PublishSocket::from_context(context);
        let writes = self.apply(&socket);
        (socket, writes)
    }
}

} // verus!

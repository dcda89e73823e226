use vstd::prelude::*;
use vstd::string::StringSliceAdditionalSpecFns;

use crate::option::{flag_int, holds_bytes, OptionValue, ValueKind};
use crate::context::Context;
use crate::option::OptionData;
use crate::sealed;
use crate::builder::{written_values, lemma_written_values_add, lemma_socket_config_other_options, text_values, lemma_optional_text_values, flag_values, lemma_optional_flag_values, socket_config_writes, unset_socket_config, SocketConfig};
use crate::socket::{optional_flag_writes, optional_text_writes, optional_write_view, push_write, writes_view};
use crate::socket::{OptionRead, OptionWrite, Socket, SocketOption, SocketType};

verus! {

/// An extended publish socket `ZMQ_XPUB`: a publish socket that also receives subscriptions.
pub struct XPublish {}

impl sealed::SenderFlag for XPublish {}

impl sealed::ReceiverFlag for XPublish {}

impl sealed::SocketType for XPublish {
    open spec fn spec_socket_type() -> SocketType {
        SocketType::XPublish
    }

    fn raw_socket_type() -> (t: SocketType) {
        SocketType::XPublish
    }
}

/// An extended publish socket `ZMQ_XPUB`: a publish socket that also receives subscriptions.
pub type XPublishSocket = Socket<XPublish>;

impl Socket<XPublish> {
    /// Establishes a message filter `ZMQ_SUBSCRIBE`.
    pub fn subscribe(&self, topic: &[u8]) -> (w: OptionWrite)
        ensures
            w.option == SocketOption::Subscribe,
            holds_bytes(w.value, topic@),
    {
        self.set_sockopt_bytes(SocketOption::Subscribe, topic)
    }
    /// Inverts message filtering `ZMQ_INVERT_MATCHING`.
    pub fn set_invert_matching(&self, value: bool) -> (w: OptionWrite)
        ensures
            w == (OptionWrite { option: SocketOption::InvertMatching, value: OptionValue::Int(flag_int(value)) }),
    {
        self.set_sockopt_bool(SocketOption::InvertMatching, value)
    }
    /// Reads whether message filtering is inverted `ZMQ_INVERT_MATCHING`.
    pub fn invert_matching(&self) -> (r: OptionRead)
        ensures
            r == (OptionRead { option: SocketOption::InvertMatching, kind: ValueKind::Int }),
    {
        self.get_sockopt_bool(SocketOption::InvertMatching)
    }
    /// Fails in place of dropping messages at the high water mark `ZMQ_XPUB_NODROP`.
    pub fn set_nodrop(&self, value: bool) -> (w: OptionWrite)
        ensures
            w == (OptionWrite { option: SocketOption::XpubNoDrop, value: OptionValue::Int(flag_int(value)) }),
    {
        self.set_sockopt_bool(SocketOption::XpubNoDrop, value)
    }
    /// Passes on duplicate subscriptions `ZMQ_XPUB_VERBOSE`.
    pub fn set_verbose(&self, value: bool) -> (w: OptionWrite)
        ensures
            w == (OptionWrite { option: SocketOption::XpubVerbose, value: OptionValue::Int(flag_int(value)) }),
    {
        self.set_sockopt_bool(SocketOption::XpubVerbose, value)
    }
    /// Passes on duplicate subscriptions and unsubscriptions `ZMQ_XPUB_VERBOSER`.
    pub fn set_verboser(&self, value: bool) -> (w: OptionWrite)
        ensures
            w == (OptionWrite { option: SocketOption::XpubVerboser, value: OptionValue::Int(flag_int(value)) }),
    {
        self.set_sockopt_bool(SocketOption::XpubVerboser, value)
    }
    /// Manages subscriptions by hand `ZMQ_XPUB_MANUAL`.
    pub fn set_manual(&self, value: bool) -> (w: OptionWrite)
        ensures
            w == (OptionWrite { option: SocketOption::XpubManual, value: OptionValue::Int(flag_int(value)) }),
    {
        self.set_sockopt_bool(SocketOption::XpubManual, value)
    }
    /// Manages subscriptions by hand, sending the last value `ZMQ_XPUB_MANUAL_LAST_VALUE`.
    pub fn set_manual_last_value(&self, value: bool) -> (w: OptionWrite)
        ensures
            w == (OptionWrite { option: SocketOption::XpubManualLastValue, value: OptionValue::Int(flag_int(value)) }),
    {
        self.set_sockopt_bool(SocketOption::XpubManualLastValue, value)
    }
    /// Sets the message sent to each new subscriber `ZMQ_XPUB_WELCOME_MSG`.
    pub fn set_welcome_msg(&self, value: &str) -> (w: OptionWrite)
        ensures
            w.option == SocketOption::XpubWelcomeMessage,
            holds_bytes(w.value, value.spec_bytes()),
    {
        self.set_sockopt_string(SocketOption::XpubWelcomeMessage, value)
    }
    /// Processes only the first part of subscription messages `ZMQ_ONLY_FIRST_SUBSCRIBE`.
    pub fn set_only_first_subscribe(&self, value: bool) -> (w: OptionWrite)
        ensures
            w == (OptionWrite { option: SocketOption::OnlyFirstSubscribe, value: OptionValue::Int(flag_int(value)) }),
    {
        self.set_sockopt_bool(SocketOption::OnlyFirstSubscribe, value)
    }
    /// Reads the number of topic subscriptions `ZMQ_TOPICS_COUNT`.
    pub fn topic_count(&self) -> (r: OptionRead)
        ensures
            r == (OptionRead { option: SocketOption::TopicsCount, kind: ValueKind::Int }),
    {
        self.get_sockopt_int(SocketOption::TopicsCount)
    }
}

/// Builder for [`XPublishSocket`]: each option that is given is written when the builder
/// is applied, in the order of the fields, the socket configuration first.
#[derive(Debug, Clone, Default, PartialEq, Eq, Hash)]
pub struct XPublishBuilder {
    pub socket_config: SocketConfig,
    pub invert_matching: Option<bool>,
    pub nodrop: Option<bool>,
    pub verbose: Option<bool>,
    pub verboser: Option<bool>,
    pub manual: Option<bool>,
    pub manual_last_value: Option<bool>,
    pub welcome_msg: Option<String>,
    pub only_first_subscribe: Option<bool>,
}

/// The writes of a [`XPublishBuilder`], in order.
pub open spec fn xpublish_builder_writes(b: XPublishBuilder) -> Seq<(SocketOption, OptionData)> {
    socket_config_writes(b.socket_config)
        + optional_flag_writes(SocketOption::InvertMatching, b.invert_matching)
        + optional_flag_writes(SocketOption::XpubNoDrop, b.nodrop)
        + optional_flag_writes(SocketOption::XpubVerbose, b.verbose)
        + optional_flag_writes(SocketOption::XpubVerboser, b.verboser)
        + optional_flag_writes(SocketOption::XpubManual, b.manual)
        + optional_flag_writes(SocketOption::XpubManualLastValue, b.manual_last_value)
        + optional_text_writes(SocketOption::XpubWelcomeMessage, b.welcome_msg)
        + optional_flag_writes(SocketOption::OnlyFirstSubscribe, b.only_first_subscribe)
}

proof fn lemma_xpublish_builder_writes_invert_matching(b: XPublishBuilder)
    ensures
        written_values(xpublish_builder_writes(b), SocketOption::InvertMatching) == flag_values(b.invert_matching),
{
    lemma_socket_config_other_options(b.socket_config, SocketOption::InvertMatching);
    lemma_written_values_add(socket_config_writes(b.socket_config), optional_flag_writes(SocketOption::InvertMatching, b.invert_matching), SocketOption::InvertMatching);
    lemma_written_values_add(socket_config_writes(b.socket_config) + optional_flag_writes(SocketOption::InvertMatching, b.invert_matching), optional_flag_writes(SocketOption::XpubNoDrop, b.nodrop), SocketOption::InvertMatching);
    lemma_written_values_add(socket_config_writes(b.socket_config) + optional_flag_writes(SocketOption::InvertMatching, b.invert_matching) + optional_flag_writes(SocketOption::XpubNoDrop, b.nodrop), optional_flag_writes(SocketOption::XpubVerbose, b.verbose), SocketOption::InvertMatching);
    lemma_written_values_add(socket_config_writes(b.socket_config) + optional_flag_writes(SocketOption::InvertMatching, b.invert_matching) + optional_flag_writes(SocketOption::XpubNoDrop, b.nodrop) + optional_flag_writes(SocketOption::XpubVerbose, b.verbose), optional_flag_writes(SocketOption::XpubVerboser, b.verboser), SocketOption::InvertMatching);
    lemma_written_values_add(socket_config_writes(b.socket_config) + optional_flag_writes(SocketOption::InvertMatching, b.invert_matching) + optional_flag_writes(SocketOption::XpubNoDrop, b.nodrop) + optional_flag_writes(SocketOption::XpubVerbose, b.verbose) + optional_flag_writes(SocketOption::XpubVerboser, b.verboser), optional_flag_writes(SocketOption::XpubManual, b.manual), SocketOption::InvertMatching);
    lemma_written_values_add(socket_config_writes(b.socket_config) + optional_flag_writes(SocketOption::InvertMatching, b.invert_matching) + optional_flag_writes(SocketOption::XpubNoDrop, b.nodrop) + optional_flag_writes(SocketOption::XpubVerbose, b.verbose) + optional_flag_writes(SocketOption::XpubVerboser, b.verboser) + optional_flag_writes(SocketOption::XpubManual, b.manual), optional_flag_writes(SocketOption::XpubManualLastValue, b.manual_last_value), SocketOption::InvertMatching);
    lemma_written_values_add(socket_config_writes(b.socket_config) + optional_flag_writes(SocketOption::InvertMatching, b.invert_matching) + optional_flag_writes(SocketOption::XpubNoDrop, b.nodrop) + optional_flag_writes(SocketOption::XpubVerbose, b.verbose) + optional_flag_writes(SocketOption::XpubVerboser, b.verboser) + optional_flag_writes(SocketOption::XpubManual, b.manual) + optional_flag_writes(SocketOption::XpubManualLastValue, b.manual_last_value), optional_text_writes(SocketOption::XpubWelcomeMessage, b.welcome_msg), SocketOption::InvertMatching);
    lemma_written_values_add(socket_config_writes(b.socket_config) + optional_flag_writes(SocketOption::InvertMatching, b.invert_matching) + optional_flag_writes(SocketOption::XpubNoDrop, b.nodrop) + optional_flag_writes(SocketOption::XpubVerbose, b.verbose) + optional_flag_writes(SocketOption::XpubVerboser, b.verboser) + optional_flag_writes(SocketOption::XpubManual, b.manual) + optional_flag_writes(SocketOption::XpubManualLastValue, b.manual_last_value) + optional_text_writes(SocketOption::XpubWelcomeMessage, b.welcome_msg), optional_flag_writes(SocketOption::OnlyFirstSubscribe, b.only_first_subscribe), SocketOption::InvertMatching);
    lemma_optional_flag_values(SocketOption::InvertMatching, b.invert_matching, SocketOption::InvertMatching);
    lemma_optional_flag_values(SocketOption::XpubNoDrop, b.nodrop, SocketOption::InvertMatching);
    lemma_optional_flag_values(SocketOption::XpubVerbose, b.verbose, SocketOption::InvertMatching);
    lemma_optional_flag_values(SocketOption::XpubVerboser, b.verboser, SocketOption::InvertMatching);
    lemma_optional_flag_values(SocketOption::XpubManual, b.manual, SocketOption::InvertMatching);
    lemma_optional_flag_values(SocketOption::XpubManualLastValue, b.manual_last_value, SocketOption::InvertMatching);
    lemma_optional_text_values(SocketOption::XpubWelcomeMessage, b.welcome_msg, SocketOption::InvertMatching);
    lemma_optional_flag_values(SocketOption::OnlyFirstSubscribe, b.only_first_subscribe, SocketOption::InvertMatching);
    assert(written_values(xpublish_builder_writes(b), SocketOption::InvertMatching) =~= flag_values(b.invert_matching));
}

proof fn lemma_xpublish_builder_writes_nodrop(b: XPublishBuilder)
    ensures
        written_values(xpublish_builder_writes(b), SocketOption::XpubNoDrop) == flag_values(b.nodrop),
{
    lemma_socket_config_other_options(b.socket_config, SocketOption::XpubNoDrop);
    lemma_written_values_add(socket_config_writes(b.socket_config), optional_flag_writes(SocketOption::InvertMatching, b.invert_matching), SocketOption::XpubNoDrop);
    lemma_written_values_add(socket_config_writes(b.socket_config) + optional_flag_writes(SocketOption::InvertMatching, b.invert_matching), optional_flag_writes(SocketOption::XpubNoDrop, b.nodrop), SocketOption::XpubNoDrop);
    lemma_written_values_add(socket_config_writes(b.socket_config) + optional_flag_writes(SocketOption::InvertMatching, b.invert_matching) + optional_flag_writes(SocketOption::XpubNoDrop, b.nodrop), optional_flag_writes(SocketOption::XpubVerbose, b.verbose), SocketOption::XpubNoDrop);
    lemma_written_values_add(socket_config_writes(b.socket_config) + optional_flag_writes(SocketOption::InvertMatching, b.invert_matching) + optional_flag_writes(SocketOption::XpubNoDrop, b.nodrop) + optional_flag_writes(SocketOption::XpubVerbose, b.verbose), optional_flag_writes(SocketOption::XpubVerboser, b.verboser), SocketOption::XpubNoDrop);
    lemma_written_values_add(socket_config_writes(b.socket_config) + optional_flag_writes(SocketOption::InvertMatching, b.invert_matching) + optional_flag_writes(SocketOption::XpubNoDrop, b.nodrop) + optional_flag_writes(SocketOption::XpubVerbose, b.verbose) + optional_flag_writes(SocketOption::XpubVerboser, b.verboser), optional_flag_writes(SocketOption::XpubManual, b.manual), SocketOption::XpubNoDrop);
    lemma_written_values_add(socket_config_writes(b.socket_config) + optional_flag_writes(SocketOption::InvertMatching, b.invert_matching) + optional_flag_writes(SocketOption::XpubNoDrop, b.nodrop) + optional_flag_writes(SocketOption::XpubVerbose, b.verbose) + optional_flag_writes(SocketOption::XpubVerboser, b.verboser) + optional_flag_writes(SocketOption::XpubManual, b.manual), optional_flag_writes(SocketOption::XpubManualLastValue, b.manual_last_value), SocketOption::XpubNoDrop);
    lemma_written_values_add(socket_config_writes(b.socket_config) + optional_flag_writes(SocketOption::InvertMatching, b.invert_matching) + optional_flag_writes(SocketOption::XpubNoDrop, b.nodrop) + optional_flag_writes(SocketOption::XpubVerbose, b.verbose) + optional_flag_writes(SocketOption::XpubVerboser, b.verboser) + optional_flag_writes(SocketOption::XpubManual, b.manual) + optional_flag_writes(SocketOption::XpubManualLastValue, b.manual_last_value), optional_text_writes(SocketOption::XpubWelcomeMessage, b.welcome_msg), SocketOption::XpubNoDrop);
    lemma_written_values_add(socket_config_writes(b.socket_config) + optional_flag_writes(SocketOption::InvertMatching, b.invert_matching) + optional_flag_writes(SocketOption::XpubNoDrop, b.nodrop) + optional_flag_writes(SocketOption::XpubVerbose, b.verbose) + optional_flag_writes(SocketOption::XpubVerboser, b.verboser) + optional_flag_writes(SocketOption::XpubManual, b.manual) + optional_flag_writes(SocketOption::XpubManualLastValue, b.manual_last_value) + optional_text_writes(SocketOption::XpubWelcomeMessage, b.welcome_msg), optional_flag_writes(SocketOption::OnlyFirstSubscribe, b.only_first_subscribe), SocketOption::XpubNoDrop);
    lemma_optional_flag_values(SocketOption::InvertMatching, b.invert_matching, SocketOption::XpubNoDrop);
    lemma_optional_flag_values(SocketOption::XpubNoDrop, b.nodrop, SocketOption::XpubNoDrop);
    lemma_optional_flag_values(SocketOption::XpubVerbose, b.verbose, SocketOption::XpubNoDrop);
    lemma_optional_flag_values(SocketOption::XpubVerboser, b.verboser, SocketOption::XpubNoDrop);
    lemma_optional_flag_values(SocketOption::XpubManual, b.manual, SocketOption::XpubNoDrop);
    lemma_optional_flag_values(SocketOption::XpubManualLastValue, b.manual_last_value, SocketOption::XpubNoDrop);
    lemma_optional_text_values(SocketOption::XpubWelcomeMessage, b.welcome_msg, SocketOption::XpubNoDrop);
    lemma_optional_flag_values(SocketOption::OnlyFirstSubscribe, b.only_first_subscribe, SocketOption::XpubNoDrop);
    assert(written_values(xpublish_builder_writes(b), SocketOption::XpubNoDrop) =~= flag_values(b.nodrop));
}

proof fn lemma_xpublish_builder_writes_verbose(b: XPublishBuilder)
    ensures
        written_values(xpublish_builder_writes(b), SocketOption::XpubVerbose) == flag_values(b.verbose),
{
    lemma_socket_config_other_options(b.socket_config, SocketOption::XpubVerbose);
    lemma_written_values_add(socket_config_writes(b.socket_config), optional_flag_writes(SocketOption::InvertMatching, b.invert_matching), SocketOption::XpubVerbose);
    lemma_written_values_add(socket_config_writes(b.socket_config) + optional_flag_writes(SocketOption::InvertMatching, b.invert_matching), optional_flag_writes(SocketOption::XpubNoDrop, b.nodrop), SocketOption::XpubVerbose);
    lemma_written_values_add(socket_config_writes(b.socket_config) + optional_flag_writes(SocketOption::InvertMatching, b.invert_matching) + optional_flag_writes(SocketOption::XpubNoDrop, b.nodrop), optional_flag_writes(SocketOption::XpubVerbose, b.verbose), SocketOption::XpubVerbose);
    lemma_written_values_add(socket_config_writes(b.socket_config) + optional_flag_writes(SocketOption::InvertMatching, b.invert_matching) + optional_flag_writes(SocketOption::XpubNoDrop, b.nodrop) + optional_flag_writes(SocketOption::XpubVerbose, b.verbose), optional_flag_writes(SocketOption::XpubVerboser, b.verboser), SocketOption::XpubVerbose);
    lemma_written_values_add(socket_config_writes(b.socket_config) + optional_flag_writes(SocketOption::InvertMatching, b.invert_matching) + optional_flag_writes(SocketOption::XpubNoDrop, b.nodrop) + optional_flag_writes(SocketOption::XpubVerbose, b.verbose) + optional_flag_writes(SocketOption::XpubVerboser, b.verboser), optional_flag_writes(SocketOption::XpubManual, b.manual), SocketOption::XpubVerbose);
    lemma_written_values_add(socket_config_writes(b.socket_config) + optional_flag_writes(SocketOption::InvertMatching, b.invert_matching) + optional_flag_writes(SocketOption::XpubNoDrop, b.nodrop) + optional_flag_writes(SocketOption::XpubVerbose, b.verbose) + optional_flag_writes(SocketOption::XpubVerboser, b.verboser) + optional_flag_writes(SocketOption::XpubManual, b.manual), optional_flag_writes(SocketOption::XpubManualLastValue, b.manual_last_value), SocketOption::XpubVerbose);
    lemma_written_values_add(socket_config_writes(b.socket_config) + optional_flag_writes(SocketOption::InvertMatching, b.invert_matching) + optional_flag_writes(SocketOption::XpubNoDrop, b.nodrop) + optional_flag_writes(SocketOption::XpubVerbose, b.verbose) + optional_flag_writes(SocketOption::XpubVerboser, b.verboser) + optional_flag_writes(SocketOption::XpubManual, b.manual) + optional_flag_writes(SocketOption::XpubManualLastValue, b.manual_last_value), optional_text_writes(SocketOption::XpubWelcomeMessage, b.welcome_msg), SocketOption::XpubVerbose);
    lemma_written_values_add(socket_config_writes(b.socket_config) + optional_flag_writes(SocketOption::InvertMatching, b.invert_matching) + optional_flag_writes(SocketOption::XpubNoDrop, b.nodrop) + optional_flag_writes(SocketOption::XpubVerbose, b.verbose) + optional_flag_writes(SocketOption::XpubVerboser, b.verboser) + optional_flag_writes(SocketOption::XpubManual, b.manual) + optional_flag_writes(SocketOption::XpubManualLastValue, b.manual_last_value) + optional_text_writes(SocketOption::XpubWelcomeMessage, b.welcome_msg), optional_flag_writes(SocketOption::OnlyFirstSubscribe, b.only_first_subscribe), SocketOption::XpubVerbose);
    lemma_optional_flag_values(SocketOption::InvertMatching, b.invert_matching, SocketOption::XpubVerbose);
    lemma_optional_flag_values(SocketOption::XpubNoDrop, b.nodrop, SocketOption::XpubVerbose);
    lemma_optional_flag_values(SocketOption::XpubVerbose, b.verbose, SocketOption::XpubVerbose);
    lemma_optional_flag_values(SocketOption::XpubVerboser, b.verboser, SocketOption::XpubVerbose);
    lemma_optional_flag_values(SocketOption::XpubManual, b.manual, SocketOption::XpubVerbose);
    lemma_optional_flag_values(SocketOption::XpubManualLastValue, b.manual_last_value, SocketOption::XpubVerbose);
    lemma_optional_text_values(SocketOption::XpubWelcomeMessage, b.welcome_msg, SocketOption::XpubVerbose);
    lemma_optional_flag_values(SocketOption::OnlyFirstSubscribe, b.only_first_subscribe, SocketOption::XpubVerbose);
    assert(written_values(xpublish_builder_writes(b), SocketOption::XpubVerbose) =~= flag_values(b.verbose));
}

proof fn lemma_xpublish_builder_writes_verboser(b: XPublishBuilder)
    ensures
        written_values(xpublish_builder_writes(b), SocketOption::XpubVerboser) == flag_values(b.verboser),
{
    lemma_socket_config_other_options(b.socket_config, SocketOption::XpubVerboser);
    lemma_written_values_add(socket_config_writes(b.socket_config), optional_flag_writes(SocketOption::InvertMatching, b.invert_matching), SocketOption::XpubVerboser);
    lemma_written_values_add(socket_config_writes(b.socket_config) + optional_flag_writes(SocketOption::InvertMatching, b.invert_matching), optional_flag_writes(SocketOption::XpubNoDrop, b.nodrop), SocketOption::XpubVerboser);
    lemma_written_values_add(socket_config_writes(b.socket_config) + optional_flag_writes(SocketOption::InvertMatching, b.invert_matching) + optional_flag_writes(SocketOption::XpubNoDrop, b.nodrop), optional_flag_writes(SocketOption::XpubVerbose, b.verbose), SocketOption::XpubVerboser);
    lemma_written_values_add(socket_config_writes(b.socket_config) + optional_flag_writes(SocketOption::InvertMatching, b.invert_matching) + optional_flag_writes(SocketOption::XpubNoDrop, b.nodrop) + optional_flag_writes(SocketOption::XpubVerbose, b.verbose), optional_flag_writes(SocketOption::XpubVerboser, b.verboser), SocketOption::XpubVerboser);
    lemma_written_values_add(socket_config_writes(b.socket_config) + optional_flag_writes(SocketOption::InvertMatching, b.invert_matching) + optional_flag_writes(SocketOption::XpubNoDrop, b.nodrop) + optional_flag_writes(SocketOption::XpubVerbose, b.verbose) + optional_flag_writes(SocketOption::XpubVerboser, b.verboser), optional_flag_writes(SocketOption::XpubManual, b.manual), SocketOption::XpubVerboser);
    lemma_written_values_add(socket_config_writes(b.socket_config) + optional_flag_writes(SocketOption::InvertMatching, b.invert_matching) + optional_flag_writes(SocketOption::XpubNoDrop, b.nodrop) + optional_flag_writes(SocketOption::XpubVerbose, b.verbose) + optional_flag_writes(SocketOption::XpubVerboser, b.verboser) + optional_flag_writes(SocketOption::XpubManual, b.manual), optional_flag_writes(SocketOption::XpubManualLastValue, b.manual_last_value), SocketOption::XpubVerboser);
    lemma_written_values_add(socket_config_writes(b.socket_config) + optional_flag_writes(SocketOption::InvertMatching, b.invert_matching) + optional_flag_writes(SocketOption::XpubNoDrop, b.nodrop) + optional_flag_writes(SocketOption::XpubVerbose, b.verbose) + optional_flag_writes(SocketOption::XpubVerboser, b.verboser) + optional_flag_writes(SocketOption::XpubManual, b.manual) + optional_flag_writes(SocketOption::XpubManualLastValue, b.manual_last_value), optional_text_writes(SocketOption::XpubWelcomeMessage, b.welcome_msg), SocketOption::XpubVerboser);
    lemma_written_values_add(socket_config_writes(b.socket_config) + optional_flag_writes(SocketOption::InvertMatching, b.invert_matching) + optional_flag_writes(SocketOption::XpubNoDrop, b.nodrop) + optional_flag_writes(SocketOption::XpubVerbose, b.verbose) + optional_flag_writes(SocketOption::XpubVerboser, b.verboser) + optional_flag_writes(SocketOption::XpubManual, b.manual) + optional_flag_writes(SocketOption::XpubManualLastValue, b.manual_last_value) + optional_text_writes(SocketOption::XpubWelcomeMessage, b.welcome_msg), optional_flag_writes(SocketOption::OnlyFirstSubscribe, b.only_first_subscribe), SocketOption::XpubVerboser);
    lemma_optional_flag_values(SocketOption::InvertMatching, b.invert_matching, SocketOption::XpubVerboser);
    lemma_optional_flag_values(SocketOption::XpubNoDrop, b.nodrop, SocketOption::XpubVerboser);
    lemma_optional_flag_values(SocketOption::XpubVerbose, b.verbose, SocketOption::XpubVerboser);
    lemma_optional_flag_values(SocketOption::XpubVerboser, b.verboser, SocketOption::XpubVerboser);
    lemma_optional_flag_values(SocketOption::XpubManual, b.manual, SocketOption::XpubVerboser);
    lemma_optional_flag_values(SocketOption::XpubManualLastValue, b.manual_last_value, SocketOption::XpubVerboser);
    lemma_optional_text_values(SocketOption::XpubWelcomeMessage, b.welcome_msg, SocketOption::XpubVerboser);
    lemma_optional_flag_values(SocketOption::OnlyFirstSubscribe, b.only_first_subscribe, SocketOption::XpubVerboser);
    assert(written_values(xpublish_builder_writes(b), SocketOption::XpubVerboser) =~= flag_values(b.verboser));
}

proof fn lemma_xpublish_builder_writes_manual(b: XPublishBuilder)
    ensures
        written_values(xpublish_builder_writes(b), SocketOption::XpubManual) == flag_values(b.manual),
{
    lemma_socket_config_other_options(b.socket_config, SocketOption::XpubManual);
    lemma_written_values_add(socket_config_writes(b.socket_config), optional_flag_writes(SocketOption::InvertMatching, b.invert_matching), SocketOption::XpubManual);
    lemma_written_values_add(socket_config_writes(b.socket_config) + optional_flag_writes(SocketOption::InvertMatching, b.invert_matching), optional_flag_writes(SocketOption::XpubNoDrop, b.nodrop), SocketOption::XpubManual);
    lemma_written_values_add(socket_config_writes(b.socket_config) + optional_flag_writes(SocketOption::InvertMatching, b.invert_matching) + optional_flag_writes(SocketOption::XpubNoDrop, b.nodrop), optional_flag_writes(SocketOption::XpubVerbose, b.verbose), SocketOption::XpubManual);
    lemma_written_values_add(socket_config_writes(b.socket_config) + optional_flag_writes(SocketOption::InvertMatching, b.invert_matching) + optional_flag_writes(SocketOption::XpubNoDrop, b.nodrop) + optional_flag_writes(SocketOption::XpubVerbose, b.verbose), optional_flag_writes(SocketOption::XpubVerboser, b.verboser), SocketOption::XpubManual);
    lemma_written_values_add(socket_config_writes(b.socket_config) + optional_flag_writes(SocketOption::InvertMatching, b.invert_matching) + optional_flag_writes(SocketOption::XpubNoDrop, b.nodrop) + optional_flag_writes(SocketOption::XpubVerbose, b.verbose) + optional_flag_writes(SocketOption::XpubVerboser, b.verboser), optional_flag_writes(SocketOption::XpubManual, b.manual), SocketOption::XpubManual);
    lemma_written_values_add(socket_config_writes(b.socket_config) + optional_flag_writes(SocketOption::InvertMatching, b.invert_matching) + optional_flag_writes(SocketOption::XpubNoDrop, b.nodrop) + optional_flag_writes(SocketOption::XpubVerbose, b.verbose) + optional_flag_writes(SocketOption::XpubVerboser, b.verboser) + optional_flag_writes(SocketOption::XpubManual, b.manual), optional_flag_writes(SocketOption::XpubManualLastValue, b.manual_last_value), SocketOption::XpubManual);
    lemma_written_values_add(socket_config_writes(b.socket_config) + optional_flag_writes(SocketOption::InvertMatching, b.invert_matching) + optional_flag_writes(SocketOption::XpubNoDrop, b.nodrop) + optional_flag_writes(SocketOption::XpubVerbose, b.verbose) + optional_flag_writes(SocketOption::XpubVerboser, b.verboser) + optional_flag_writes(SocketOption::XpubManual, b.manual) + optional_flag_writes(SocketOption::XpubManualLastValue, b.manual_last_value), optional_text_writes(SocketOption::XpubWelcomeMessage, b.welcome_msg), SocketOption::XpubManual);
    lemma_written_values_add(socket_config_writes(b.socket_config) + optional_flag_writes(SocketOption::InvertMatching, b.invert_matching) + optional_flag_writes(SocketOption::XpubNoDrop, b.nodrop) + optional_flag_writes(SocketOption::XpubVerbose, b.verbose) + optional_flag_writes(SocketOption::XpubVerboser, b.verboser) + optional_flag_writes(SocketOption::XpubManual, b.manual) + optional_flag_writes(SocketOption::XpubManualLastValue, b.manual_last_value) + optional_text_writes(SocketOption::XpubWelcomeMessage, b.welcome_msg), optional_flag_writes(SocketOption::OnlyFirstSubscribe, b.only_first_subscribe), SocketOption::XpubManual);
    lemma_optional_flag_values(SocketOption::InvertMatching, b.invert_matching, SocketOption::XpubManual);
    lemma_optional_flag_values(SocketOption::XpubNoDrop, b.nodrop, SocketOption::XpubManual);
    lemma_optional_flag_values(SocketOption::XpubVerbose, b.verbose, SocketOption::XpubManual);
    lemma_optional_flag_values(SocketOption::XpubVerboser, b.verboser, SocketOption::XpubManual);
    lemma_optional_flag_values(SocketOption::XpubManual, b.manual, SocketOption::XpubManual);
    lemma_optional_flag_values(SocketOption::XpubManualLastValue, b.manual_last_value, SocketOption::XpubManual);
    lemma_optional_text_values(SocketOption::XpubWelcomeMessage, b.welcome_msg, SocketOption::XpubManual);
    lemma_optional_flag_values(SocketOption::OnlyFirstSubscribe, b.only_first_subscribe, SocketOption::XpubManual);
    assert(written_values(xpublish_builder_writes(b), SocketOption::XpubManual) =~= flag_values(b.manual));
}

proof fn lemma_xpublish_builder_writes_manual_last_value(b: XPublishBuilder)
    ensures
        written_values(xpublish_builder_writes(b), SocketOption::XpubManualLastValue) == flag_values(b.manual_last_value),
{
    lemma_socket_config_other_options(b.socket_config, SocketOption::XpubManualLastValue);
    lemma_written_values_add(socket_config_writes(b.socket_config), optional_flag_writes(SocketOption::InvertMatching, b.invert_matching), SocketOption::XpubManualLastValue);
    lemma_written_values_add(socket_config_writes(b.socket_config) + optional_flag_writes(SocketOption::InvertMatching, b.invert_matching), optional_flag_writes(SocketOption::XpubNoDrop, b.nodrop), SocketOption::XpubManualLastValue);
    lemma_written_values_add(socket_config_writes(b.socket_config) + optional_flag_writes(SocketOption::InvertMatching, b.invert_matching) + optional_flag_writes(SocketOption::XpubNoDrop, b.nodrop), optional_flag_writes(SocketOption::XpubVerbose, b.verbose), SocketOption::XpubManualLastValue);
    lemma_written_values_add(socket_config_writes(b.socket_config) + optional_flag_writes(SocketOption::InvertMatching, b.invert_matching) + optional_flag_writes(SocketOption::XpubNoDrop, b.nodrop) + optional_flag_writes(SocketOption::XpubVerbose, b.verbose), optional_flag_writes(SocketOption::XpubVerboser, b.verboser), SocketOption::XpubManualLastValue);
    lemma_written_values_add(socket_config_writes(b.socket_config) + optional_flag_writes(SocketOption::InvertMatching, b.invert_matching) + optional_flag_writes(SocketOption::XpubNoDrop, b.nodrop) + optional_flag_writes(SocketOption::XpubVerbose, b.verbose) + optional_flag_writes(SocketOption::XpubVerboser, b.verboser), optional_flag_writes(SocketOption::XpubManual, b.manual), SocketOption::XpubManualLastValue);
    lemma_written_values_add(socket_config_writes(b.socket_config) + optional_flag_writes(SocketOption::InvertMatching, b.invert_matching) + optional_flag_writes(SocketOption::XpubNoDrop, b.nodrop) + optional_flag_writes(SocketOption::XpubVerbose, b.verbose) + optional_flag_writes(SocketOption::XpubVerboser, b.verboser) + optional_flag_writes(SocketOption::XpubManual, b.manual), optional_flag_writes(SocketOption::XpubManualLastValue, b.manual_last_value), SocketOption::XpubManualLastValue);
    lemma_written_values_add(socket_config_writes(b.socket_config) + optional_flag_writes(SocketOption::InvertMatching, b.invert_matching) + optional_flag_writes(SocketOption::XpubNoDrop, b.nodrop) + optional_flag_writes(SocketOption::XpubVerbose, b.verbose) + optional_flag_writes(SocketOption::XpubVerboser, b.verboser) + optional_flag_writes(SocketOption::XpubManual, b.manual) + optional_flag_writes(SocketOption::XpubManualLastValue, b.manual_last_value), optional_text_writes(SocketOption::XpubWelcomeMessage, b.welcome_msg), SocketOption::XpubManualLastValue);
    lemma_written_values_add(socket_config_writes(b.socket_config) + optional_flag_writes(SocketOption::InvertMatching, b.invert_matching) + optional_flag_writes(SocketOption::XpubNoDrop, b.nodrop) + optional_flag_writes(SocketOption::XpubVerbose, b.verbose) + optional_flag_writes(SocketOption::XpubVerboser, b.verboser) + optional_flag_writes(SocketOption::XpubManual, b.manual) + optional_flag_writes(SocketOption::XpubManualLastValue, b.manual_last_value) + optional_text_writes(SocketOption::XpubWelcomeMessage, b.welcome_msg), optional_flag_writes(SocketOption::OnlyFirstSubscribe, b.only_first_subscribe), SocketOption::XpubManualLastValue);
    lemma_optional_flag_values(SocketOption::InvertMatching, b.invert_matching, SocketOption::XpubManualLastValue);
    lemma_optional_flag_values(SocketOption::XpubNoDrop, b.nodrop, SocketOption::XpubManualLastValue);
    lemma_optional_flag_values(SocketOption::XpubVerbose, b.verbose, SocketOption::XpubManualLastValue);
    lemma_optional_flag_values(SocketOption::XpubVerboser, b.verboser, SocketOption::XpubManualLastValue);
    lemma_optional_flag_values(SocketOption::XpubManual, b.manual, SocketOption::XpubManualLastValue);
    lemma_optional_flag_values(SocketOption::XpubManualLastValue, b.manual_last_value, SocketOption::XpubManualLastValue);
    lemma_optional_text_values(SocketOption::XpubWelcomeMessage, b.welcome_msg, SocketOption::XpubManualLastValue);
    lemma_optional_flag_values(SocketOption::OnlyFirstSubscribe, b.only_first_subscribe, SocketOption::XpubManualLastValue);
    assert(written_values(xpublish_builder_writes(b), SocketOption::XpubManualLastValue) =~= flag_values(b.manual_last_value));
}

proof fn lemma_xpublish_builder_writes_welcome_msg(b: XPublishBuilder)
    ensures
        written_values(xpublish_builder_writes(b), SocketOption::XpubWelcomeMessage) == text_values(b.welcome_msg),
{
    lemma_socket_config_other_options(b.socket_config, SocketOption::XpubWelcomeMessage);
    lemma_written_values_add(socket_config_writes(b.socket_config), optional_flag_writes(SocketOption::InvertMatching, b.invert_matching), SocketOption::XpubWelcomeMessage);
    lemma_written_values_add(socket_config_writes(b.socket_config) + optional_flag_writes(SocketOption::InvertMatching, b.invert_matching), optional_flag_writes(SocketOption::XpubNoDrop, b.nodrop), SocketOption::XpubWelcomeMessage);
    lemma_written_values_add(socket_config_writes(b.socket_config) + optional_flag_writes(SocketOption::InvertMatching, b.invert_matching) + optional_flag_writes(SocketOption::XpubNoDrop, b.nodrop), optional_flag_writes(SocketOption::XpubVerbose, b.verbose), SocketOption::XpubWelcomeMessage);
    lemma_written_values_add(socket_config_writes(b.socket_config) + optional_flag_writes(SocketOption::InvertMatching, b.invert_matching) + optional_flag_writes(SocketOption::XpubNoDrop, b.nodrop) + optional_flag_writes(SocketOption::XpubVerbose, b.verbose), optional_flag_writes(SocketOption::XpubVerboser, b.verboser), SocketOption::XpubWelcomeMessage);
    lemma_written_values_add(socket_config_writes(b.socket_config) + optional_flag_writes(SocketOption::InvertMatching, b.invert_matching) + optional_flag_writes(SocketOption::XpubNoDrop, b.nodrop) + optional_flag_writes(SocketOption::XpubVerbose, b.verbose) + optional_flag_writes(SocketOption::XpubVerboser, b.verboser), optional_flag_writes(SocketOption::XpubManual, b.manual), SocketOption::XpubWelcomeMessage);
    lemma_written_values_add(socket_config_writes(b.socket_config) + optional_flag_writes(SocketOption::InvertMatching, b.invert_matching) + optional_flag_writes(SocketOption::XpubNoDrop, b.nodrop) + optional_flag_writes(SocketOption::XpubVerbose, b.verbose) + optional_flag_writes(SocketOption::XpubVerboser, b.verboser) + optional_flag_writes(SocketOption::XpubManual, b.manual), optional_flag_writes(SocketOption::XpubManualLastValue, b.manual_last_value), SocketOption::XpubWelcomeMessage);
    lemma_written_values_add(socket_config_writes(b.socket_config) + optional_flag_writes(SocketOption::InvertMatching, b.invert_matching) + optional_flag_writes(SocketOption::XpubNoDrop, b.nodrop) + optional_flag_writes(SocketOption::XpubVerbose, b.verbose) + optional_flag_writes(SocketOption::XpubVerboser, b.verboser) + optional_flag_writes(SocketOption::XpubManual, b.manual) + optional_flag_writes(SocketOption::XpubManualLastValue, b.manual_last_value), optional_text_writes(SocketOption::XpubWelcomeMessage, b.welcome_msg), SocketOption::XpubWelcomeMessage);
    lemma_written_values_add(socket_config_writes(b.socket_config) + optional_flag_writes(SocketOption::InvertMatching, b.invert_matching) + optional_flag_writes(SocketOption::XpubNoDrop, b.nodrop) + optional_flag_writes(SocketOption::XpubVerbose, b.verbose) + optional_flag_writes(SocketOption::XpubVerboser, b.verboser) + optional_flag_writes(SocketOption::XpubManual, b.manual) + optional_flag_writes(SocketOption::XpubManualLastValue, b.manual_last_value) + optional_text_writes(SocketOption::XpubWelcomeMessage, b.welcome_msg), optional_flag_writes(SocketOption::OnlyFirstSubscribe, b.only_first_subscribe), SocketOption::XpubWelcomeMessage);
    lemma_optional_flag_values(SocketOption::InvertMatching, b.invert_matching, SocketOption::XpubWelcomeMessage);
    lemma_optional_flag_values(SocketOption::XpubNoDrop, b.nodrop, SocketOption::XpubWelcomeMessage);
    lemma_optional_flag_values(SocketOption::XpubVerbose, b.verbose, SocketOption::XpubWelcomeMessage);
    lemma_optional_flag_values(SocketOption::XpubVerboser, b.verboser, SocketOption::XpubWelcomeMessage);
    lemma_optional_flag_values(SocketOption::XpubManual, b.manual, SocketOption::XpubWelcomeMessage);
    lemma_optional_flag_values(SocketOption::XpubManualLastValue, b.manual_last_value, SocketOption::XpubWelcomeMessage);
    lemma_optional_text_values(SocketOption::XpubWelcomeMessage, b.welcome_msg, SocketOption::XpubWelcomeMessage);
    lemma_optional_flag_values(SocketOption::OnlyFirstSubscribe, b.only_first_subscribe, SocketOption::XpubWelcomeMessage);
    assert(written_values(xpublish_builder_writes(b), SocketOption::XpubWelcomeMessage) =~= text_values(b.welcome_msg));
}

proof fn lemma_xpublish_builder_writes_only_first_subscribe(b: XPublishBuilder)
    ensures
        written_values(xpublish_builder_writes(b), SocketOption::OnlyFirstSubscribe) == flag_values(b.only_first_subscribe),
{
    lemma_socket_config_other_options(b.socket_config, SocketOption::OnlyFirstSubscribe);
    lemma_written_values_add(socket_config_writes(b.socket_config), optional_flag_writes(SocketOption::InvertMatching, b.invert_matching), SocketOption::OnlyFirstSubscribe);
    lemma_written_values_add(socket_config_writes(b.socket_config) + optional_flag_writes(SocketOption::InvertMatching, b.invert_matching), optional_flag_writes(SocketOption::XpubNoDrop, b.nodrop), SocketOption::OnlyFirstSubscribe);
    lemma_written_values_add(socket_config_writes(b.socket_config) + optional_flag_writes(SocketOption::InvertMatching, b.invert_matching) + optional_flag_writes(SocketOption::XpubNoDrop, b.nodrop), optional_flag_writes(SocketOption::XpubVerbose, b.verbose), SocketOption::OnlyFirstSubscribe);
    lemma_written_values_add(socket_config_writes(b.socket_config) + optional_flag_writes(SocketOption::InvertMatching, b.invert_matching) + optional_flag_writes(SocketOption::XpubNoDrop, b.nodrop) + optional_flag_writes(SocketOption::XpubVerbose, b.verbose), optional_flag_writes(SocketOption::XpubVerboser, b.verboser), SocketOption::OnlyFirstSubscribe);
    lemma_written_values_add(socket_config_writes(b.socket_config) + optional_flag_writes(SocketOption::InvertMatching, b.invert_matching) + optional_flag_writes(SocketOption::XpubNoDrop, b.nodrop) + optional_flag_writes(SocketOption::XpubVerbose, b.verbose) + optional_flag_writes(SocketOption::XpubVerboser, b.verboser), optional_flag_writes(SocketOption::XpubManual, b.manual), SocketOption::OnlyFirstSubscribe);
    lemma_written_values_add(socket_config_writes(b.socket_config) + optional_flag_writes(SocketOption::InvertMatching, b.invert_matching) + optional_flag_writes(SocketOption::XpubNoDrop, b.nodrop) + optional_flag_writes(SocketOption::XpubVerbose, b.verbose) + optional_flag_writes(SocketOption::XpubVerboser, b.verboser) + optional_flag_writes(SocketOption::XpubManual, b.manual), optional_flag_writes(SocketOption::XpubManualLastValue, b.manual_last_value), SocketOption::OnlyFirstSubscribe);
    lemma_written_values_add(socket_config_writes(b.socket_config) + optional_flag_writes(SocketOption::InvertMatching, b.invert_matching) + optional_flag_writes(SocketOption::XpubNoDrop, b.nodrop) + optional_flag_writes(SocketOption::XpubVerbose, b.verbose) + optional_flag_writes(SocketOption::XpubVerboser, b.verboser) + optional_flag_writes(SocketOption::XpubManual, b.manual) + optional_flag_writes(SocketOption::XpubManualLastValue, b.manual_last_value), optional_text_writes(SocketOption::XpubWelcomeMessage, b.welcome_msg), SocketOption::OnlyFirstSubscribe);
    lemma_written_values_add(socket_config_writes(b.socket_config) + optional_flag_writes(SocketOption::InvertMatching, b.invert_matching) + optional_flag_writes(SocketOption::XpubNoDrop, b.nodrop) + optional_flag_writes(SocketOption::XpubVerbose, b.verbose) + optional_flag_writes(SocketOption::XpubVerboser, b.verboser) + optional_flag_writes(SocketOption::XpubManual, b.manual) + optional_flag_writes(SocketOption::XpubManualLastValue, b.manual_last_value) + optional_text_writes(SocketOption::XpubWelcomeMessage, b.welcome_msg), optional_flag_writes(SocketOption::OnlyFirstSubscribe, b.only_first_subscribe), SocketOption::OnlyFirstSubscribe);
    lemma_optional_flag_values(SocketOption::InvertMatching, b.invert_matching, SocketOption::OnlyFirstSubscribe);
    lemma_optional_flag_values(SocketOption::XpubNoDrop, b.nodrop, SocketOption::OnlyFirstSubscribe);
    lemma_optional_flag_values(SocketOption::XpubVerbose, b.verbose, SocketOption::OnlyFirstSubscribe);
    lemma_optional_flag_values(SocketOption::XpubVerboser, b.verboser, SocketOption::OnlyFirstSubscribe);
    lemma_optional_flag_values(SocketOption::XpubManual, b.manual, SocketOption::OnlyFirstSubscribe);
    lemma_optional_flag_values(SocketOption::XpubManualLastValue, b.manual_last_value, SocketOption::OnlyFirstSubscribe);
    lemma_optional_text_values(SocketOption::XpubWelcomeMessage, b.welcome_msg, SocketOption::OnlyFirstSubscribe);
    lemma_optional_flag_values(SocketOption::OnlyFirstSubscribe, b.only_first_subscribe, SocketOption::OnlyFirstSubscribe);
    assert(written_values(xpublish_builder_writes(b), SocketOption::OnlyFirstSubscribe) =~= flag_values(b.only_first_subscribe));
}

/// Applying a [`XPublishBuilder`] writes its socket configuration first; then each of its options is
/// written to its own socket option, with the given value, where it is given, and not at
/// all where it is not.
pub proof fn lemma_xpublish_builder_writes_each_option(b: XPublishBuilder)
    ensures
        xpublish_builder_writes(b).take(socket_config_writes(b.socket_config).len() as int) == socket_config_writes(b.socket_config),
        written_values(xpublish_builder_writes(b), SocketOption::InvertMatching) == flag_values(b.invert_matching),
        written_values(xpublish_builder_writes(b), SocketOption::XpubNoDrop) == flag_values(b.nodrop),
        written_values(xpublish_builder_writes(b), SocketOption::XpubVerbose) == flag_values(b.verbose),
        written_values(xpublish_builder_writes(b), SocketOption::XpubVerboser) == flag_values(b.verboser),
        written_values(xpublish_builder_writes(b), SocketOption::XpubManual) == flag_values(b.manual),
        written_values(xpublish_builder_writes(b), SocketOption::XpubManualLastValue) == flag_values(b.manual_last_value),
        written_values(xpublish_builder_writes(b), SocketOption::XpubWelcomeMessage) == text_values(b.welcome_msg),
        written_values(xpublish_builder_writes(b), SocketOption::OnlyFirstSubscribe) == flag_values(b.only_first_subscribe),
{
    lemma_xpublish_builder_writes_invert_matching(b);
    lemma_xpublish_builder_writes_nodrop(b);
    lemma_xpublish_builder_writes_verbose(b);
    lemma_xpublish_builder_writes_verboser(b);
    lemma_xpublish_builder_writes_manual(b);
    lemma_xpublish_builder_writes_manual_last_value(b);
    lemma_xpublish_builder_writes_welcome_msg(b);
    lemma_xpublish_builder_writes_only_first_subscribe(b);
    assert(xpublish_builder_writes(b).take(socket_config_writes(b.socket_config).len() as int) =~= socket_config_writes(b.socket_config));
}

impl XPublishBuilder {
    /// A builder that sets nothing.
    pub fn new() -> (b: XPublishBuilder)
        ensures
            b == (XPublishBuilder { socket_config: unset_socket_config(), invert_matching: None, nodrop: None, verbose: None, verboser: None, manual: None, manual_last_value: None, welcome_msg: None, only_first_subscribe: None }),
    {
        XPublishBuilder { socket_config: SocketConfig::new(), invert_matching: None, nodrop: None, verbose: None, verboser: None, manual: None, manual_last_value: None, welcome_msg: None, only_first_subscribe: None }
    }

    /// Sets the configuration common to all sockets, see [`SocketConfig`].
    pub fn socket_config(self, value: SocketConfig) -> (b: XPublishBuilder)
        ensures
            b == (XPublishBuilder { socket_config: value, ..self }),
    {
        XPublishBuilder { socket_config: value, ..self }
    }

    /// Sets the `invert_matching` option, see [`Socket::set_invert_matching`].
    pub fn invert_matching(self, value: bool) -> (b: XPublishBuilder)
        ensures
            b == (XPublishBuilder { invert_matching: Some(value), ..self }),
    {
        XPublishBuilder { invert_matching: Some(value), ..self }
    }

    /// Sets the `nodrop` option, see [`Socket::set_nodrop`].
    pub fn nodrop(self, value: bool) -> (b: XPublishBuilder)
        ensures
            b == (XPublishBuilder { nodrop: Some(value), ..self }),
    {
        XPublishBuilder { nodrop: Some(value), ..self }
    }

    /// Sets the `verbose` option, see [`Socket::set_verbose`].
    pub fn verbose(self, value: bool) -> (b: XPublishBuilder)
        ensures
            b == (XPublishBuilder { verbose: Some(value), ..self }),
    {
        XPublishBuilder { verbose: Some(value), ..self }
    }

    /// Sets the `verboser` option, see [`Socket::set_verboser`].
    pub fn verboser(self, value: bool) -> (b: XPublishBuilder)
        ensures
            b == (XPublishBuilder { verboser: Some(value), ..self }),
    {
        XPublishBuilder { verboser: Some(value), ..self }
    }

    /// Sets the `manual` option, see [`Socket::set_manual`].
    pub fn manual(self, value: bool) -> (b: XPublishBuilder)
        ensures
            b == (XPublishBuilder { manual: Some(value), ..self }),
    {
        XPublishBuilder { manual: Some(value), ..self }
    }

    /// Sets the `manual_last_value` option, see [`Socket::set_manual_last_value`].
    pub fn manual_last_value(self, value: bool) -> (b: XPublishBuilder)
        ensures
            b == (XPublishBuilder { manual_last_value: Some(value), ..self }),
    {
        XPublishBuilder { manual_last_value: Some(value), ..self }
    }

    /// Sets the `welcome_msg` option, see [`Socket::set_welcome_msg`].
    pub fn welcome_msg(self, value: String) -> (b: XPublishBuilder)
        ensures
            b == (XPublishBuilder { welcome_msg: Some(value), ..self }),
    {
        XPublishBuilder { welcome_msg: Some(value), ..self }
    }

    /// Sets the `only_first_subscribe` option, see [`Socket::set_only_first_subscribe`].
    pub fn only_first_subscribe(self, value: bool) -> (b: XPublishBuilder)
        ensures
            b == (XPublishBuilder { only_first_subscribe: Some(value), ..self }),
    {
        XPublishBuilder { only_first_subscribe: Some(value), ..self }
    }

    /// The writes that apply this builder to `socket`, the socket configuration's first; they
    /// are made in order, stopping at the first that fails (see [`crate::outcome::next_call`]).
    pub fn apply(&self, socket: &XPublishSocket) -> (writes: Vec<OptionWrite>)
        ensures
            writes_view(writes@) == xpublish_builder_writes(*self),
    {
        let mut writes: Vec<OptionWrite> = self.socket_config.apply(socket);
        let ghost mut expected: Seq<(SocketOption, OptionData)> = socket_config_writes(self.socket_config);
        assert(writes_view(writes@) =~= expected);
        let w = match self.invert_matching {
            Some(v) => Some(socket.set_invert_matching(v)),
            None => None,
        };
        assert(optional_write_view(w) =~= optional_flag_writes(SocketOption::InvertMatching, self.invert_matching));
        push_write(&mut writes, w);
        proof { expected = expected + optional_flag_writes(SocketOption::InvertMatching, self.invert_matching); }
        let w = match self.nodrop {
            Some(v) => Some(socket.set_nodrop(v)),
            None => None,
        };
        assert(optional_write_view(w) =~= optional_flag_writes(SocketOption::XpubNoDrop, self.nodrop));
        push_write(&mut writes, w);
        proof { expected = expected + optional_flag_writes(SocketOption::XpubNoDrop, self.nodrop); }
        let w = match self.verbose {
            Some(v) => Some(socket.set_verbose(v)),
            None => None,
        };
        assert(optional_write_view(w) =~= optional_flag_writes(SocketOption::XpubVerbose, self.verbose));
        push_write(&mut writes, w);
        proof { expected = expected + optional_flag_writes(SocketOption::XpubVerbose, self.verbose); }
        let w = match self.verboser {
            Some(v) => Some(socket.set_verboser(v)),
            None => None,
        };
        assert(optional_write_view(w) =~= optional_flag_writes(SocketOption::XpubVerboser, self.verboser));
        push_write(&mut writes, w);
        proof { expected = expected + optional_flag_writes(SocketOption::XpubVerboser, self.verboser); }
        let w = match self.manual {
            Some(v) => Some(socket.set_manual(v)),
            None => None,
        };
        assert(optional_write_view(w) =~= optional_flag_writes(SocketOption::XpubManual, self.manual));
        push_write(&mut writes, w);
        proof { expected = expected + optional_flag_writes(SocketOption::XpubManual, self.manual); }
        let w = match self.manual_last_value {
            Some(v) => Some(socket.set_manual_last_value(v)),
            None => None,
        };
        assert(optional_write_view(w) =~= optional_flag_writes(SocketOption::XpubManualLastValue, self.manual_last_value));
        push_write(&mut writes, w);
        proof { expected = expected + optional_flag_writes(SocketOption::XpubManualLastValue, self.manual_last_value); }
        let w = match &self.welcome_msg {
            Some(v) => Some(socket.set_welcome_msg(v.as_str())),
            None => None,
        };
        assert(optional_write_view(w) =~= optional_text_writes(SocketOption::XpubWelcomeMessage, self.welcome_msg));
        push_write(&mut writes, w);
        proof { expected = expected + optional_text_writes(SocketOption::XpubWelcomeMessage, self.welcome_msg); }
        let w = match self.only_first_subscribe {
            Some(v) => Some(socket.set_only_first_subscribe(v)),
            None => None,
        };
        assert(optional_write_view(w) =~= optional_flag_writes(SocketOption::OnlyFirstSubscribe, self.only_first_subscribe));
        push_write(&mut writes, w);
        proof { expected = expected + optional_flag_writes(SocketOption::OnlyFirstSubscribe, self.only_first_subscribe); }
        assert(expected =~= xpublish_builder_writes(*self));
        writes
    }

    /// A new socket on `context`, with the writes that apply this builder to it.
    pub fn build_from_context(&self, context: &Context) -> (r: (XPublishSocket, Vec<OptionWrite>))
        ensures
            r.0.kind() == <XPublish as sealed::SocketType>::spec_socket_type(),
            writes_view(r.1@) == xpublish_builder_writes(*self),
    {
        let socket = XPublishSocket::from_context(context);
        let writes = self.apply(&socket);
        (socket, writes)
    }
}

} // verus!

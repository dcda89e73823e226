use vstd::prelude::*;
use vstd::string::StringSliceAdditionalSpecFns;

use crate::option::{flag_int, holds_bytes, OptionValue, ValueKind};
use crate::sealed;
use crate::socket::{OptionRead, OptionWrite, Socket, SocketOption, SocketType};

verus! {

/// An extended subscribe socket `ZMQ_XSUB`: subscribes by sending subscription messages.
pub struct XSubscribe {}

impl sealed::SenderFlag for XSubscribe {}

impl sealed::ReceiverFlag for XSubscribe {}

impl sealed::SocketType for XSubscribe {
    open spec fn spec_socket_type() -> SocketType {
        SocketType::XSubscribe
    }

    fn raw_socket_type() -> (t: SocketType) {
        SocketType::XSubscribe
    }
}

/// An extended subscribe socket `ZMQ_XSUB`: subscribes by sending subscription messages.
pub type XSubscribeSocket = Socket<XSubscribe>;

impl Socket<XSubscribe> {
    /// Processes only the first part of subscription messages `ZMQ_ONLY_FIRST_SUBSCRIBE`.
    pub fn set_only_first_subscribe(&self, value: bool) -> (w: OptionWrite)
        ensures
            w == (OptionWrite { option: SocketOption::OnlyFirstSubscribe, value: OptionValue::Int(flag_int(value)) }),
    {
        self.set_sockopt_bool(SocketOption::OnlyFirstSubscribe, value)
    }
    /// Establishes a message filter `ZMQ_SUBSCRIBE`.
    pub fn subscribe(&self, topic: &[u8]) -> (w: OptionWrite)
        ensures
            w.option == SocketOption::Subscribe,
            holds_bytes(w.value, topic@),
    {
        self.set_sockopt_bytes(SocketOption::Subscribe, topic)
    }
    /// Removes a message filter `ZMQ_UNSUBSCRIBE`.
    pub fn unsubscribe(&self, topic: &[u8]) -> (w: OptionWrite)
        ensures
            w.option == SocketOption::Unsubscribe,
            holds_bytes(w.value, topic@),
    {
        self.set_sockopt_bytes(SocketOption::Unsubscribe, topic)
    }
    /// Reads the number of topic subscriptions `ZMQ_TOPICS_COUNT`.
    pub fn topic_count(&self) -> (r: OptionRead)
        ensures
            r == (OptionRead { option: SocketOption::TopicsCount, kind: ValueKind::Int }),
    {
        self.get_sockopt_int(SocketOption::TopicsCount)
    }
    /// Passes on duplicate unsubscriptions `ZMQ_XSUB_VERBOSE_UNSUBSCRIBE`.
    pub fn set_verbose_unsubscribe(&self, value: bool) -> (w: OptionWrite)
        ensures
            w == (OptionWrite { option: SocketOption::XsubVerboseUnsubscribe, value: OptionValue::Int(flag_int(value)) }),
    {
        self.set_sockopt_bool(SocketOption::XsubVerboseUnsubscribe, value)
    }
}

} // verus!

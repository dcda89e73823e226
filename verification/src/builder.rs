//! The settings that every kind of socket takes, applied together.
use vstd::prelude::*;
use vstd::utf8::encode_utf8;

use crate::option::{flag_int, OptionData};
use crate::sealed;
use crate::security::{mechanism_writes, SecurityMechanism};
use crate::socket::{append_writes, optional_flag_writes, optional_text_writes, optional_write_view, push_write, writes_view};
use crate::socket::{OptionWrite, Socket, SocketOption};

verus! {

/// The write of an optional C `int` option: none where the value is not given.
pub open spec fn optional_int_writes(option: SocketOption, value: Option<i32>) -> Seq<(SocketOption, OptionData)> {
    match value {
        Some(v) => seq![(option, OptionData::Int(v))],
        None => Seq::empty(),
    }
}

/// The write of an optional 64-bit signed option: none where the value is not given.
pub open spec fn optional_long_writes(option: SocketOption, value: Option<i64>) -> Seq<(SocketOption, OptionData)> {
    match value {
        Some(v) => seq![(option, OptionData::Long(v))],
        None => Seq::empty(),
    }
}

/// The settings that every kind of socket takes. Each setting that is given is written when
/// the configuration is applied, in the order of the fields, the security mechanism last.
#[derive(Debug, Clone, Default, PartialEq, Eq, Hash)]
pub struct SocketConfig {
    pub connect_timeout: Option<i32>,
    pub handshake_interval: Option<i32>,
    pub heartbeat_interval: Option<i32>,
    pub heartbeat_timeout: Option<i32>,
    pub heartbeat_timetolive: Option<i32>,
    pub linger: Option<i32>,
    pub max_message_size: Option<i64>,
    pub receive_buffer: Option<i32>,
    pub receive_highwater_mark: Option<i32>,
    pub receive_timeout: Option<i32>,
    pub reconnect_interval: Option<i32>,
    pub reconnect_interval_max: Option<i32>,
    pub send_buffer: Option<i32>,
    pub send_highwater_mark: Option<i32>,
    pub send_timeout: Option<i32>,
    pub immediate: Option<bool>,
    pub ipv6: Option<bool>,
    pub security_mechanism: Option<SecurityMechanism>,
}

/// The configuration that sets nothing.
pub open spec fn unset_socket_config() -> SocketConfig {
    SocketConfig {
        connect_timeout: None,
        handshake_interval: None,
        heartbeat_interval: None,
        heartbeat_timeout: None,
        heartbeat_timetolive: None,
        linger: None,
        max_message_size: None,
        receive_buffer: None,
        receive_highwater_mark: None,
        receive_timeout: None,
        reconnect_interval: None,
        reconnect_interval_max: None,
        send_buffer: None,
        send_highwater_mark: None,
        send_timeout: None,
        immediate: None,
        ipv6: None,
        security_mechanism: None,
    }
}

/// The writes of the security mechanism of a configuration, if it has one.
pub open spec fn optional_mechanism_writes(m: Option<SecurityMechanism>) -> Seq<(SocketOption, OptionData)> {
    match m {
        Some(m) => mechanism_writes(m@),
        None => Seq::empty(),
    }
}

/// The writes of the connection settings of a configuration, in order.
pub open spec fn connect_writes(c: SocketConfig) -> Seq<(SocketOption, OptionData)> {
    optional_int_writes(SocketOption::ConnectTimeout, c.connect_timeout)
        + optional_int_writes(SocketOption::HandshakeInterval, c.handshake_interval)
        + optional_int_writes(SocketOption::HeartbeatInterval, c.heartbeat_interval)
}

/// The writes of the heartbeat and linger settings of a configuration, in order.
pub open spec fn heartbeat_writes(c: SocketConfig) -> Seq<(SocketOption, OptionData)> {
    optional_int_writes(SocketOption::HeartbeatTimeout, c.heartbeat_timeout)
        + optional_int_writes(SocketOption::HeartbeatTimeToLive, c.heartbeat_timetolive)
        + optional_int_writes(SocketOption::Linger, c.linger)
}

/// The writes of the message size and receive settings of a configuration, in order.
pub open spec fn receive_writes(c: SocketConfig) -> Seq<(SocketOption, OptionData)> {
    optional_long_writes(SocketOption::MaxMessageSize, c.max_message_size)
        + optional_int_writes(SocketOption::ReceiveBuffer, c.receive_buffer)
        + optional_int_writes(SocketOption::ReceiveHighWatermark, c.receive_highwater_mark)
        + optional_int_writes(SocketOption::ReceiveTimeout, c.receive_timeout)
}

/// The writes of the reconnect settings of a configuration, in order.
pub open spec fn reconnect_writes(c: SocketConfig) -> Seq<(SocketOption, OptionData)> {
    optional_int_writes(SocketOption::ReconnectInterval, c.reconnect_interval)
        + optional_int_writes(SocketOption::ReconnectIntervalMax, c.reconnect_interval_max)
}

/// The writes of the send settings, and whether to queue on unfinished connections and to use IPv6 of a configuration, in order.
pub open spec fn send_writes(c: SocketConfig) -> Seq<(SocketOption, OptionData)> {
    optional_int_writes(SocketOption::SendBuffer, c.send_buffer)
        + optional_int_writes(SocketOption::SendHighWatermark, c.send_highwater_mark)
        + optional_int_writes(SocketOption::SendTimeout, c.send_timeout)
        + optional_flag_writes(SocketOption::Immediate, c.immediate)
        + optional_flag_writes(SocketOption::IPv6, c.ipv6)
}

/// The writes of a [`SocketConfig`], in the order of its fields, the security mechanism
/// last.
pub open spec fn socket_config_writes(c: SocketConfig) -> Seq<(SocketOption, OptionData)> {
    connect_writes(c) + heartbeat_writes(c) + receive_writes(c) + reconnect_writes(c) + send_writes(c)
        + optional_mechanism_writes(c.security_mechanism)
}

/// The values written to `option` by the writes `ws`, in order.
pub open spec fn written_values(ws: Seq<(SocketOption, OptionData)>, option: SocketOption) -> Seq<OptionData>
    decreases ws.len(),
{
    if ws.len() == 0 {
        Seq::empty()
    } else if ws.last().0 == option {
        written_values(ws.drop_last(), option).push(ws.last().1)
    } else {
        written_values(ws.drop_last(), option)
    }
}

/// The values of an optional C `int` setting: the one value where it is given.
pub open spec fn int_values(value: Option<i32>) -> Seq<OptionData> {
    match value {
        Some(v) => seq![OptionData::Int(v)],
        None => Seq::empty(),
    }
}

/// The values of an optional 64-bit signed setting: the one value where it is given.
pub open spec fn long_values(value: Option<i64>) -> Seq<OptionData> {
    match value {
        Some(v) => seq![OptionData::Long(v)],
        None => Seq::empty(),
    }
}

/// The values of an optional flag setting: `1` or `0` where it is given.
pub open spec fn flag_values(value: Option<bool>) -> Seq<OptionData> {
    match value {
        Some(v) => seq![OptionData::Int(flag_int(v))],
        None => Seq::empty(),
    }
}

/// The values written to an option by two runs of writes are those of the first run, then
/// those of the second.
pub proof fn lemma_written_values_add(a: Seq<(SocketOption, OptionData)>, b: Seq<(SocketOption, OptionData)>, option: SocketOption)
    ensures
        written_values(a + b, option) == written_values(a, option) + written_values(b, option),
    decreases b.len(),
{
    if b.len() == 0 {
        assert(a + b =~= a);
        assert(written_values(a, option) + written_values(b, option) =~= written_values(a, option));
    } else {
        lemma_written_values_add(a, b.drop_last(), option);
        assert((a + b).drop_last() =~= a + b.drop_last());
        assert((a + b).last() == b.last());
        assert(written_values(a, option) + written_values(b.drop_last(), option).push(b.last().1)
            =~= (written_values(a, option) + written_values(b.drop_last(), option)).push(b.last().1));
    }
}

/// A single write gives its value to its own option and to no other.
pub proof fn lemma_written_values_one(e: (SocketOption, OptionData), option: SocketOption)
    ensures
        written_values(seq![e], option) == (if e.0 == option { seq![e.1] } else { Seq::<OptionData>::empty() }),
{
    assert(seq![e].drop_last() =~= Seq::<(SocketOption, OptionData)>::empty());
    assert(seq![e].last() == e);
    assert(written_values(Seq::<(SocketOption, OptionData)>::empty(), option) == Seq::<OptionData>::empty());
    assert(Seq::<OptionData>::empty().push(e.1) =~= seq![e.1]);
}

/// An optional C `int` setting writes its value, where given, to its option only.
pub proof fn lemma_optional_int_values(o: SocketOption, value: Option<i32>, option: SocketOption)
    ensures
        written_values(optional_int_writes(o, value), option) == (if o == option { int_values(value) } else { Seq::<OptionData>::empty() }),
{
    if let Some(v) = value {
        lemma_written_values_one((o, OptionData::Int(v)), option);
    }
}

/// An optional 64-bit setting writes its value, where given, to its option only.
pub proof fn lemma_optional_long_values(o: SocketOption, value: Option<i64>, option: SocketOption)
    ensures
        written_values(optional_long_writes(o, value), option) == (if o == option { long_values(value) } else { Seq::<OptionData>::empty() }),
{
    if let Some(v) = value {
        lemma_written_values_one((o, OptionData::Long(v)), option);
    }
}

/// An optional flag writes `1` or `0`, where given, to its option only.
pub proof fn lemma_optional_flag_values(o: SocketOption, value: Option<bool>, option: SocketOption)
    ensures
        written_values(optional_flag_writes(o, value), option) == (if o == option { flag_values(value) } else { Seq::<OptionData>::empty() }),
{
    if let Some(v) = value {
        lemma_written_values_one((o, OptionData::Int(flag_int(v))), option);
    }
}

/// Whether an option is one that setting up a security mechanism writes.
pub open spec fn is_mechanism_option(option: SocketOption) -> bool {
    option == SocketOption::PlainServer || option == SocketOption::PlainUsername || option == SocketOption::PlainPassword || option == SocketOption::CurveServerKey || option == SocketOption::CurvePublicKey || option == SocketOption::CurveSecretKey || option == SocketOption::CurveServer || option == SocketOption::GssApiServicePrincipal || option == SocketOption::GssApiServer
}

/// Setting up a security mechanism writes no option but its own.
pub proof fn lemma_mechanism_writes_own_options(m: Option<SecurityMechanism>, option: SocketOption)
    requires
        !is_mechanism_option(option),
    ensures
        written_values(optional_mechanism_writes(m), option) == Seq::<OptionData>::empty(),
{
    if let Some(m) = m {
        let ws = mechanism_writes(m@);
        assert forall|i: int| 0 <= i < ws.len() implies is_mechanism_option(#[trigger] ws[i].0) by {}
        lemma_no_written_values(ws, option);
    }
}

/// Writes none of which names `option` write no value to it.
proof fn lemma_no_written_values(ws: Seq<(SocketOption, OptionData)>, option: SocketOption)
    requires
        forall|i: int| 0 <= i < ws.len() ==> is_mechanism_option(#[trigger] ws[i].0),
        !is_mechanism_option(option),
    ensures
        written_values(ws, option) == Seq::<OptionData>::empty(),
    decreases ws.len(),
{
    if ws.len() > 0 {
        let prev = ws.drop_last();
        assert forall|i: int| 0 <= i < prev.len() implies is_mechanism_option(#[trigger] prev[i].0) by {
            assert(prev[i] == ws[i]);
        }
        lemma_no_written_values(prev, option);
        assert(is_mechanism_option(ws[ws.len() - 1].0));
    }
}

/// The values written to `option` by a configuration's writes, part by part.
proof fn lemma_socket_config_values_split(c: SocketConfig, option: SocketOption)
    ensures
        written_values(socket_config_writes(c), option) == written_values(optional_int_writes(SocketOption::ConnectTimeout, c.connect_timeout), option)
            + written_values(optional_int_writes(SocketOption::HandshakeInterval, c.handshake_interval), option)
            + written_values(optional_int_writes(SocketOption::HeartbeatInterval, c.heartbeat_interval), option)
            + written_values(optional_int_writes(SocketOption::HeartbeatTimeout, c.heartbeat_timeout), option)
            + written_values(optional_int_writes(SocketOption::HeartbeatTimeToLive, c.heartbeat_timetolive), option)
            + written_values(optional_int_writes(SocketOption::Linger, c.linger), option)
            + written_values(optional_long_writes(SocketOption::MaxMessageSize, c.max_message_size), option)
            + written_values(optional_int_writes(SocketOption::ReceiveBuffer, c.receive_buffer), option)
            + written_values(optional_int_writes(SocketOption::ReceiveHighWatermark, c.receive_highwater_mark), option)
            + written_values(optional_int_writes(SocketOption::ReceiveTimeout, c.receive_timeout), option)
            + written_values(optional_int_writes(SocketOption::ReconnectInterval, c.reconnect_interval), option)
            + written_values(optional_int_writes(SocketOption::ReconnectIntervalMax, c.reconnect_interval_max), option)
            + written_values(optional_int_writes(SocketOption::SendBuffer, c.send_buffer), option)
            + written_values(optional_int_writes(SocketOption::SendHighWatermark, c.send_highwater_mark), option)
            + written_values(optional_int_writes(SocketOption::SendTimeout, c.send_timeout), option)
            + written_values(optional_flag_writes(SocketOption::Immediate, c.immediate), option)
            + written_values(optional_flag_writes(SocketOption::IPv6, c.ipv6), option)
            + written_values(optional_mechanism_writes(c.security_mechanism), option),
{
    lemma_written_values_add(optional_int_writes(SocketOption::ConnectTimeout, c.connect_timeout), optional_int_writes(SocketOption::HandshakeInterval, c.handshake_interval), option);
    lemma_written_values_add(optional_int_writes(SocketOption::ConnectTimeout, c.connect_timeout) + optional_int_writes(SocketOption::HandshakeInterval, c.handshake_interval), optional_int_writes(SocketOption::HeartbeatInterval, c.heartbeat_interval), option);
    lemma_written_values_add(optional_int_writes(SocketOption::HeartbeatTimeout, c.heartbeat_timeout), optional_int_writes(SocketOption::HeartbeatTimeToLive, c.heartbeat_timetolive), option);
    lemma_written_values_add(optional_int_writes(SocketOption::HeartbeatTimeout, c.heartbeat_timeout) + optional_int_writes(SocketOption::HeartbeatTimeToLive, c.heartbeat_timetolive), optional_int_writes(SocketOption::Linger, c.linger), option);
    lemma_written_values_add(optional_long_writes(SocketOption::MaxMessageSize, c.max_message_size), optional_int_writes(SocketOption::ReceiveBuffer, c.receive_buffer), option);
    lemma_written_values_add(optional_long_writes(SocketOption::MaxMessageSize, c.max_message_size) + optional_int_writes(SocketOption::ReceiveBuffer, c.receive_buffer), optional_int_writes(SocketOption::ReceiveHighWatermark, c.receive_highwater_mark), option);
    lemma_written_values_add(optional_long_writes(SocketOption::MaxMessageSize, c.max_message_size) + optional_int_writes(SocketOption::ReceiveBuffer, c.receive_buffer) + optional_int_writes(SocketOption::ReceiveHighWatermark, c.receive_highwater_mark), optional_int_writes(SocketOption::ReceiveTimeout, c.receive_timeout), option);
    lemma_written_values_add(optional_int_writes(SocketOption::ReconnectInterval, c.reconnect_interval), optional_int_writes(SocketOption::ReconnectIntervalMax, c.reconnect_interval_max), option);
    lemma_written_values_add(optional_int_writes(SocketOption::SendBuffer, c.send_buffer), optional_int_writes(SocketOption::SendHighWatermark, c.send_highwater_mark), option);
    lemma_written_values_add(optional_int_writes(SocketOption::SendBuffer, c.send_buffer) + optional_int_writes(SocketOption::SendHighWatermark, c.send_highwater_mark), optional_int_writes(SocketOption::SendTimeout, c.send_timeout), option);
    lemma_written_values_add(optional_int_writes(SocketOption::SendBuffer, c.send_buffer) + optional_int_writes(SocketOption::SendHighWatermark, c.send_highwater_mark) + optional_int_writes(SocketOption::SendTimeout, c.send_timeout), optional_flag_writes(SocketOption::Immediate, c.immediate), option);
    lemma_written_values_add(optional_int_writes(SocketOption::SendBuffer, c.send_buffer) + optional_int_writes(SocketOption::SendHighWatermark, c.send_highwater_mark) + optional_int_writes(SocketOption::SendTimeout, c.send_timeout) + optional_flag_writes(SocketOption::Immediate, c.immediate), optional_flag_writes(SocketOption::IPv6, c.ipv6), option);
    lemma_written_values_add(connect_writes(c), heartbeat_writes(c), option);
    lemma_written_values_add(connect_writes(c) + heartbeat_writes(c), receive_writes(c), option);
    lemma_written_values_add(connect_writes(c) + heartbeat_writes(c) + receive_writes(c), reconnect_writes(c), option);
    lemma_written_values_add(connect_writes(c) + heartbeat_writes(c) + receive_writes(c) + reconnect_writes(c), send_writes(c), option);
    lemma_written_values_add(connect_writes(c) + heartbeat_writes(c) + receive_writes(c) + reconnect_writes(c) + send_writes(c), optional_mechanism_writes(c.security_mechanism), option);
}

proof fn lemma_config_writes_connect_timeout(c: SocketConfig)
    ensures
        written_values(socket_config_writes(c), SocketOption::ConnectTimeout) == int_values(c.connect_timeout),
{
    lemma_socket_config_values_split(c, SocketOption::ConnectTimeout);
    lemma_optional_int_values(SocketOption::ConnectTimeout, c.connect_timeout, SocketOption::ConnectTimeout);
    lemma_optional_int_values(SocketOption::HandshakeInterval, c.handshake_interval, SocketOption::ConnectTimeout);
    lemma_optional_int_values(SocketOption::HeartbeatInterval, c.heartbeat_interval, SocketOption::ConnectTimeout);
    lemma_optional_int_values(SocketOption::HeartbeatTimeout, c.heartbeat_timeout, SocketOption::ConnectTimeout);
    lemma_optional_int_values(SocketOption::HeartbeatTimeToLive, c.heartbeat_timetolive, SocketOption::ConnectTimeout);
    lemma_optional_int_values(SocketOption::Linger, c.linger, SocketOption::ConnectTimeout);
    lemma_optional_long_values(SocketOption::MaxMessageSize, c.max_message_size, SocketOption::ConnectTimeout);
    lemma_optional_int_values(SocketOption::ReceiveBuffer, c.receive_buffer, SocketOption::ConnectTimeout);
    lemma_optional_int_values(SocketOption::ReceiveHighWatermark, c.receive_highwater_mark, SocketOption::ConnectTimeout);
    lemma_optional_int_values(SocketOption::ReceiveTimeout, c.receive_timeout, SocketOption::ConnectTimeout);
    lemma_optional_int_values(SocketOption::ReconnectInterval, c.reconnect_interval, SocketOption::ConnectTimeout);
    lemma_optional_int_values(SocketOption::ReconnectIntervalMax, c.reconnect_interval_max, SocketOption::ConnectTimeout);
    lemma_optional_int_values(SocketOption::SendBuffer, c.send_buffer, SocketOption::ConnectTimeout);
    lemma_optional_int_values(SocketOption::SendHighWatermark, c.send_highwater_mark, SocketOption::ConnectTimeout);
    lemma_optional_int_values(SocketOption::SendTimeout, c.send_timeout, SocketOption::ConnectTimeout);
    lemma_optional_flag_values(SocketOption::Immediate, c.immediate, SocketOption::ConnectTimeout);
    lemma_optional_flag_values(SocketOption::IPv6, c.ipv6, SocketOption::ConnectTimeout);
    lemma_mechanism_writes_own_options(c.security_mechanism, SocketOption::ConnectTimeout);
    assert(written_values(socket_config_writes(c), SocketOption::ConnectTimeout) =~= int_values(c.connect_timeout));
}

proof fn lemma_config_writes_handshake_interval(c: SocketConfig)
    ensures
        written_values(socket_config_writes(c), SocketOption::HandshakeInterval) == int_values(c.handshake_interval),
{
    lemma_socket_config_values_split(c, SocketOption::HandshakeInterval);
    lemma_optional_int_values(SocketOption::ConnectTimeout, c.connect_timeout, SocketOption::HandshakeInterval);
    lemma_optional_int_values(SocketOption::HandshakeInterval, c.handshake_interval, SocketOption::HandshakeInterval);
    lemma_optional_int_values(SocketOption::HeartbeatInterval, c.heartbeat_interval, SocketOption::HandshakeInterval);
    lemma_optional_int_values(SocketOption::HeartbeatTimeout, c.heartbeat_timeout, SocketOption::HandshakeInterval);
    lemma_optional_int_values(SocketOption::HeartbeatTimeToLive, c.heartbeat_timetolive, SocketOption::HandshakeInterval);
    lemma_optional_int_values(SocketOption::Linger, c.linger, SocketOption::HandshakeInterval);
    lemma_optional_long_values(SocketOption::MaxMessageSize, c.max_message_size, SocketOption::HandshakeInterval);
    lemma_optional_int_values(SocketOption::ReceiveBuffer, c.receive_buffer, SocketOption::HandshakeInterval);
    lemma_optional_int_values(SocketOption::ReceiveHighWatermark, c.receive_highwater_mark, SocketOption::HandshakeInterval);
    lemma_optional_int_values(SocketOption::ReceiveTimeout, c.receive_timeout, SocketOption::HandshakeInterval);
    lemma_optional_int_values(SocketOption::ReconnectInterval, c.reconnect_interval, SocketOption::HandshakeInterval);
    lemma_optional_int_values(SocketOption::ReconnectIntervalMax, c.reconnect_interval_max, SocketOption::HandshakeInterval);
    lemma_optional_int_values(SocketOption::SendBuffer, c.send_buffer, SocketOption::HandshakeInterval);
    lemma_optional_int_values(SocketOption::SendHighWatermark, c.send_highwater_mark, SocketOption::HandshakeInterval);
    lemma_optional_int_values(SocketOption::SendTimeout, c.send_timeout, SocketOption::HandshakeInterval);
    lemma_optional_flag_values(SocketOption::Immediate, c.immediate, SocketOption::HandshakeInterval);
    lemma_optional_flag_values(SocketOption::IPv6, c.ipv6, SocketOption::HandshakeInterval);
    lemma_mechanism_writes_own_options(c.security_mechanism, SocketOption::HandshakeInterval);
    assert(written_values(socket_config_writes(c), SocketOption::HandshakeInterval) =~= int_values(c.handshake_interval));
}

proof fn lemma_config_writes_heartbeat_interval(c: SocketConfig)
    ensures
        written_values(socket_config_writes(c), SocketOption::HeartbeatInterval) == int_values(c.heartbeat_interval),
{
    lemma_socket_config_values_split(c, SocketOption::HeartbeatInterval);
    lemma_optional_int_values(SocketOption::ConnectTimeout, c.connect_timeout, SocketOption::HeartbeatInterval);
    lemma_optional_int_values(SocketOption::HandshakeInterval, c.handshake_interval, SocketOption::HeartbeatInterval);
    lemma_optional_int_values(SocketOption::HeartbeatInterval, c.heartbeat_interval, SocketOption::HeartbeatInterval);
    lemma_optional_int_values(SocketOption::HeartbeatTimeout, c.heartbeat_timeout, SocketOption::HeartbeatInterval);
    lemma_optional_int_values(SocketOption::HeartbeatTimeToLive, c.heartbeat_timetolive, SocketOption::HeartbeatInterval);
    lemma_optional_int_values(SocketOption::Linger, c.linger, SocketOption::HeartbeatInterval);
    lemma_optional_long_values(SocketOption::MaxMessageSize, c.max_message_size, SocketOption::HeartbeatInterval);
    lemma_optional_int_values(SocketOption::ReceiveBuffer, c.receive_buffer, SocketOption::HeartbeatInterval);
    lemma_optional_int_values(SocketOption::ReceiveHighWatermark, c.receive_highwater_mark, SocketOption::HeartbeatInterval);
    lemma_optional_int_values(SocketOption::ReceiveTimeout, c.receive_timeout, SocketOption::HeartbeatInterval);
    lemma_optional_int_values(SocketOption::ReconnectInterval, c.reconnect_interval, SocketOption::HeartbeatInterval);
    lemma_optional_int_values(SocketOption::ReconnectIntervalMax, c.reconnect_interval_max, SocketOption::HeartbeatInterval);
    lemma_optional_int_values(SocketOption::SendBuffer, c.send_buffer, SocketOption::HeartbeatInterval);
    lemma_optional_int_values(SocketOption::SendHighWatermark, c.send_highwater_mark, SocketOption::HeartbeatInterval);
    lemma_optional_int_values(SocketOption::SendTimeout, c.send_timeout, SocketOption::HeartbeatInterval);
    lemma_optional_flag_values(SocketOption::Immediate, c.immediate, SocketOption::HeartbeatInterval);
    lemma_optional_flag_values(SocketOption::IPv6, c.ipv6, SocketOption::HeartbeatInterval);
    lemma_mechanism_writes_own_options(c.security_mechanism, SocketOption::HeartbeatInterval);
    assert(written_values(socket_config_writes(c), SocketOption::HeartbeatInterval) =~= int_values(c.heartbeat_interval));
}

proof fn lemma_config_writes_heartbeat_timeout(c: SocketConfig)
    ensures
        written_values(socket_config_writes(c), SocketOption::HeartbeatTimeout) == int_values(c.heartbeat_timeout),
{
    lemma_socket_config_values_split(c, SocketOption::HeartbeatTimeout);
    lemma_optional_int_values(SocketOption::ConnectTimeout, c.connect_timeout, SocketOption::HeartbeatTimeout);
    lemma_optional_int_values(SocketOption::HandshakeInterval, c.handshake_interval, SocketOption::HeartbeatTimeout);
    lemma_optional_int_values(SocketOption::HeartbeatInterval, c.heartbeat_interval, SocketOption::HeartbeatTimeout);
    lemma_optional_int_values(SocketOption::HeartbeatTimeout, c.heartbeat_timeout, SocketOption::HeartbeatTimeout);
    lemma_optional_int_values(SocketOption::HeartbeatTimeToLive, c.heartbeat_timetolive, SocketOption::HeartbeatTimeout);
    lemma_optional_int_values(SocketOption::Linger, c.linger, SocketOption::HeartbeatTimeout);
    lemma_optional_long_values(SocketOption::MaxMessageSize, c.max_message_size, SocketOption::HeartbeatTimeout);
    lemma_optional_int_values(SocketOption::ReceiveBuffer, c.receive_buffer, SocketOption::HeartbeatTimeout);
    lemma_optional_int_values(SocketOption::ReceiveHighWatermark, c.receive_highwater_mark, SocketOption::HeartbeatTimeout);
    lemma_optional_int_values(SocketOption::ReceiveTimeout, c.receive_timeout, SocketOption::HeartbeatTimeout);
    lemma_optional_int_values(SocketOption::ReconnectInterval, c.reconnect_interval, SocketOption::HeartbeatTimeout);
    lemma_optional_int_values(SocketOption::ReconnectIntervalMax, c.reconnect_interval_max, SocketOption::HeartbeatTimeout);
    lemma_optional_int_values(SocketOption::SendBuffer, c.send_buffer, SocketOption::HeartbeatTimeout);
    lemma_optional_int_values(SocketOption::SendHighWatermark, c.send_highwater_mark, SocketOption::HeartbeatTimeout);
    lemma_optional_int_values(SocketOption::SendTimeout, c.send_timeout, SocketOption::HeartbeatTimeout);
    lemma_optional_flag_values(SocketOption::Immediate, c.immediate, SocketOption::HeartbeatTimeout);
    lemma_optional_flag_values(SocketOption::IPv6, c.ipv6, SocketOption::HeartbeatTimeout);
    lemma_mechanism_writes_own_options(c.security_mechanism, SocketOption::HeartbeatTimeout);
    assert(written_values(socket_config_writes(c), SocketOption::HeartbeatTimeout) =~= int_values(c.heartbeat_timeout));
}

proof fn lemma_config_writes_heartbeat_timetolive(c: SocketConfig)
    ensures
        written_values(socket_config_writes(c), SocketOption::HeartbeatTimeToLive) == int_values(c.heartbeat_timetolive),
{
    lemma_socket_config_values_split(c, SocketOption::HeartbeatTimeToLive);
    lemma_optional_int_values(SocketOption::ConnectTimeout, c.connect_timeout, SocketOption::HeartbeatTimeToLive);
    lemma_optional_int_values(SocketOption::HandshakeInterval, c.handshake_interval, SocketOption::HeartbeatTimeToLive);
    lemma_optional_int_values(SocketOption::HeartbeatInterval, c.heartbeat_interval, SocketOption::HeartbeatTimeToLive);
    lemma_optional_int_values(SocketOption::HeartbeatTimeout, c.heartbeat_timeout, SocketOption::HeartbeatTimeToLive);
    lemma_optional_int_values(SocketOption::HeartbeatTimeToLive, c.heartbeat_timetolive, SocketOption::HeartbeatTimeToLive);
    lemma_optional_int_values(SocketOption::Linger, c.linger, SocketOption::HeartbeatTimeToLive);
    lemma_optional_long_values(SocketOption::MaxMessageSize, c.max_message_size, SocketOption::HeartbeatTimeToLive);
    lemma_optional_int_values(SocketOption::ReceiveBuffer, c.receive_buffer, SocketOption::HeartbeatTimeToLive);
    lemma_optional_int_values(SocketOption::ReceiveHighWatermark, c.receive_highwater_mark, SocketOption::HeartbeatTimeToLive);
    lemma_optional_int_values(SocketOption::ReceiveTimeout, c.receive_timeout, SocketOption::HeartbeatTimeToLive);
    lemma_optional_int_values(SocketOption::ReconnectInterval, c.reconnect_interval, SocketOption::HeartbeatTimeToLive);
    lemma_optional_int_values(SocketOption::ReconnectIntervalMax, c.reconnect_interval_max, SocketOption::HeartbeatTimeToLive);
    lemma_optional_int_values(SocketOption::SendBuffer, c.send_buffer, SocketOption::HeartbeatTimeToLive);
    lemma_optional_int_values(SocketOption::SendHighWatermark, c.send_highwater_mark, SocketOption::HeartbeatTimeToLive);
    lemma_optional_int_values(SocketOption::SendTimeout, c.send_timeout, SocketOption::HeartbeatTimeToLive);
    lemma_optional_flag_values(SocketOption::Immediate, c.immediate, SocketOption::HeartbeatTimeToLive);
    lemma_optional_flag_values(SocketOption::IPv6, c.ipv6, SocketOption::HeartbeatTimeToLive);
    lemma_mechanism_writes_own_options(c.security_mechanism, SocketOption::HeartbeatTimeToLive);
    assert(written_values(socket_config_writes(c), SocketOption::HeartbeatTimeToLive) =~= int_values(c.heartbeat_timetolive));
}

proof fn lemma_config_writes_linger(c: SocketConfig)
    ensures
        written_values(socket_config_writes(c), SocketOption::Linger) == int_values(c.linger),
{
    lemma_socket_config_values_split(c, SocketOption::Linger);
    lemma_optional_int_values(SocketOption::ConnectTimeout, c.connect_timeout, SocketOption::Linger);
    lemma_optional_int_values(SocketOption::HandshakeInterval, c.handshake_interval, SocketOption::Linger);
    lemma_optional_int_values(SocketOption::HeartbeatInterval, c.heartbeat_interval, SocketOption::Linger);
    lemma_optional_int_values(SocketOption::HeartbeatTimeout, c.heartbeat_timeout, SocketOption::Linger);
    lemma_optional_int_values(SocketOption::HeartbeatTimeToLive, c.heartbeat_timetolive, SocketOption::Linger);
    lemma_optional_int_values(SocketOption::Linger, c.linger, SocketOption::Linger);
    lemma_optional_long_values(SocketOption::MaxMessageSize, c.max_message_size, SocketOption::Linger);
    lemma_optional_int_values(SocketOption::ReceiveBuffer, c.receive_buffer, SocketOption::Linger);
    lemma_optional_int_values(SocketOption::ReceiveHighWatermark, c.receive_highwater_mark, SocketOption::Linger);
    lemma_optional_int_values(SocketOption::ReceiveTimeout, c.receive_timeout, SocketOption::Linger);
    lemma_optional_int_values(SocketOption::ReconnectInterval, c.reconnect_interval, SocketOption::Linger);
    lemma_optional_int_values(SocketOption::ReconnectIntervalMax, c.reconnect_interval_max, SocketOption::Linger);
    lemma_optional_int_values(SocketOption::SendBuffer, c.send_buffer, SocketOption::Linger);
    lemma_optional_int_values(SocketOption::SendHighWatermark, c.send_highwater_mark, SocketOption::Linger);
    lemma_optional_int_values(SocketOption::SendTimeout, c.send_timeout, SocketOption::Linger);
    lemma_optional_flag_values(SocketOption::Immediate, c.immediate, SocketOption::Linger);
    lemma_optional_flag_values(SocketOption::IPv6, c.ipv6, SocketOption::Linger);
    lemma_mechanism_writes_own_options(c.security_mechanism, SocketOption::Linger);
    assert(written_values(socket_config_writes(c), SocketOption::Linger) =~= int_values(c.linger));
}

proof fn lemma_config_writes_max_message_size(c: SocketConfig)
    ensures
        written_values(socket_config_writes(c), SocketOption::MaxMessageSize) == long_values(c.max_message_size),
{
    lemma_socket_config_values_split(c, SocketOption::MaxMessageSize);
    lemma_optional_int_values(SocketOption::ConnectTimeout, c.connect_timeout, SocketOption::MaxMessageSize);
    lemma_optional_int_values(SocketOption::HandshakeInterval, c.handshake_interval, SocketOption::MaxMessageSize);
    lemma_optional_int_values(SocketOption::HeartbeatInterval, c.heartbeat_interval, SocketOption::MaxMessageSize);
    lemma_optional_int_values(SocketOption::HeartbeatTimeout, c.heartbeat_timeout, SocketOption::MaxMessageSize);
    lemma_optional_int_values(SocketOption::HeartbeatTimeToLive, c.heartbeat_timetolive, SocketOption::MaxMessageSize);
    lemma_optional_int_values(SocketOption::Linger, c.linger, SocketOption::MaxMessageSize);
    lemma_optional_long_values(SocketOption::MaxMessageSize, c.max_message_size, SocketOption::MaxMessageSize);
    lemma_optional_int_values(SocketOption::ReceiveBuffer, c.receive_buffer, SocketOption::MaxMessageSize);
    lemma_optional_int_values(SocketOption::ReceiveHighWatermark, c.receive_highwater_mark, SocketOption::MaxMessageSize);
    lemma_optional_int_values(SocketOption::ReceiveTimeout, c.receive_timeout, SocketOption::MaxMessageSize);
    lemma_optional_int_values(SocketOption::ReconnectInterval, c.reconnect_interval, SocketOption::MaxMessageSize);
    lemma_optional_int_values(SocketOption::ReconnectIntervalMax, c.reconnect_interval_max, SocketOption::MaxMessageSize);
    lemma_optional_int_values(SocketOption::SendBuffer, c.send_buffer, SocketOption::MaxMessageSize);
    lemma_optional_int_values(SocketOption::SendHighWatermark, c.send_highwater_mark, SocketOption::MaxMessageSize);
    lemma_optional_int_values(SocketOption::SendTimeout, c.send_timeout, SocketOption::MaxMessageSize);
    lemma_optional_flag_values(SocketOption::Immediate, c.immediate, SocketOption::MaxMessageSize);
    lemma_optional_flag_values(SocketOption::IPv6, c.ipv6, SocketOption::MaxMessageSize);
    lemma_mechanism_writes_own_options(c.security_mechanism, SocketOption::MaxMessageSize);
    assert(written_values(socket_config_writes(c), SocketOption::MaxMessageSize) =~= long_values(c.max_message_size));
}

proof fn lemma_config_writes_receive_buffer(c: SocketConfig)
    ensures
        written_values(socket_config_writes(c), SocketOption::ReceiveBuffer) == int_values(c.receive_buffer),
{
    lemma_socket_config_values_split(c, SocketOption::ReceiveBuffer);
    lemma_optional_int_values(SocketOption::ConnectTimeout, c.connect_timeout, SocketOption::ReceiveBuffer);
    lemma_optional_int_values(SocketOption::HandshakeInterval, c.handshake_interval, SocketOption::ReceiveBuffer);
    lemma_optional_int_values(SocketOption::HeartbeatInterval, c.heartbeat_interval, SocketOption::ReceiveBuffer);
    lemma_optional_int_values(SocketOption::HeartbeatTimeout, c.heartbeat_timeout, SocketOption::ReceiveBuffer);
    lemma_optional_int_values(SocketOption::HeartbeatTimeToLive, c.heartbeat_timetolive, SocketOption::ReceiveBuffer);
    lemma_optional_int_values(SocketOption::Linger, c.linger, SocketOption::ReceiveBuffer);
    lemma_optional_long_values(SocketOption::MaxMessageSize, c.max_message_size, SocketOption::ReceiveBuffer);
    lemma_optional_int_values(SocketOption::ReceiveBuffer, c.receive_buffer, SocketOption::ReceiveBuffer);
    lemma_optional_int_values(SocketOption::ReceiveHighWatermark, c.receive_highwater_mark, SocketOption::ReceiveBuffer);
    lemma_optional_int_values(SocketOption::ReceiveTimeout, c.receive_timeout, SocketOption::ReceiveBuffer);
    lemma_optional_int_values(SocketOption::ReconnectInterval, c.reconnect_interval, SocketOption::ReceiveBuffer);
    lemma_optional_int_values(SocketOption::ReconnectIntervalMax, c.reconnect_interval_max, SocketOption::ReceiveBuffer);
    lemma_optional_int_values(SocketOption::SendBuffer, c.send_buffer, SocketOption::ReceiveBuffer);
    lemma_optional_int_values(SocketOption::SendHighWatermark, c.send_highwater_mark, SocketOption::ReceiveBuffer);
    lemma_optional_int_values(SocketOption::SendTimeout, c.send_timeout, SocketOption::ReceiveBuffer);
    lemma_optional_flag_values(SocketOption::Immediate, c.immediate, SocketOption::ReceiveBuffer);
    lemma_optional_flag_values(SocketOption::IPv6, c.ipv6, SocketOption::ReceiveBuffer);
    lemma_mechanism_writes_own_options(c.security_mechanism, SocketOption::ReceiveBuffer);
    assert(written_values(socket_config_writes(c), SocketOption::ReceiveBuffer) =~= int_values(c.receive_buffer));
}

proof fn lemma_config_writes_receive_highwater_mark(c: SocketConfig)
    ensures
        written_values(socket_config_writes(c), SocketOption::ReceiveHighWatermark) == int_values(c.receive_highwater_mark),
{
    lemma_socket_config_values_split(c, SocketOption::ReceiveHighWatermark);
    lemma_optional_int_values(SocketOption::ConnectTimeout, c.connect_timeout, SocketOption::ReceiveHighWatermark);
    lemma_optional_int_values(SocketOption::HandshakeInterval, c.handshake_interval, SocketOption::ReceiveHighWatermark);
    lemma_optional_int_values(SocketOption::HeartbeatInterval, c.heartbeat_interval, SocketOption::ReceiveHighWatermark);
    lemma_optional_int_values(SocketOption::HeartbeatTimeout, c.heartbeat_timeout, SocketOption::ReceiveHighWatermark);
    lemma_optional_int_values(SocketOption::HeartbeatTimeToLive, c.heartbeat_timetolive, SocketOption::ReceiveHighWatermark);
    lemma_optional_int_values(SocketOption::Linger, c.linger, SocketOption::ReceiveHighWatermark);
    lemma_optional_long_values(SocketOption::MaxMessageSize, c.max_message_size, SocketOption::ReceiveHighWatermark);
    lemma_optional_int_values(SocketOption::ReceiveBuffer, c.receive_buffer, SocketOption::ReceiveHighWatermark);
    lemma_optional_int_values(SocketOption::ReceiveHighWatermark, c.receive_highwater_mark, SocketOption::ReceiveHighWatermark);
    lemma_optional_int_values(SocketOption::ReceiveTimeout, c.receive_timeout, SocketOption::ReceiveHighWatermark);
    lemma_optional_int_values(SocketOption::ReconnectInterval, c.reconnect_interval, SocketOption::ReceiveHighWatermark);
    lemma_optional_int_values(SocketOption::ReconnectIntervalMax, c.reconnect_interval_max, SocketOption::ReceiveHighWatermark);
    lemma_optional_int_values(SocketOption::SendBuffer, c.send_buffer, SocketOption::ReceiveHighWatermark);
    lemma_optional_int_values(SocketOption::SendHighWatermark, c.send_highwater_mark, SocketOption::ReceiveHighWatermark);
    lemma_optional_int_values(SocketOption::SendTimeout, c.send_timeout, SocketOption::ReceiveHighWatermark);
    lemma_optional_flag_values(SocketOption::Immediate, c.immediate, SocketOption::ReceiveHighWatermark);
    lemma_optional_flag_values(SocketOption::IPv6, c.ipv6, SocketOption::ReceiveHighWatermark);
    lemma_mechanism_writes_own_options(c.security_mechanism, SocketOption::ReceiveHighWatermark);
    assert(written_values(socket_config_writes(c), SocketOption::ReceiveHighWatermark) =~= int_values(c.receive_highwater_mark));
}

proof fn lemma_config_writes_receive_timeout(c: SocketConfig)
    ensures
        written_values(socket_config_writes(c), SocketOption::ReceiveTimeout) == int_values(c.receive_timeout),
{
    lemma_socket_config_values_split(c, SocketOption::ReceiveTimeout);
    lemma_optional_int_values(SocketOption::ConnectTimeout, c.connect_timeout, SocketOption::ReceiveTimeout);
    lemma_optional_int_values(SocketOption::HandshakeInterval, c.handshake_interval, SocketOption::ReceiveTimeout);
    lemma_optional_int_values(SocketOption::HeartbeatInterval, c.heartbeat_interval, SocketOption::ReceiveTimeout);
    lemma_optional_int_values(SocketOption::HeartbeatTimeout, c.heartbeat_timeout, SocketOption::ReceiveTimeout);
    lemma_optional_int_values(SocketOption::HeartbeatTimeToLive, c.heartbeat_timetolive, SocketOption::ReceiveTimeout);
    lemma_optional_int_values(SocketOption::Linger, c.linger, SocketOption::ReceiveTimeout);
    lemma_optional_long_values(SocketOption::MaxMessageSize, c.max_message_size, SocketOption::ReceiveTimeout);
    lemma_optional_int_values(SocketOption::ReceiveBuffer, c.receive_buffer, SocketOption::ReceiveTimeout);
    lemma_optional_int_values(SocketOption::ReceiveHighWatermark, c.receive_highwater_mark, SocketOption::ReceiveTimeout);
    lemma_optional_int_values(SocketOption::ReceiveTimeout, c.receive_timeout, SocketOption::ReceiveTimeout);
    lemma_optional_int_values(SocketOption::ReconnectInterval, c.reconnect_interval, SocketOption::ReceiveTimeout);
    lemma_optional_int_values(SocketOption::ReconnectIntervalMax, c.reconnect_interval_max, SocketOption::ReceiveTimeout);
    lemma_optional_int_values(SocketOption::SendBuffer, c.send_buffer, SocketOption::ReceiveTimeout);
    lemma_optional_int_values(SocketOption::SendHighWatermark, c.send_highwater_mark, SocketOption::ReceiveTimeout);
    lemma_optional_int_values(SocketOption::SendTimeout, c.send_timeout, SocketOption::ReceiveTimeout);
    lemma_optional_flag_values(SocketOption::Immediate, c.immediate, SocketOption::ReceiveTimeout);
    lemma_optional_flag_values(SocketOption::IPv6, c.ipv6, SocketOption::ReceiveTimeout);
    lemma_mechanism_writes_own_options(c.security_mechanism, SocketOption::ReceiveTimeout);
    assert(written_values(socket_config_writes(c), SocketOption::ReceiveTimeout) =~= int_values(c.receive_timeout));
}

proof fn lemma_config_writes_reconnect_interval(c: SocketConfig)
    ensures
        written_values(socket_config_writes(c), SocketOption::ReconnectInterval) == int_values(c.reconnect_interval),
{
    lemma_socket_config_values_split(c, SocketOption::ReconnectInterval);
    lemma_optional_int_values(SocketOption::ConnectTimeout, c.connect_timeout, SocketOption::ReconnectInterval);
    lemma_optional_int_values(SocketOption::HandshakeInterval, c.handshake_interval, SocketOption::ReconnectInterval);
    lemma_optional_int_values(SocketOption::HeartbeatInterval, c.heartbeat_interval, SocketOption::ReconnectInterval);
    lemma_optional_int_values(SocketOption::HeartbeatTimeout, c.heartbeat_timeout, SocketOption::ReconnectInterval);
    lemma_optional_int_values(SocketOption::HeartbeatTimeToLive, c.heartbeat_timetolive, SocketOption::ReconnectInterval);
    lemma_optional_int_values(SocketOption::Linger, c.linger, SocketOption::ReconnectInterval);
    lemma_optional_long_values(SocketOption::MaxMessageSize, c.max_message_size, SocketOption::ReconnectInterval);
    lemma_optional_int_values(SocketOption::ReceiveBuffer, c.receive_buffer, SocketOption::ReconnectInterval);
    lemma_optional_int_values(SocketOption::ReceiveHighWatermark, c.receive_highwater_mark, SocketOption::ReconnectInterval);
    lemma_optional_int_values(SocketOption::ReceiveTimeout, c.receive_timeout, SocketOption::ReconnectInterval);
    lemma_optional_int_values(SocketOption::ReconnectInterval, c.reconnect_interval, SocketOption::ReconnectInterval);
    lemma_optional_int_values(SocketOption::ReconnectIntervalMax, c.reconnect_interval_max, SocketOption::ReconnectInterval);
    lemma_optional_int_values(SocketOption::SendBuffer, c.send_buffer, SocketOption::ReconnectInterval);
    lemma_optional_int_values(SocketOption::SendHighWatermark, c.send_highwater_mark, SocketOption::ReconnectInterval);
    lemma_optional_int_values(SocketOption::SendTimeout, c.send_timeout, SocketOption::ReconnectInterval);
    lemma_optional_flag_values(SocketOption::Immediate, c.immediate, SocketOption::ReconnectInterval);
    lemma_optional_flag_values(SocketOption::IPv6, c.ipv6, SocketOption::ReconnectInterval);
    lemma_mechanism_writes_own_options(c.security_mechanism, SocketOption::ReconnectInterval);
    assert(written_values(socket_config_writes(c), SocketOption::ReconnectInterval) =~= int_values(c.reconnect_interval));
}

proof fn lemma_config_writes_reconnect_interval_max(c: SocketConfig)
    ensures
        written_values(socket_config_writes(c), SocketOption::ReconnectIntervalMax) == int_values(c.reconnect_interval_max),
{
    lemma_socket_config_values_split(c, SocketOption::ReconnectIntervalMax);
    lemma_optional_int_values(SocketOption::ConnectTimeout, c.connect_timeout, SocketOption::ReconnectIntervalMax);
    lemma_optional_int_values(SocketOption::HandshakeInterval, c.handshake_interval, SocketOption::ReconnectIntervalMax);
    lemma_optional_int_values(SocketOption::HeartbeatInterval, c.heartbeat_interval, SocketOption::ReconnectIntervalMax);
    lemma_optional_int_values(SocketOption::HeartbeatTimeout, c.heartbeat_timeout, SocketOption::ReconnectIntervalMax);
    lemma_optional_int_values(SocketOption::HeartbeatTimeToLive, c.heartbeat_timetolive, SocketOption::ReconnectIntervalMax);
    lemma_optional_int_values(SocketOption::Linger, c.linger, SocketOption::ReconnectIntervalMax);
    lemma_optional_long_values(SocketOption::MaxMessageSize, c.max_message_size, SocketOption::ReconnectIntervalMax);
    lemma_optional_int_values(SocketOption::ReceiveBuffer, c.receive_buffer, SocketOption::ReconnectIntervalMax);
    lemma_optional_int_values(SocketOption::ReceiveHighWatermark, c.receive_highwater_mark, SocketOption::ReconnectIntervalMax);
    lemma_optional_int_values(SocketOption::ReceiveTimeout, c.receive_timeout, SocketOption::ReconnectIntervalMax);
    lemma_optional_int_values(SocketOption::ReconnectInterval, c.reconnect_interval, SocketOption::ReconnectIntervalMax);
    lemma_optional_int_values(SocketOption::ReconnectIntervalMax, c.reconnect_interval_max, SocketOption::ReconnectIntervalMax);
    lemma_optional_int_values(SocketOption::SendBuffer, c.send_buffer, SocketOption::ReconnectIntervalMax);
    lemma_optional_int_values(SocketOption::SendHighWatermark, c.send_highwater_mark, SocketOption::ReconnectIntervalMax);
    lemma_optional_int_values(SocketOption::SendTimeout, c.send_timeout, SocketOption::ReconnectIntervalMax);
    lemma_optional_flag_values(SocketOption::Immediate, c.immediate, SocketOption::ReconnectIntervalMax);
    lemma_optional_flag_values(SocketOption::IPv6, c.ipv6, SocketOption::ReconnectIntervalMax);
    lemma_mechanism_writes_own_options(c.security_mechanism, SocketOption::ReconnectIntervalMax);
    assert(written_values(socket_config_writes(c), SocketOption::ReconnectIntervalMax) =~= int_values(c.reconnect_interval_max));
}

proof fn lemma_config_writes_send_buffer(c: SocketConfig)
    ensures
        written_values(socket_config_writes(c), SocketOption::SendBuffer) == int_values(c.send_buffer),
{
    lemma_socket_config_values_split(c, SocketOption::SendBuffer);
    lemma_optional_int_values(SocketOption::ConnectTimeout, c.connect_timeout, SocketOption::SendBuffer);
    lemma_optional_int_values(SocketOption::HandshakeInterval, c.handshake_interval, SocketOption::SendBuffer);
    lemma_optional_int_values(SocketOption::HeartbeatInterval, c.heartbeat_interval, SocketOption::SendBuffer);
    lemma_optional_int_values(SocketOption::HeartbeatTimeout, c.heartbeat_timeout, SocketOption::SendBuffer);
    lemma_optional_int_values(SocketOption::HeartbeatTimeToLive, c.heartbeat_timetolive, SocketOption::SendBuffer);
    lemma_optional_int_values(SocketOption::Linger, c.linger, SocketOption::SendBuffer);
    lemma_optional_long_values(SocketOption::MaxMessageSize, c.max_message_size, SocketOption::SendBuffer);
    lemma_optional_int_values(SocketOption::ReceiveBuffer, c.receive_buffer, SocketOption::SendBuffer);
    lemma_optional_int_values(SocketOption::ReceiveHighWatermark, c.receive_highwater_mark, SocketOption::SendBuffer);
    lemma_optional_int_values(SocketOption::ReceiveTimeout, c.receive_timeout, SocketOption::SendBuffer);
    lemma_optional_int_values(SocketOption::ReconnectInterval, c.reconnect_interval, SocketOption::SendBuffer);
    lemma_optional_int_values(SocketOption::ReconnectIntervalMax, c.reconnect_interval_max, SocketOption::SendBuffer);
    lemma_optional_int_values(SocketOption::SendBuffer, c.send_buffer, SocketOption::SendBuffer);
    lemma_optional_int_values(SocketOption::SendHighWatermark, c.send_highwater_mark, SocketOption::SendBuffer);
    lemma_optional_int_values(SocketOption::SendTimeout, c.send_timeout, SocketOption::SendBuffer);
    lemma_optional_flag_values(SocketOption::Immediate, c.immediate, SocketOption::SendBuffer);
    lemma_optional_flag_values(SocketOption::IPv6, c.ipv6, SocketOption::SendBuffer);
    lemma_mechanism_writes_own_options(c.security_mechanism, SocketOption::SendBuffer);
    assert(written_values(socket_config_writes(c), SocketOption::SendBuffer) =~= int_values(c.send_buffer));
}

proof fn lemma_config_writes_send_highwater_mark(c: SocketConfig)
    ensures
        written_values(socket_config_writes(c), SocketOption::SendHighWatermark) == int_values(c.send_highwater_mark),
{
    lemma_socket_config_values_split(c, SocketOption::SendHighWatermark);
    lemma_optional_int_values(SocketOption::ConnectTimeout, c.connect_timeout, SocketOption::SendHighWatermark);
    lemma_optional_int_values(SocketOption::HandshakeInterval, c.handshake_interval, SocketOption::SendHighWatermark);
    lemma_optional_int_values(SocketOption::HeartbeatInterval, c.heartbeat_interval, SocketOption::SendHighWatermark);
    lemma_optional_int_values(SocketOption::HeartbeatTimeout, c.heartbeat_timeout, SocketOption::SendHighWatermark);
    lemma_optional_int_values(SocketOption::HeartbeatTimeToLive, c.heartbeat_timetolive, SocketOption::SendHighWatermark);
    lemma_optional_int_values(SocketOption::Linger, c.linger, SocketOption::SendHighWatermark);
    lemma_optional_long_values(SocketOption::MaxMessageSize, c.max_message_size, SocketOption::SendHighWatermark);
    lemma_optional_int_values(SocketOption::ReceiveBuffer, c.receive_buffer, SocketOption::SendHighWatermark);
    lemma_optional_int_values(SocketOption::ReceiveHighWatermark, c.receive_highwater_mark, SocketOption::SendHighWatermark);
    lemma_optional_int_values(SocketOption::ReceiveTimeout, c.receive_timeout, SocketOption::SendHighWatermark);
    lemma_optional_int_values(SocketOption::ReconnectInterval, c.reconnect_interval, SocketOption::SendHighWatermark);
    lemma_optional_int_values(SocketOption::ReconnectIntervalMax, c.reconnect_interval_max, SocketOption::SendHighWatermark);
    lemma_optional_int_values(SocketOption::SendBuffer, c.send_buffer, SocketOption::SendHighWatermark);
    lemma_optional_int_values(SocketOption::SendHighWatermark, c.send_highwater_mark, SocketOption::SendHighWatermark);
    lemma_optional_int_values(SocketOption::SendTimeout, c.send_timeout, SocketOption::SendHighWatermark);
    lemma_optional_flag_values(SocketOption::Immediate, c.immediate, SocketOption::SendHighWatermark);
    lemma_optional_flag_values(SocketOption::IPv6, c.ipv6, SocketOption::SendHighWatermark);
    lemma_mechanism_writes_own_options(c.security_mechanism, SocketOption::SendHighWatermark);
    assert(written_values(socket_config_writes(c), SocketOption::SendHighWatermark) =~= int_values(c.send_highwater_mark));
}

proof fn lemma_config_writes_send_timeout(c: SocketConfig)
    ensures
        written_values(socket_config_writes(c), SocketOption::SendTimeout) == int_values(c.send_timeout),
{
    lemma_socket_config_values_split(c, SocketOption::SendTimeout);
    lemma_optional_int_values(SocketOption::ConnectTimeout, c.connect_timeout, SocketOption::SendTimeout);
    lemma_optional_int_values(SocketOption::HandshakeInterval, c.handshake_interval, SocketOption::SendTimeout);
    lemma_optional_int_values(SocketOption::HeartbeatInterval, c.heartbeat_interval, SocketOption::SendTimeout);
    lemma_optional_int_values(SocketOption::HeartbeatTimeout, c.heartbeat_timeout, SocketOption::SendTimeout);
    lemma_optional_int_values(SocketOption::HeartbeatTimeToLive, c.heartbeat_timetolive, SocketOption::SendTimeout);
    lemma_optional_int_values(SocketOption::Linger, c.linger, SocketOption::SendTimeout);
    lemma_optional_long_values(SocketOption::MaxMessageSize, c.max_message_size, SocketOption::SendTimeout);
    lemma_optional_int_values(SocketOption::ReceiveBuffer, c.receive_buffer, SocketOption::SendTimeout);
    lemma_optional_int_values(SocketOption::ReceiveHighWatermark, c.receive_highwater_mark, SocketOption::SendTimeout);
    lemma_optional_int_values(SocketOption::ReceiveTimeout, c.receive_timeout, SocketOption::SendTimeout);
    lemma_optional_int_values(SocketOption::ReconnectInterval, c.reconnect_interval, SocketOption::SendTimeout);
    lemma_optional_int_values(SocketOption::ReconnectIntervalMax, c.reconnect_interval_max, SocketOption::SendTimeout);
    lemma_optional_int_values(SocketOption::SendBuffer, c.send_buffer, SocketOption::SendTimeout);
    lemma_optional_int_values(SocketOption::SendHighWatermark, c.send_highwater_mark, SocketOption::SendTimeout);
    lemma_optional_int_values(SocketOption::SendTimeout, c.send_timeout, SocketOption::SendTimeout);
    lemma_optional_flag_values(SocketOption::Immediate, c.immediate, SocketOption::SendTimeout);
    lemma_optional_flag_values(SocketOption::IPv6, c.ipv6, SocketOption::SendTimeout);
    lemma_mechanism_writes_own_options(c.security_mechanism, SocketOption::SendTimeout);
    assert(written_values(socket_config_writes(c), SocketOption::SendTimeout) =~= int_values(c.send_timeout));
}

proof fn lemma_config_writes_immediate(c: SocketConfig)
    ensures
        written_values(socket_config_writes(c), SocketOption::Immediate) == flag_values(c.immediate),
{
    lemma_socket_config_values_split(c, SocketOption::Immediate);
    lemma_optional_int_values(SocketOption::ConnectTimeout, c.connect_timeout, SocketOption::Immediate);
    lemma_optional_int_values(SocketOption::HandshakeInterval, c.handshake_interval, SocketOption::Immediate);
    lemma_optional_int_values(SocketOption::HeartbeatInterval, c.heartbeat_interval, SocketOption::Immediate);
    lemma_optional_int_values(SocketOption::HeartbeatTimeout, c.heartbeat_timeout, SocketOption::Immediate);
    lemma_optional_int_values(SocketOption::HeartbeatTimeToLive, c.heartbeat_timetolive, SocketOption::Immediate);
    lemma_optional_int_values(SocketOption::Linger, c.linger, SocketOption::Immediate);
    lemma_optional_long_values(SocketOption::MaxMessageSize, c.max_message_size, SocketOption::Immediate);
    lemma_optional_int_values(SocketOption::ReceiveBuffer, c.receive_buffer, SocketOption::Immediate);
    lemma_optional_int_values(SocketOption::ReceiveHighWatermark, c.receive_highwater_mark, SocketOption::Immediate);
    lemma_optional_int_values(SocketOption::ReceiveTimeout, c.receive_timeout, SocketOption::Immediate);
    lemma_optional_int_values(SocketOption::ReconnectInterval, c.reconnect_interval, SocketOption::Immediate);
    lemma_optional_int_values(SocketOption::ReconnectIntervalMax, c.reconnect_interval_max, SocketOption::Immediate);
    lemma_optional_int_values(SocketOption::SendBuffer, c.send_buffer, SocketOption::Immediate);
    lemma_optional_int_values(SocketOption::SendHighWatermark, c.send_highwater_mark, SocketOption::Immediate);
    lemma_optional_int_values(SocketOption::SendTimeout, c.send_timeout, SocketOption::Immediate);
    lemma_optional_flag_values(SocketOption::Immediate, c.immediate, SocketOption::Immediate);
    lemma_optional_flag_values(SocketOption::IPv6, c.ipv6, SocketOption::Immediate);
    lemma_mechanism_writes_own_options(c.security_mechanism, SocketOption::Immediate);
    assert(written_values(socket_config_writes(c), SocketOption::Immediate) =~= flag_values(c.immediate));
}

proof fn lemma_config_writes_ipv6(c: SocketConfig)
    ensures
        written_values(socket_config_writes(c), SocketOption::IPv6) == flag_values(c.ipv6),
{
    lemma_socket_config_values_split(c, SocketOption::IPv6);
    lemma_optional_int_values(SocketOption::ConnectTimeout, c.connect_timeout, SocketOption::IPv6);
    lemma_optional_int_values(SocketOption::HandshakeInterval, c.handshake_interval, SocketOption::IPv6);
    lemma_optional_int_values(SocketOption::HeartbeatInterval, c.heartbeat_interval, SocketOption::IPv6);
    lemma_optional_int_values(SocketOption::HeartbeatTimeout, c.heartbeat_timeout, SocketOption::IPv6);
    lemma_optional_int_values(SocketOption::HeartbeatTimeToLive, c.heartbeat_timetolive, SocketOption::IPv6);
    lemma_optional_int_values(SocketOption::Linger, c.linger, SocketOption::IPv6);
    lemma_optional_long_values(SocketOption::MaxMessageSize, c.max_message_size, SocketOption::IPv6);
    lemma_optional_int_values(SocketOption::ReceiveBuffer, c.receive_buffer, SocketOption::IPv6);
    lemma_optional_int_values(SocketOption::ReceiveHighWatermark, c.receive_highwater_mark, SocketOption::IPv6);
    lemma_optional_int_values(SocketOption::ReceiveTimeout, c.receive_timeout, SocketOption::IPv6);
    lemma_optional_int_values(SocketOption::ReconnectInterval, c.reconnect_interval, SocketOption::IPv6);
    lemma_optional_int_values(SocketOption::ReconnectIntervalMax, c.reconnect_interval_max, SocketOption::IPv6);
    lemma_optional_int_values(SocketOption::SendBuffer, c.send_buffer, SocketOption::IPv6);
    lemma_optional_int_values(SocketOption::SendHighWatermark, c.send_highwater_mark, SocketOption::IPv6);
    lemma_optional_int_values(SocketOption::SendTimeout, c.send_timeout, SocketOption::IPv6);
    lemma_optional_flag_values(SocketOption::Immediate, c.immediate, SocketOption::IPv6);
    lemma_optional_flag_values(SocketOption::IPv6, c.ipv6, SocketOption::IPv6);
    lemma_mechanism_writes_own_options(c.security_mechanism, SocketOption::IPv6);
    assert(written_values(socket_config_writes(c), SocketOption::IPv6) =~= flag_values(c.ipv6));
}

/// Each setting of a configuration is written to its own option, and to no other: the
/// values that a configuration's writes give an option are the setting's value where the
/// setting is given, and none where it is not.
pub proof fn lemma_socket_config_writes_each_setting(c: SocketConfig)
    ensures
        written_values(socket_config_writes(c), SocketOption::ConnectTimeout) == int_values(c.connect_timeout),
        written_values(socket_config_writes(c), SocketOption::HandshakeInterval) == int_values(c.handshake_interval),
        written_values(socket_config_writes(c), SocketOption::HeartbeatInterval) == int_values(c.heartbeat_interval),
        written_values(socket_config_writes(c), SocketOption::HeartbeatTimeout) == int_values(c.heartbeat_timeout),
        written_values(socket_config_writes(c), SocketOption::HeartbeatTimeToLive) == int_values(c.heartbeat_timetolive),
        written_values(socket_config_writes(c), SocketOption::Linger) == int_values(c.linger),
        written_values(socket_config_writes(c), SocketOption::MaxMessageSize) == long_values(c.max_message_size),
        written_values(socket_config_writes(c), SocketOption::ReceiveBuffer) == int_values(c.receive_buffer),
        written_values(socket_config_writes(c), SocketOption::ReceiveHighWatermark) == int_values(c.receive_highwater_mark),
        written_values(socket_config_writes(c), SocketOption::ReceiveTimeout) == int_values(c.receive_timeout),
        written_values(socket_config_writes(c), SocketOption::ReconnectInterval) == int_values(c.reconnect_interval),
        written_values(socket_config_writes(c), SocketOption::ReconnectIntervalMax) == int_values(c.reconnect_interval_max),
        written_values(socket_config_writes(c), SocketOption::SendBuffer) == int_values(c.send_buffer),
        written_values(socket_config_writes(c), SocketOption::SendHighWatermark) == int_values(c.send_highwater_mark),
        written_values(socket_config_writes(c), SocketOption::SendTimeout) == int_values(c.send_timeout),
        written_values(socket_config_writes(c), SocketOption::Immediate) == flag_values(c.immediate),
        written_values(socket_config_writes(c), SocketOption::IPv6) == flag_values(c.ipv6),
{
    lemma_config_writes_connect_timeout(c);
    lemma_config_writes_handshake_interval(c);
    lemma_config_writes_heartbeat_interval(c);
    lemma_config_writes_heartbeat_timeout(c);
    lemma_config_writes_heartbeat_timetolive(c);
    lemma_config_writes_linger(c);
    lemma_config_writes_max_message_size(c);
    lemma_config_writes_receive_buffer(c);
    lemma_config_writes_receive_highwater_mark(c);
    lemma_config_writes_receive_timeout(c);
    lemma_config_writes_reconnect_interval(c);
    lemma_config_writes_reconnect_interval_max(c);
    lemma_config_writes_send_buffer(c);
    lemma_config_writes_send_highwater_mark(c);
    lemma_config_writes_send_timeout(c);
    lemma_config_writes_immediate(c);
    lemma_config_writes_ipv6(c);
}

/// The values of an optional text setting: its UTF-8 bytes where it is given.
pub open spec fn text_values(value: Option<String>) -> Seq<OptionData> {
    match value {
        Some(t) => seq![OptionData::Bytes(encode_utf8(t@))],
        None => Seq::empty(),
    }
}

/// An optional text setting writes its bytes, where given, to its option only.
pub proof fn lemma_optional_text_values(o: SocketOption, value: Option<String>, option: SocketOption)
    ensures
        written_values(optional_text_writes(o, value), option) == (if o == option { text_values(value) } else { Seq::<OptionData>::empty() }),
{
    if let Some(t) = value {
        lemma_written_values_one((o, OptionData::Bytes(encode_utf8(t@))), option);
    }
}

/// Whether an option is one that a [`SocketConfig`] sets.
pub open spec fn is_socket_config_option(option: SocketOption) -> bool {
    option == SocketOption::ConnectTimeout
        || option == SocketOption::HandshakeInterval
        || option == SocketOption::HeartbeatInterval
        || option == SocketOption::HeartbeatTimeout
        || option == SocketOption::HeartbeatTimeToLive
        || option == SocketOption::Linger
        || option == SocketOption::MaxMessageSize
        || option == SocketOption::ReceiveBuffer
        || option == SocketOption::ReceiveHighWatermark
        || option == SocketOption::ReceiveTimeout
        || option == SocketOption::ReconnectInterval
        || option == SocketOption::ReconnectIntervalMax
        || option == SocketOption::SendBuffer
        || option == SocketOption::SendHighWatermark
        || option == SocketOption::SendTimeout
        || option == SocketOption::Immediate
        || option == SocketOption::IPv6
}

/// A configuration writes nothing to an option that it does not set.
pub proof fn lemma_socket_config_other_options(c: SocketConfig, option: SocketOption)
    requires
        !is_socket_config_option(option),
        !is_mechanism_option(option),
    ensures
        written_values(socket_config_writes(c), option) == Seq::<OptionData>::empty(),
{
    lemma_socket_config_values_split(c, option);
    lemma_optional_int_values(SocketOption::ConnectTimeout, c.connect_timeout, option);
    lemma_optional_int_values(SocketOption::HandshakeInterval, c.handshake_interval, option);
    lemma_optional_int_values(SocketOption::HeartbeatInterval, c.heartbeat_interval, option);
    lemma_optional_int_values(SocketOption::HeartbeatTimeout, c.heartbeat_timeout, option);
    lemma_optional_int_values(SocketOption::HeartbeatTimeToLive, c.heartbeat_timetolive, option);
    lemma_optional_int_values(SocketOption::Linger, c.linger, option);
    lemma_optional_long_values(SocketOption::MaxMessageSize, c.max_message_size, option);
    lemma_optional_int_values(SocketOption::ReceiveBuffer, c.receive_buffer, option);
    lemma_optional_int_values(SocketOption::ReceiveHighWatermark, c.receive_highwater_mark, option);
    lemma_optional_int_values(SocketOption::ReceiveTimeout, c.receive_timeout, option);
    lemma_optional_int_values(SocketOption::ReconnectInterval, c.reconnect_interval, option);
    lemma_optional_int_values(SocketOption::ReconnectIntervalMax, c.reconnect_interval_max, option);
    lemma_optional_int_values(SocketOption::SendBuffer, c.send_buffer, option);
    lemma_optional_int_values(SocketOption::SendHighWatermark, c.send_highwater_mark, option);
    lemma_optional_int_values(SocketOption::SendTimeout, c.send_timeout, option);
    lemma_optional_flag_values(SocketOption::Immediate, c.immediate, option);
    lemma_optional_flag_values(SocketOption::IPv6, c.ipv6, option);
    lemma_mechanism_writes_own_options(c.security_mechanism, option);
    assert(written_values(socket_config_writes(c), option) =~= Seq::<OptionData>::empty());
}

impl SocketConfig {
    /// A configuration that sets nothing.
    pub fn new() -> (c: SocketConfig)
        ensures
            c == unset_socket_config(),
    {
        SocketConfig {
            connect_timeout: None,
            handshake_interval: None,
            heartbeat_interval: None,
            heartbeat_timeout: None,
            heartbeat_timetolive: None,
            linger: None,
            max_message_size: None,
            receive_buffer: None,
            receive_highwater_mark: None,
            receive_timeout: None,
            reconnect_interval: None,
            reconnect_interval_max: None,
            send_buffer: None,
            send_highwater_mark: None,
            send_timeout: None,
            immediate: None,
            ipv6: None,
            security_mechanism: None,
        }
    }

    /// Sets the connect timeout `ZMQ_CONNECT_TIMEOUT`.
    pub fn connect_timeout(self, value: i32) -> (c: SocketConfig)
        ensures
            c == (SocketConfig { connect_timeout: Some(value), ..self }),
    {
        SocketConfig { connect_timeout: Some(value), ..self }
    }

    /// Sets the handshake interval `ZMQ_HANDSHAKE_IVL`.
    pub fn handshake_interval(self, value: i32) -> (c: SocketConfig)
        ensures
            c == (SocketConfig { handshake_interval: Some(value), ..self }),
    {
        SocketConfig { handshake_interval: Some(value), ..self }
    }

    /// Sets the heartbeat interval `ZMQ_HEARTBEAT_IVL`.
    pub fn heartbeat_interval(self, value: i32) -> (c: SocketConfig)
        ensures
            c == (SocketConfig { heartbeat_interval: Some(value), ..self }),
    {
        SocketConfig { heartbeat_interval: Some(value), ..self }
    }

    /// Sets the heartbeat timeout `ZMQ_HEARTBEAT_TIMEOUT`.
    pub fn heartbeat_timeout(self, value: i32) -> (c: SocketConfig)
        ensures
            c == (SocketConfig { heartbeat_timeout: Some(value), ..self }),
    {
        SocketConfig { heartbeat_timeout: Some(value), ..self }
    }

    /// Sets the heartbeat time to live `ZMQ_HEARTBEAT_TTL`.
    pub fn heartbeat_timetolive(self, value: i32) -> (c: SocketConfig)
        ensures
            c == (SocketConfig { heartbeat_timetolive: Some(value), ..self }),
    {
        SocketConfig { heartbeat_timetolive: Some(value), ..self }
    }

    /// Sets the linger period `ZMQ_LINGER`.
    pub fn linger(self, value: i32) -> (c: SocketConfig)
        ensures
            c == (SocketConfig { linger: Some(value), ..self }),
    {
        SocketConfig { linger: Some(value), ..self }
    }

    /// Sets the largest inbound message `ZMQ_MAXMSGSIZE`.
    pub fn max_message_size(self, value: i64) -> (c: SocketConfig)
        ensures
            c == (SocketConfig { max_message_size: Some(value), ..self }),
    {
        SocketConfig { max_message_size: Some(value), ..self }
    }

    /// Sets the kernel receive buffer `ZMQ_RCVBUF`.
    pub fn receive_buffer(self, value: i32) -> (c: SocketConfig)
        ensures
            c == (SocketConfig { receive_buffer: Some(value), ..self }),
    {
        SocketConfig { receive_buffer: Some(value), ..self }
    }

    /// Sets the receive high water mark `ZMQ_RCVHWM`.
    pub fn receive_highwater_mark(self, value: i32) -> (c: SocketConfig)
        ensures
            c == (SocketConfig { receive_highwater_mark: Some(value), ..self }),
    {
        SocketConfig { receive_highwater_mark: Some(value), ..self }
    }

    /// Sets the receive timeout `ZMQ_RCVTIMEO`.
    pub fn receive_timeout(self, value: i32) -> (c: SocketConfig)
        ensures
            c == (SocketConfig { receive_timeout: Some(value), ..self }),
    {
        SocketConfig { receive_timeout: Some(value), ..self }
    }

    /// Sets the reconnect interval `ZMQ_RECONNECT_IVL`.
    pub fn reconnect_interval(self, value: i32) -> (c: SocketConfig)
        ensures
            c == (SocketConfig { reconnect_interval: Some(value), ..self }),
    {
        SocketConfig { reconnect_interval: Some(value), ..self }
    }

    /// Sets the largest reconnect interval `ZMQ_RECONNECT_IVL_MAX`.
    pub fn reconnect_interval_max(self, value: i32) -> (c: SocketConfig)
        ensures
            c == (SocketConfig { reconnect_interval_max: Some(value), ..self }),
    {
        SocketConfig { reconnect_interval_max: Some(value), ..self }
    }

    /// Sets the kernel send buffer `ZMQ_SNDBUF`.
    pub fn send_buffer(self, value: i32) -> (c: SocketConfig)
        ensures
            c == (SocketConfig { send_buffer: Some(value), ..self }),
    {
        SocketConfig { send_buffer: Some(value), ..self }
    }

    /// Sets the send high water mark `ZMQ_SNDHWM`.
    pub fn send_highwater_mark(self, value: i32) -> (c: SocketConfig)
        ensures
            c == (SocketConfig { send_highwater_mark: Some(value), ..self }),
    {
        SocketConfig { send_highwater_mark: Some(value), ..self }
    }

    /// Sets the send timeout `ZMQ_SNDTIMEO`.
    pub fn send_timeout(self, value: i32) -> (c: SocketConfig)
        ensures
            c == (SocketConfig { send_timeout: Some(value), ..self }),
    {
        SocketConfig { send_timeout: Some(value), ..self }
    }

    /// Sets queueing only on completed connections `ZMQ_IMMEDIATE`.
    pub fn immediate(self, value: bool) -> (c: SocketConfig)
        ensures
            c == (SocketConfig { immediate: Some(value), ..self }),
    {
        SocketConfig { immediate: Some(value), ..self }
    }

    /// Sets IPv6 on the socket `ZMQ_IPV6`.
    pub fn ipv6(self, value: bool) -> (c: SocketConfig)
        ensures
            c == (SocketConfig { ipv6: Some(value), ..self }),
    {
        SocketConfig { ipv6: Some(value), ..self }
    }

    /// Sets the security mechanism.
    pub fn security_mechanism(self, value: SecurityMechanism) -> (c: SocketConfig)
        ensures
            c == (SocketConfig { security_mechanism: Some(value), ..self }),
    {
        SocketConfig { security_mechanism: Some(value), ..self }
    }

    /// Appends the writes of the connection settings (see [`connect_writes`]).
    fn push_connect_writes<T: sealed::SocketType>(&self, socket: &Socket<T>, writes: &mut Vec<OptionWrite>)
        ensures
            writes_view(final(writes)@) == writes_view(old(writes)@) + connect_writes(*self),
    {
        let ghost c = *self;
        let ghost start = writes_view(writes@);
        let ghost mut expected: Seq<(SocketOption, OptionData)> = Seq::empty();
        let w = match self.connect_timeout {
            Some(v) => Some(socket.set_connect_timeout(v)),
            None => None,
        };
        assert(optional_write_view(w) =~= optional_int_writes(SocketOption::ConnectTimeout, c.connect_timeout));
        push_write(writes, w);
        proof { expected = expected + optional_int_writes(SocketOption::ConnectTimeout, c.connect_timeout); }
        assert(writes_view(writes@) =~= start + expected);
        let w = match self.handshake_interval {
            Some(v) => Some(socket.set_handshake_ivl(v)),
            None => None,
        };
        assert(optional_write_view(w) =~= optional_int_writes(SocketOption::HandshakeInterval, c.handshake_interval));
        push_write(writes, w);
        proof { expected = expected + optional_int_writes(SocketOption::HandshakeInterval, c.handshake_interval); }
        assert(writes_view(writes@) =~= start + expected);
        let w = match self.heartbeat_interval {
            Some(v) => Some(socket.set_heartbeat_ivl(v)),
            None => None,
        };
        assert(optional_write_view(w) =~= optional_int_writes(SocketOption::HeartbeatInterval, c.heartbeat_interval));
        push_write(writes, w);
        proof { expected = expected + optional_int_writes(SocketOption::HeartbeatInterval, c.heartbeat_interval); }
        assert(writes_view(writes@) =~= start + expected);
        assert(expected =~= connect_writes(c));
    }

    /// Appends the writes of the heartbeat and linger settings (see [`heartbeat_writes`]).
    fn push_heartbeat_writes<T: sealed::SocketType>(&self, socket: &Socket<T>, writes: &mut Vec<OptionWrite>)
        ensures
            writes_view(final(writes)@) == writes_view(old(writes)@) + heartbeat_writes(*self),
    {
        let ghost c = *self;
        let ghost start = writes_view(writes@);
        let ghost mut expected: Seq<(SocketOption, OptionData)> = Seq::empty();
        let w = match self.heartbeat_timeout {
            Some(v) => Some(socket.set_heartbeat_timeout(v)),
            None => None,
        };
        assert(optional_write_view(w) =~= optional_int_writes(SocketOption::HeartbeatTimeout, c.heartbeat_timeout));
        push_write(writes, w);
        proof { expected = expected + optional_int_writes(SocketOption::HeartbeatTimeout, c.heartbeat_timeout); }
        assert(writes_view(writes@) =~= start + expected);
        let w = match self.heartbeat_timetolive {
            Some(v) => Some(socket.set_heartbeat_ttl(v)),
            None => None,
        };
        assert(optional_write_view(w) =~= optional_int_writes(SocketOption::HeartbeatTimeToLive, c.heartbeat_timetolive));
        push_write(writes, w);
        proof { expected = expected + optional_int_writes(SocketOption::HeartbeatTimeToLive, c.heartbeat_timetolive); }
        assert(writes_view(writes@) =~= start + expected);
        let w = match self.linger {
            Some(v) => Some(socket.set_linger(v)),
            None => None,
        };
        assert(optional_write_view(w) =~= optional_int_writes(SocketOption::Linger, c.linger));
        push_write(writes, w);
        proof { expected = expected + optional_int_writes(SocketOption::Linger, c.linger); }
        assert(writes_view(writes@) =~= start + expected);
        assert(expected =~= heartbeat_writes(c));
    }

    /// Appends the writes of the message size and receive settings (see [`receive_writes`]).
    fn push_receive_writes<T: sealed::SocketType>(&self, socket: &Socket<T>, writes: &mut Vec<OptionWrite>)
        ensures
            writes_view(final(writes)@) == writes_view(old(writes)@) + receive_writes(*self),
    {
        let ghost c = *self;
        let ghost start = writes_view(writes@);
        let ghost mut expected: Seq<(SocketOption, OptionData)> = Seq::empty();
        let w = match self.max_message_size {
            Some(v) => Some(socket.set_maxmsgsize(v)),
            None => None,
        };
        assert(optional_write_view(w) =~= optional_long_writes(SocketOption::MaxMessageSize, c.max_message_size));
        push_write(writes, w);
        proof { expected = expected + optional_long_writes(SocketOption::MaxMessageSize, c.max_message_size); }
        assert(writes_view(writes@) =~= start + expected);
        let w = match self.receive_buffer {
            Some(v) => Some(socket.set_receive_buffer(v)),
            None => None,
        };
        assert(optional_write_view(w) =~= optional_int_writes(SocketOption::ReceiveBuffer, c.receive_buffer));
        push_write(writes, w);
        proof { expected = expected + optional_int_writes(SocketOption::ReceiveBuffer, c.receive_buffer); }
        assert(writes_view(writes@) =~= start + expected);
        let w = match self.receive_highwater_mark {
            Some(v) => Some(socket.set_receive_highwater_mark(v)),
            None => None,
        };
        assert(optional_write_view(w) =~= optional_int_writes(SocketOption::ReceiveHighWatermark, c.receive_highwater_mark));
        push_write(writes, w);
        proof { expected = expected + optional_int_writes(SocketOption::ReceiveHighWatermark, c.receive_highwater_mark); }
        assert(writes_view(writes@) =~= start + expected);
        let w = match self.receive_timeout {
            Some(v) => Some(socket.set_receive_timeout(v)),
            None => None,
        };
        assert(optional_write_view(w) =~= optional_int_writes(SocketOption::ReceiveTimeout, c.receive_timeout));
        push_write(writes, w);
        proof { expected = expected + optional_int_writes(SocketOption::ReceiveTimeout, c.receive_timeout); }
        assert(writes_view(writes@) =~= start + expected);
        assert(expected =~= receive_writes(c));
    }

    /// Appends the writes of the reconnect settings (see [`reconnect_writes`]).
    fn push_reconnect_writes<T: sealed::SocketType>(&self, socket: &Socket<T>, writes: &mut Vec<OptionWrite>)
        ensures
            writes_view(final(writes)@) == writes_view(old(writes)@) + reconnect_writes(*self),
    {
        let ghost c = *self;
        let ghost start = writes_view(writes@);
        let ghost mut expected: Seq<(SocketOption, OptionData)> = Seq::empty();
        let w = match self.reconnect_interval {
            Some(v) => Some(socket.set_reconnect_interval(v)),
            None => None,
        };
        assert(optional_write_view(w) =~= optional_int_writes(SocketOption::ReconnectInterval, c.reconnect_interval));
        push_write(writes, w);
        proof { expected = expected + optional_int_writes(SocketOption::ReconnectInterval, c.reconnect_interval); }
        assert(writes_view(writes@) =~= start + expected);
        let w = match self.reconnect_interval_max {
            Some(v) => Some(socket.set_reconnect_interval_max(v)),
            None => None,
        };
        assert(optional_write_view(w) =~= optional_int_writes(SocketOption::ReconnectIntervalMax, c.reconnect_interval_max));
        push_write(writes, w);
        proof { expected = expected + optional_int_writes(SocketOption::ReconnectIntervalMax, c.reconnect_interval_max); }
        assert(writes_view(writes@) =~= start + expected);
        assert(expected =~= reconnect_writes(c));
    }

    /// Appends the writes of the send settings, and whether to queue on unfinished connections and to use IPv6 (see [`send_writes`]).
    fn push_send_writes<T: sealed::SocketType>(&self, socket: &Socket<T>, writes: &mut Vec<OptionWrite>)
        ensures
            writes_view(final(writes)@) == writes_view(old(writes)@) + send_writes(*self),
    {
        let ghost c = *self;
        let ghost start = writes_view(writes@);
        let ghost mut expected: Seq<(SocketOption, OptionData)> = Seq::empty();
        let w = match self.send_buffer {
            Some(v) => Some(socket.set_send_buffer(v)),
            None => None,
        };
        assert(optional_write_view(w) =~= optional_int_writes(SocketOption::SendBuffer, c.send_buffer));
        push_write(writes, w);
        proof { expected = expected + optional_int_writes(SocketOption::SendBuffer, c.send_buffer); }
        assert(writes_view(writes@) =~= start + expected);
        let w = match self.send_highwater_mark {
            Some(v) => Some(socket.set_send_highwater_mark(v)),
            None => None,
        };
        assert(optional_write_view(w) =~= optional_int_writes(SocketOption::SendHighWatermark, c.send_highwater_mark));
        push_write(writes, w);
        proof { expected = expected + optional_int_writes(SocketOption::SendHighWatermark, c.send_highwater_mark); }
        assert(writes_view(writes@) =~= start + expected);
        let w = match self.send_timeout {
            Some(v) => Some(socket.set_send_timeout(v)),
            None => None,
        };
        assert(optional_write_view(w) =~= optional_int_writes(SocketOption::SendTimeout, c.send_timeout));
        push_write(writes, w);
        proof { expected = expected + optional_int_writes(SocketOption::SendTimeout, c.send_timeout); }
        assert(writes_view(writes@) =~= start + expected);
        let w = match self.immediate {
            Some(v) => Some(socket.set_immediate(v)),
            None => None,
        };
        assert(optional_write_view(w) =~= optional_flag_writes(SocketOption::Immediate, c.immediate));
        push_write(writes, w);
        proof { expected = expected + optional_flag_writes(SocketOption::Immediate, c.immediate); }
        assert(writes_view(writes@) =~= start + expected);
        let w = match self.ipv6 {
            Some(v) => Some(socket.set_ipv6(v)),
            None => None,
        };
        assert(optional_write_view(w) =~= optional_flag_writes(SocketOption::IPv6, c.ipv6));
        push_write(writes, w);
        proof { expected = expected + optional_flag_writes(SocketOption::IPv6, c.ipv6); }
        assert(writes_view(writes@) =~= start + expected);
        assert(expected =~= send_writes(c));
    }

    /// The writes that apply this configuration to `socket` (see [`socket_config_writes`]).
    pub fn apply<T: sealed::SocketType>(&self, socket: &Socket<T>) -> (writes: Vec<OptionWrite>)
        ensures
            writes_view(writes@) == socket_config_writes(*self),
    {
        let ghost c = *self;
        let mut writes: Vec<OptionWrite> = Vec::new();
        assert(writes_view(writes@) =~= Seq::<(SocketOption, OptionData)>::empty());
        self.push_connect_writes(socket, &mut writes);
        self.push_heartbeat_writes(socket, &mut writes);
        self.push_receive_writes(socket, &mut writes);
        self.push_reconnect_writes(socket, &mut writes);
        self.push_send_writes(socket, &mut writes);
        let mechanism_writes = match &self.security_mechanism {
            Some(m) => socket.set_security_mechanism(m),
            None => Vec::new(),
        };
        assert(writes_view(mechanism_writes@) =~= optional_mechanism_writes(c.security_mechanism));
        append_writes(&mut writes, mechanism_writes);
        assert(writes_view(writes@) =~= socket_config_writes(c));
        writes
    }
}

} // verus!

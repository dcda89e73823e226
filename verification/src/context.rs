//! The 0MQ context: its options, and the builder that sets them.
use vstd::prelude::*;
use vstd::string::{StrSliceExecFns, StringSliceAdditionalSpecFns};

use crate::option::{flag_int, flag_value, holds_bytes, OptionValue, ValueKind};

verus! {

/// Options that can be set on, or read from, a 0MQ [`Context`].
#[derive(Debug, Clone, Copy, PartialEq, Eq, Hash, Structural)]
#[non_exhaustive]
pub enum ContextOption {
    /// Number of I/O threads on the context `ZMQ_IO_THREADS`
    IoThreads,
    /// Maximum number of sockets on the context `ZMQ_MAX_SOCKETS`
    MaxSockets,
    /// Scheduling priority of the I/O threads `ZMQ_THREAD_PRIORITY`
    ThreadPriority,
    /// Scheduling policy of the I/O threads `ZMQ_THREAD_SCHED_POLICY`
    ThreadSchedulingPolicy,
    /// Maximum message size `ZMQ_MAX_MSGSZ`
    MaxMessageSize,
    /// Adds a CPU to the affinity of the I/O threads `ZMQ_THREAD_AFFINITY_CPU_ADD`
    ThreadAffinityCPUAdd,
    /// Removes a CPU from the affinity of the I/O threads `ZMQ_THREAD_AFFINITY_CPU_REMOVE`
    ThreadAffinityCPURemove,
    /// Name prefix of the I/O threads `ZMQ_THREAD_NAME_PREFIX`
    ThreadNamePrefix,
    /// Message decoding strategy `ZMQ_ZERO_COPY_RECV`
    ZeroCopyReceiving,
    /// IPv6 support `ZMQ_IPV6`
    IPv6,
    /// Blocky behaviour on termination `ZMQ_BLOCKY`
    Blocky,
    /// Largest number of sockets that can be allowed `ZMQ_SOCKET_LIMIT`
    SocketLimit,
}

/// The number by which the runtime knows a context option.
pub open spec fn context_option_code(option: ContextOption) -> i32 {
    match option {
        ContextOption::IoThreads => 1,
        ContextOption::MaxSockets => 2,
        ContextOption::ThreadPriority => 3,
        ContextOption::ThreadSchedulingPolicy => 4,
        ContextOption::MaxMessageSize => 5,
        ContextOption::ThreadAffinityCPUAdd => 7,
        ContextOption::ThreadAffinityCPURemove => 8,
        ContextOption::ThreadNamePrefix => 9,
        ContextOption::ZeroCopyReceiving => 10,
        ContextOption::IPv6 => 42,
        ContextOption::Blocky => 70,
        ContextOption::SocketLimit => 3,
    }
}

impl From<ContextOption> for i32 {
    fn from(value: ContextOption) -> (code: i32) {
        match value {
            ContextOption::IoThreads => 1,
            ContextOption::MaxSockets => 2,
            ContextOption::ThreadPriority => 3,
            ContextOption::ThreadSchedulingPolicy => 4,
            ContextOption::MaxMessageSize => 5,
            ContextOption::ThreadAffinityCPUAdd => 7,
            ContextOption::ThreadAffinityCPURemove => 8,
            ContextOption::ThreadNamePrefix => 9,
            ContextOption::ZeroCopyReceiving => 10,
            ContextOption::IPv6 => 42,
            ContextOption::Blocky => 70,
            ContextOption::SocketLimit => 3,
        }
    }
}

impl vstd::std_specs::convert::FromSpecImpl<ContextOption> for i32 {
    open spec fn obeys_from_spec() -> bool {
        true
    }

    open spec fn from_spec(value: ContextOption) -> i32 {
        context_option_code(value)
    }
}

/// Context options have different numbers, but for `ZMQ_SOCKET_LIMIT` and
/// `ZMQ_THREAD_PRIORITY`, which the runtime numbers alike (one is only read, the other only
/// written).
pub proof fn lemma_context_option_codes(a: ContextOption, b: ContextOption)
    requires
        a != b,
    ensures
        context_option_code(a) == context_option_code(b) <==> (
            (a == ContextOption::SocketLimit && b == ContextOption::ThreadPriority)
            || (a == ContextOption::ThreadPriority && b == ContextOption::SocketLimit)),
{
}

/// A write of a context option.
#[derive(Debug, Clone, PartialEq, Eq)]
pub struct ContextWrite {
    pub option: ContextOption,
    pub value: OptionValue,
}

/// A read of a context option.
#[derive(Debug, Clone, Copy, PartialEq, Eq, Structural)]
pub struct ContextRead {
    pub option: ContextOption,
    pub kind: ValueKind,
}

/// The 0MQ context: it keeps the sockets and runs the I/O threads. This type decides the
/// writes and reads of the context's options.
#[derive(Debug, Clone, Copy, PartialEq, Eq, Structural)]
pub struct Context {}

impl Context {
    /// A new context.
    pub fn new() -> (c: Context)
        ensures
            c == (Context {}),
    {
        Context {}
    }

    /// Sets a flag option: `true` as `1`, `false` as `0`.
    pub fn set_option_bool(&self, option: ContextOption, value: bool) -> (w: ContextWrite)
        ensures
            w == (ContextWrite { option, value: OptionValue::Int(flag_int(value)) }),
    {
        ContextWrite { option, value: flag_value(value) }
    }

    /// Sets an integer option.
    pub fn set_option_int(&self, option: ContextOption, value: i32) -> (w: ContextWrite)
        ensures
            w == (ContextWrite { option, value: OptionValue::Int(value) }),
    {
        ContextWrite { option, value: OptionValue::Int(value) }
    }

    /// Sets a character option to the UTF-8 bytes of `value`.
    pub fn set_option_string(&self, option: ContextOption, value: &str) -> (w: ContextWrite)
        ensures
            w.option == option,
            holds_bytes(w.value, value.spec_bytes()),
    {
        ContextWrite { option, value: OptionValue::Bytes(value.as_bytes_vec()) }
    }

    /// Reads a flag option (see [`crate::option::bool_value`]).
    pub fn get_option_bool(&self, option: ContextOption) -> (r: ContextRead)
        ensures
            r == (ContextRead { option, kind: ValueKind::Int }),
    {
        ContextRead { option, kind: ValueKind::Int }
    }

    /// Reads an integer option (see [`crate::option::int_value`]).
    pub fn get_option_int(&self, option: ContextOption) -> (r: ContextRead)
        ensures
            r == (ContextRead { option, kind: ValueKind::Int }),
    {
        ContextRead { option, kind: ValueKind::Int }
    }

    /// Reads a character option (see [`crate::option::string_value`]).
    pub fn get_option_string(&self, option: ContextOption) -> (r: ContextRead)
        ensures
            r == (ContextRead { option, kind: ValueKind::Bytes }),
    {
        ContextRead { option, kind: ValueKind::Bytes }
    }

    /// Sets whether dropping the context blocks `ZMQ_BLOCKY`; without it new sockets get a linger of zero.
    pub fn set_blocky(&self, value: bool) -> (w: ContextWrite)
        ensures
            w == (ContextWrite { option: ContextOption::Blocky, value: OptionValue::Int(flag_int(value)) }),
    {
        self.set_option_bool(ContextOption::Blocky, value)
    }

    /// Reads whether dropping the context blocks `ZMQ_BLOCKY`.
    pub fn blocky(&self) -> (r: ContextRead)
        ensures
            r == (ContextRead { option: ContextOption::Blocky, kind: ValueKind::Int }),
    {
        self.get_option_bool(ContextOption::Blocky)
    }

    /// Sets the number of I/O threads `ZMQ_IO_THREADS`.
    pub fn set_io_threads(&self, value: i32) -> (w: ContextWrite)
        ensures
            w == (ContextWrite { option: ContextOption::IoThreads, value: OptionValue::Int(value) }),
    {
        self.set_option_int(ContextOption::IoThreads, value)
    }

    /// Reads the number of I/O threads `ZMQ_IO_THREADS`.
    pub fn io_threads(&self) -> (r: ContextRead)
        ensures
            r == (ContextRead { option: ContextOption::IoThreads, kind: ValueKind::Int }),
    {
        self.get_option_int(ContextOption::IoThreads)
    }

    /// Sets the maximum message size `ZMQ_MAX_MSGSZ`.
    pub fn set_max_message_size(&self, value: i32) -> (w: ContextWrite)
        ensures
            w == (ContextWrite { option: ContextOption::MaxMessageSize, value: OptionValue::Int(value) }),
    {
        self.set_option_int(ContextOption::MaxMessageSize, value)
    }

    /// Reads the maximum message size `ZMQ_MAX_MSGSZ`.
    pub fn max_message_size(&self) -> (r: ContextRead)
        ensures
            r == (ContextRead { option: ContextOption::MaxMessageSize, kind: ValueKind::Int }),
    {
        self.get_option_int(ContextOption::MaxMessageSize)
    }

    /// Sets the maximum number of sockets `ZMQ_MAX_SOCKETS`.
    pub fn set_max_sockets(&self, value: i32) -> (w: ContextWrite)
        ensures
            w == (ContextWrite { option: ContextOption::MaxSockets, value: OptionValue::Int(value) }),
    {
        self.set_option_int(ContextOption::MaxSockets, value)
    }

    /// Reads the maximum number of sockets `ZMQ_MAX_SOCKETS`.
    pub fn max_sockets(&self) -> (r: ContextRead)
        ensures
            r == (ContextRead { option: ContextOption::MaxSockets, kind: ValueKind::Int }),
    {
        self.get_option_int(ContextOption::MaxSockets)
    }

    /// Sets IPv6 for the sockets created from now on `ZMQ_IPV6`.
    pub fn set_ipv6(&self, value: bool) -> (w: ContextWrite)
        ensures
            w == (ContextWrite { option: ContextOption::IPv6, value: OptionValue::Int(flag_int(value)) }),
    {
        self.set_option_bool(ContextOption::IPv6, value)
    }

    /// Reads the IPv6 setting `ZMQ_IPV6`.
    pub fn ipv6(&self) -> (r: ContextRead)
        ensures
            r == (ContextRead { option: ContextOption::IPv6, kind: ValueKind::Int }),
    {
        self.get_option_bool(ContextOption::IPv6)
    }

    /// Sets whether the message decoder copies nothing `ZMQ_ZERO_COPY_RECV`.
    pub fn set_zero_copy_receiving(&self, value: bool) -> (w: ContextWrite)
        ensures
            w == (ContextWrite { option: ContextOption::ZeroCopyReceiving, value: OptionValue::Int(flag_int(value)) }),
    {
        self.set_option_bool(ContextOption::ZeroCopyReceiving, value)
    }

    /// Reads whether the message decoder copies nothing `ZMQ_ZERO_COPY_RECV`.
    pub fn zero_copy_receiving(&self) -> (r: ContextRead)
        ensures
            r == (ContextRead { option: ContextOption::ZeroCopyReceiving, kind: ValueKind::Int }),
    {
        self.get_option_bool(ContextOption::ZeroCopyReceiving)
    }

    /// Reads the largest number of sockets that [`set_max_sockets`](Context::set_max_sockets)
    /// accepts `ZMQ_SOCKET_LIMIT`.
    pub fn socket_limit(&self) -> (r: ContextRead)
        ensures
            r == (ContextRead { option: ContextOption::SocketLimit, kind: ValueKind::Int }),
    {
        self.get_option_int(ContextOption::SocketLimit)
    }
}

/// Builder for [`Context`]: each option that is given is written when the builder is
/// applied.
#[derive(Debug, Clone, Copy, Default, PartialEq, Eq, Hash, Structural)]
pub struct ContextBuilder {
    pub blocky: Option<bool>,
    pub io_threads: Option<i32>,
    pub max_message_size: Option<i32>,
    pub zero_copy_receiving: Option<bool>,
    pub max_sockets: Option<i32>,
    pub ipv6: Option<bool>,
}

/// The write of an optional flag option: none where the flag is not given.
pub open spec fn optional_flag_write(option: ContextOption, value: Option<bool>) -> Seq<ContextWrite> {
    match value {
        Some(v) => seq![ContextWrite { option, value: OptionValue::Int(flag_int(v)) }],
        None => Seq::empty(),
    }
}

/// The write of an optional integer option: none where the value is not given.
pub open spec fn optional_int_write(option: ContextOption, value: Option<i32>) -> Seq<ContextWrite> {
    match value {
        Some(v) => seq![ContextWrite { option, value: OptionValue::Int(v) }],
        None => Seq::empty(),
    }
}

/// The writes of a context builder, in the order in which they are made: blocky, I/O
/// threads, maximum message size, maximum sockets, IPv6, zero-copy receiving.
pub open spec fn context_builder_writes(b: ContextBuilder) -> Seq<ContextWrite> {
    optional_flag_write(ContextOption::Blocky, b.blocky)
        + optional_int_write(ContextOption::IoThreads, b.io_threads)
        + optional_int_write(ContextOption::MaxMessageSize, b.max_message_size)
        + optional_int_write(ContextOption::MaxSockets, b.max_sockets)
        + optional_flag_write(ContextOption::IPv6, b.ipv6)
        + optional_flag_write(ContextOption::ZeroCopyReceiving, b.zero_copy_receiving)
}

/// The values written to `option` by the context writes `ws`, in order.
pub open spec fn context_written_values(ws: Seq<ContextWrite>, option: ContextOption) -> Seq<OptionValue>
    decreases ws.len(),
{
    if ws.len() == 0 {
        Seq::empty()
    } else if ws.last().option == option {
        context_written_values(ws.drop_last(), option).push(ws.last().value)
    } else {
        context_written_values(ws.drop_last(), option)
    }
}

/// The values of an optional C `int` context setting: the one value where it is given.
pub open spec fn context_int_values(value: Option<i32>) -> Seq<OptionValue> {
    match value {
        Some(v) => seq![OptionValue::Int(v)],
        None => Seq::empty(),
    }
}

/// The values of an optional context flag: `1` or `0` where it is given.
pub open spec fn context_flag_values(value: Option<bool>) -> Seq<OptionValue> {
    match value {
        Some(v) => seq![OptionValue::Int(flag_int(v))],
        None => Seq::empty(),
    }
}

proof fn lemma_context_written_values_add(a: Seq<ContextWrite>, b: Seq<ContextWrite>, option: ContextOption)
    ensures
        context_written_values(a + b, option) == context_written_values(a, option) + context_written_values(b, option),
    decreases b.len(),
{
    if b.len() == 0 {
        assert(a + b =~= a);
        assert(context_written_values(a, option) + context_written_values(b, option) =~= context_written_values(a, option));
    } else {
        lemma_context_written_values_add(a, b.drop_last(), option);
        assert((a + b).drop_last() =~= a + b.drop_last());
        assert((a + b).last() == b.last());
        assert(context_written_values(a, option) + context_written_values(b.drop_last(), option).push(b.last().value)
            =~= (context_written_values(a, option) + context_written_values(b.drop_last(), option)).push(b.last().value));
    }
}

proof fn lemma_context_written_values_one(w: ContextWrite, option: ContextOption)
    ensures
        context_written_values(seq![w], option) == (if w.option == option { seq![w.value] } else { Seq::<OptionValue>::empty() }),
{
    assert(seq![w].drop_last() =~= Seq::<ContextWrite>::empty());
    assert(seq![w].last() == w);
    assert(context_written_values(Seq::<ContextWrite>::empty(), option) == Seq::<OptionValue>::empty());
    assert(Seq::<OptionValue>::empty().push(w.value) =~= seq![w.value]);
}

proof fn lemma_optional_context_int_values(o: ContextOption, value: Option<i32>, option: ContextOption)
    ensures
        context_written_values(optional_int_write(o, value), option) == (if o == option { context_int_values(value) } else { Seq::<OptionValue>::empty() }),
{
    if let Some(v) = value {
        lemma_context_written_values_one(ContextWrite { option: o, value: OptionValue::Int(v) }, option);
    }
}

proof fn lemma_optional_context_flag_values(o: ContextOption, value: Option<bool>, option: ContextOption)
    ensures
        context_written_values(optional_flag_write(o, value), option) == (if o == option { context_flag_values(value) } else { Seq::<OptionValue>::empty() }),
{
    if let Some(v) = value {
        lemma_context_written_values_one(ContextWrite { option: o, value: OptionValue::Int(flag_int(v)) }, option);
    }
}

proof fn lemma_context_builder_writes_blocky(b: ContextBuilder)
    ensures
        context_written_values(context_builder_writes(b), ContextOption::Blocky) == context_flag_values(b.blocky),
{
    lemma_context_written_values_add(optional_flag_write(ContextOption::Blocky, b.blocky), optional_int_write(ContextOption::IoThreads, b.io_threads), ContextOption::Blocky);
    lemma_context_written_values_add(optional_flag_write(ContextOption::Blocky, b.blocky) + optional_int_write(ContextOption::IoThreads, b.io_threads), optional_int_write(ContextOption::MaxMessageSize, b.max_message_size), ContextOption::Blocky);
    lemma_context_written_values_add(optional_flag_write(ContextOption::Blocky, b.blocky) + optional_int_write(ContextOption::IoThreads, b.io_threads) + optional_int_write(ContextOption::MaxMessageSize, b.max_message_size), optional_int_write(ContextOption::MaxSockets, b.max_sockets), ContextOption::Blocky);
    lemma_context_written_values_add(optional_flag_write(ContextOption::Blocky, b.blocky) + optional_int_write(ContextOption::IoThreads, b.io_threads) + optional_int_write(ContextOption::MaxMessageSize, b.max_message_size) + optional_int_write(ContextOption::MaxSockets, b.max_sockets), optional_flag_write(ContextOption::IPv6, b.ipv6), ContextOption::Blocky);
    lemma_context_written_values_add(optional_flag_write(ContextOption::Blocky, b.blocky) + optional_int_write(ContextOption::IoThreads, b.io_threads) + optional_int_write(ContextOption::MaxMessageSize, b.max_message_size) + optional_int_write(ContextOption::MaxSockets, b.max_sockets) + optional_flag_write(ContextOption::IPv6, b.ipv6), optional_flag_write(ContextOption::ZeroCopyReceiving, b.zero_copy_receiving), ContextOption::Blocky);
    lemma_optional_context_flag_values(ContextOption::Blocky, b.blocky, ContextOption::Blocky);
    lemma_optional_context_int_values(ContextOption::IoThreads, b.io_threads, ContextOption::Blocky);
    lemma_optional_context_int_values(ContextOption::MaxMessageSize, b.max_message_size, ContextOption::Blocky);
    lemma_optional_context_int_values(ContextOption::MaxSockets, b.max_sockets, ContextOption::Blocky);
    lemma_optional_context_flag_values(ContextOption::IPv6, b.ipv6, ContextOption::Blocky);
    lemma_optional_context_flag_values(ContextOption::ZeroCopyReceiving, b.zero_copy_receiving, ContextOption::Blocky);
    assert(context_written_values(context_builder_writes(b), ContextOption::Blocky) =~= context_flag_values(b.blocky));
}

proof fn lemma_context_builder_writes_io_threads(b: ContextBuilder)
    ensures
        context_written_values(context_builder_writes(b), ContextOption::IoThreads) == context_int_values(b.io_threads),
{
    lemma_context_written_values_add(optional_flag_write(ContextOption::Blocky, b.blocky), optional_int_write(ContextOption::IoThreads, b.io_threads), ContextOption::IoThreads);
    lemma_context_written_values_add(optional_flag_write(ContextOption::Blocky, b.blocky) + optional_int_write(ContextOption::IoThreads, b.io_threads), optional_int_write(ContextOption::MaxMessageSize, b.max_message_size), ContextOption::IoThreads);
    lemma_context_written_values_add(optional_flag_write(ContextOption::Blocky, b.blocky) + optional_int_write(ContextOption::IoThreads, b.io_threads) + optional_int_write(ContextOption::MaxMessageSize, b.max_message_size), optional_int_write(ContextOption::MaxSockets, b.max_sockets), ContextOption::IoThreads);
    lemma_context_written_values_add(optional_flag_write(ContextOption::Blocky, b.blocky) + optional_int_write(ContextOption::IoThreads, b.io_threads) + optional_int_write(ContextOption::MaxMessageSize, b.max_message_size) + optional_int_write(ContextOption::MaxSockets, b.max_sockets), optional_flag_write(ContextOption::IPv6, b.ipv6), ContextOption::IoThreads);
    lemma_context_written_values_add(optional_flag_write(ContextOption::Blocky, b.blocky) + optional_int_write(ContextOption::IoThreads, b.io_threads) + optional_int_write(ContextOption::MaxMessageSize, b.max_message_size) + optional_int_write(ContextOption::MaxSockets, b.max_sockets) + optional_flag_write(ContextOption::IPv6, b.ipv6), optional_flag_write(ContextOption::ZeroCopyReceiving, b.zero_copy_receiving), ContextOption::IoThreads);
    lemma_optional_context_flag_values(ContextOption::Blocky, b.blocky, ContextOption::IoThreads);
    lemma_optional_context_int_values(ContextOption::IoThreads, b.io_threads, ContextOption::IoThreads);
    lemma_optional_context_int_values(ContextOption::MaxMessageSize, b.max_message_size, ContextOption::IoThreads);
    lemma_optional_context_int_values(ContextOption::MaxSockets, b.max_sockets, ContextOption::IoThreads);
    lemma_optional_context_flag_values(ContextOption::IPv6, b.ipv6, ContextOption::IoThreads);
    lemma_optional_context_flag_values(ContextOption::ZeroCopyReceiving, b.zero_copy_receiving, ContextOption::IoThreads);
    assert(context_written_values(context_builder_writes(b), ContextOption::IoThreads) =~= context_int_values(b.io_threads));
}

proof fn lemma_context_builder_writes_max_message_size(b: ContextBuilder)
    ensures
        context_written_values(context_builder_writes(b), ContextOption::MaxMessageSize) == context_int_values(b.max_message_size),
{
    lemma_context_written_values_add(optional_flag_write(ContextOption::Blocky, b.blocky), optional_int_write(ContextOption::IoThreads, b.io_threads), ContextOption::MaxMessageSize);
    lemma_context_written_values_add(optional_flag_write(ContextOption::Blocky, b.blocky) + optional_int_write(ContextOption::IoThreads, b.io_threads), optional_int_write(ContextOption::MaxMessageSize, b.max_message_size), ContextOption::MaxMessageSize);
    lemma_context_written_values_add(optional_flag_write(ContextOption::Blocky, b.blocky) + optional_int_write(ContextOption::IoThreads, b.io_threads) + optional_int_write(ContextOption::MaxMessageSize, b.max_message_size), optional_int_write(ContextOption::MaxSockets, b.max_sockets), ContextOption::MaxMessageSize);
    lemma_context_written_values_add(optional_flag_write(ContextOption::Blocky, b.blocky) + optional_int_write(ContextOption::IoThreads, b.io_threads) + optional_int_write(ContextOption::MaxMessageSize, b.max_message_size) + optional_int_write(ContextOption::MaxSockets, b.max_sockets), optional_flag_write(ContextOption::IPv6, b.ipv6), ContextOption::MaxMessageSize);
    lemma_context_written_values_add(optional_flag_write(ContextOption::Blocky, b.blocky) + optional_int_write(ContextOption::IoThreads, b.io_threads) + optional_int_write(ContextOption::MaxMessageSize, b.max_message_size) + optional_int_write(ContextOption::MaxSockets, b.max_sockets) + optional_flag_write(ContextOption::IPv6, b.ipv6), optional_flag_write(ContextOption::ZeroCopyReceiving, b.zero_copy_receiving), ContextOption::MaxMessageSize);
    lemma_optional_context_flag_values(ContextOption::Blocky, b.blocky, ContextOption::MaxMessageSize);
    lemma_optional_context_int_values(ContextOption::IoThreads, b.io_threads, ContextOption::MaxMessageSize);
    lemma_optional_context_int_values(ContextOption::MaxMessageSize, b.max_message_size, ContextOption::MaxMessageSize);
    lemma_optional_context_int_values(ContextOption::MaxSockets, b.max_sockets, ContextOption::MaxMessageSize);
    lemma_optional_context_flag_values(ContextOption::IPv6, b.ipv6, ContextOption::MaxMessageSize);
    lemma_optional_context_flag_values(ContextOption::ZeroCopyReceiving, b.zero_copy_receiving, ContextOption::MaxMessageSize);
    assert(context_written_values(context_builder_writes(b), ContextOption::MaxMessageSize) =~= context_int_values(b.max_message_size));
}

proof fn lemma_context_builder_writes_max_sockets(b: ContextBuilder)
    ensures
        context_written_values(context_builder_writes(b), ContextOption::MaxSockets) == context_int_values(b.max_sockets),
{
    lemma_context_written_values_add(optional_flag_write(ContextOption::Blocky, b.blocky), optional_int_write(ContextOption::IoThreads, b.io_threads), ContextOption::MaxSockets);
    lemma_context_written_values_add(optional_flag_write(ContextOption::Blocky, b.blocky) + optional_int_write(ContextOption::IoThreads, b.io_threads), optional_int_write(ContextOption::MaxMessageSize, b.max_message_size), ContextOption::MaxSockets);
    lemma_context_written_values_add(optional_flag_write(ContextOption::Blocky, b.blocky) + optional_int_write(ContextOption::IoThreads, b.io_threads) + optional_int_write(ContextOption::MaxMessageSize, b.max_message_size), optional_int_write(ContextOption::MaxSockets, b.max_sockets), ContextOption::MaxSockets);
    lemma_context_written_values_add(optional_flag_write(ContextOption::Blocky, b.blocky) + optional_int_write(ContextOption::IoThreads, b.io_threads) + optional_int_write(ContextOption::MaxMessageSize, b.max_message_size) + optional_int_write(ContextOption::MaxSockets, b.max_sockets), optional_flag_write(ContextOption::IPv6, b.ipv6), ContextOption::MaxSockets);
    lemma_context_written_values_add(optional_flag_write(ContextOption::Blocky, b.blocky) + optional_int_write(ContextOption::IoThreads, b.io_threads) + optional_int_write(ContextOption::MaxMessageSize, b.max_message_size) + optional_int_write(ContextOption::MaxSockets, b.max_sockets) + optional_flag_write(ContextOption::IPv6, b.ipv6), optional_flag_write(ContextOption::ZeroCopyReceiving, b.zero_copy_receiving), ContextOption::MaxSockets);
    lemma_optional_context_flag_values(ContextOption::Blocky, b.blocky, ContextOption::MaxSockets);
    lemma_optional_context_int_values(ContextOption::IoThreads, b.io_threads, ContextOption::MaxSockets);
    lemma_optional_context_int_values(ContextOption::MaxMessageSize, b.max_message_size, ContextOption::MaxSockets);
    lemma_optional_context_int_values(ContextOption::MaxSockets, b.max_sockets, ContextOption::MaxSockets);
    lemma_optional_context_flag_values(ContextOption::IPv6, b.ipv6, ContextOption::MaxSockets);
    lemma_optional_context_flag_values(ContextOption::ZeroCopyReceiving, b.zero_copy_receiving, ContextOption::MaxSockets);
    assert(context_written_values(context_builder_writes(b), ContextOption::MaxSockets) =~= context_int_values(b.max_sockets));
}

proof fn lemma_context_builder_writes_ipv6(b: ContextBuilder)
    ensures
        context_written_values(context_builder_writes(b), ContextOption::IPv6) == context_flag_values(b.ipv6),
{
    lemma_context_written_values_add(optional_flag_write(ContextOption::Blocky, b.blocky), optional_int_write(ContextOption::IoThreads, b.io_threads), ContextOption::IPv6);
    lemma_context_written_values_add(optional_flag_write(ContextOption::Blocky, b.blocky) + optional_int_write(ContextOption::IoThreads, b.io_threads), optional_int_write(ContextOption::MaxMessageSize, b.max_message_size), ContextOption::IPv6);
    lemma_context_written_values_add(optional_flag_write(ContextOption::Blocky, b.blocky) + optional_int_write(ContextOption::IoThreads, b.io_threads) + optional_int_write(ContextOption::MaxMessageSize, b.max_message_size), optional_int_write(ContextOption::MaxSockets, b.max_sockets), ContextOption::IPv6);
    lemma_context_written_values_add(optional_flag_write(ContextOption::Blocky, b.blocky) + optional_int_write(ContextOption::IoThreads, b.io_threads) + optional_int_write(ContextOption::MaxMessageSize, b.max_message_size) + optional_int_write(ContextOption::MaxSockets, b.max_sockets), optional_flag_write(ContextOption::IPv6, b.ipv6), ContextOption::IPv6);
    lemma_context_written_values_add(optional_flag_write(ContextOption::Blocky, b.blocky) + optional_int_write(ContextOption::IoThreads, b.io_threads) + optional_int_write(ContextOption::MaxMessageSize, b.max_message_size) + optional_int_write(ContextOption::MaxSockets, b.max_sockets) + optional_flag_write(ContextOption::IPv6, b.ipv6), optional_flag_write(ContextOption::ZeroCopyReceiving, b.zero_copy_receiving), ContextOption::IPv6);
    lemma_optional_context_flag_values(ContextOption::Blocky, b.blocky, ContextOption::IPv6);
    lemma_optional_context_int_values(ContextOption::IoThreads, b.io_threads, ContextOption::IPv6);
    lemma_optional_context_int_values(ContextOption::MaxMessageSize, b.max_message_size, ContextOption::IPv6);
    lemma_optional_context_int_values(ContextOption::MaxSockets, b.max_sockets, ContextOption::IPv6);
    lemma_optional_context_flag_values(ContextOption::IPv6, b.ipv6, ContextOption::IPv6);
    lemma_optional_context_flag_values(ContextOption::ZeroCopyReceiving, b.zero_copy_receiving, ContextOption::IPv6);
    assert(context_written_values(context_builder_writes(b), ContextOption::IPv6) =~= context_flag_values(b.ipv6));
}

proof fn lemma_context_builder_writes_zero_copy_receiving(b: ContextBuilder)
    ensures
        context_written_values(context_builder_writes(b), ContextOption::ZeroCopyReceiving) == context_flag_values(b.zero_copy_receiving),
{
    lemma_context_written_values_add(optional_flag_write(ContextOption::Blocky, b.blocky), optional_int_write(ContextOption::IoThreads, b.io_threads), ContextOption::ZeroCopyReceiving);
    lemma_context_written_values_add(optional_flag_write(ContextOption::Blocky, b.blocky) + optional_int_write(ContextOption::IoThreads, b.io_threads), optional_int_write(ContextOption::MaxMessageSize, b.max_message_size), ContextOption::ZeroCopyReceiving);
    lemma_context_written_values_add(optional_flag_write(ContextOption::Blocky, b.blocky) + optional_int_write(ContextOption::IoThreads, b.io_threads) + optional_int_write(ContextOption::MaxMessageSize, b.max_message_size), optional_int_write(ContextOption::MaxSockets, b.max_sockets), ContextOption::ZeroCopyReceiving);
    lemma_context_written_values_add(optional_flag_write(ContextOption::Blocky, b.blocky) + optional_int_write(ContextOption::IoThreads, b.io_threads) + optional_int_write(ContextOption::MaxMessageSize, b.max_message_size) + optional_int_write(ContextOption::MaxSockets, b.max_sockets), optional_flag_write(ContextOption::IPv6, b.ipv6), ContextOption::ZeroCopyReceiving);
    lemma_context_written_values_add(optional_flag_write(ContextOption::Blocky, b.blocky) + optional_int_write(ContextOption::IoThreads, b.io_threads) + optional_int_write(ContextOption::MaxMessageSize, b.max_message_size) + optional_int_write(ContextOption::MaxSockets, b.max_sockets) + optional_flag_write(ContextOption::IPv6, b.ipv6), optional_flag_write(ContextOption::ZeroCopyReceiving, b.zero_copy_receiving), ContextOption::ZeroCopyReceiving);
    lemma_optional_context_flag_values(ContextOption::Blocky, b.blocky, ContextOption::ZeroCopyReceiving);
    lemma_optional_context_int_values(ContextOption::IoThreads, b.io_threads, ContextOption::ZeroCopyReceiving);
    lemma_optional_context_int_values(ContextOption::MaxMessageSize, b.max_message_size, ContextOption::ZeroCopyReceiving);
    lemma_optional_context_int_values(ContextOption::MaxSockets, b.max_sockets, ContextOption::ZeroCopyReceiving);
    lemma_optional_context_flag_values(ContextOption::IPv6, b.ipv6, ContextOption::ZeroCopyReceiving);
    lemma_optional_context_flag_values(ContextOption::ZeroCopyReceiving, b.zero_copy_receiving, ContextOption::ZeroCopyReceiving);
    assert(context_written_values(context_builder_writes(b), ContextOption::ZeroCopyReceiving) =~= context_flag_values(b.zero_copy_receiving));
}

/// Applying a [`ContextBuilder`] writes each of its options to its own context option, with
/// the given value, where it is given, and not at all where it is not.
pub proof fn lemma_context_builder_writes_each_option(b: ContextBuilder)
    ensures
        context_written_values(context_builder_writes(b), ContextOption::Blocky) == context_flag_values(b.blocky),
        context_written_values(context_builder_writes(b), ContextOption::IoThreads) == context_int_values(b.io_threads),
        context_written_values(context_builder_writes(b), ContextOption::MaxMessageSize) == context_int_values(b.max_message_size),
        context_written_values(context_builder_writes(b), ContextOption::MaxSockets) == context_int_values(b.max_sockets),
        context_written_values(context_builder_writes(b), ContextOption::IPv6) == context_flag_values(b.ipv6),
        context_written_values(context_builder_writes(b), ContextOption::ZeroCopyReceiving) == context_flag_values(b.zero_copy_receiving),
{
    lemma_context_builder_writes_blocky(b);
    lemma_context_builder_writes_io_threads(b);
    lemma_context_builder_writes_max_message_size(b);
    lemma_context_builder_writes_max_sockets(b);
    lemma_context_builder_writes_ipv6(b);
    lemma_context_builder_writes_zero_copy_receiving(b);
}

impl ContextBuilder {
    /// A builder that sets nothing.
    pub fn new() -> (b: ContextBuilder)
        ensures
            b == (ContextBuilder {
                blocky: None,
                io_threads: None,
                max_message_size: None,
                zero_copy_receiving: None,
                max_sockets: None,
                ipv6: None,
            }),
    {
        ContextBuilder {
            blocky: None,
            io_threads: None,
            max_message_size: None,
            zero_copy_receiving: None,
            max_sockets: None,
            ipv6: None,
        }
    }

    /// Sets blocky behaviour, see [`Context::set_blocky`].
    pub fn blocky(self, value: bool) -> (b: ContextBuilder)
        ensures
            b == (ContextBuilder { blocky: Some(value), ..self }),
    {
        ContextBuilder { blocky: Some(value), ..self }
    }

    /// Sets the number of I/O threads, see [`Context::set_io_threads`].
    pub fn io_threads(self, value: i32) -> (b: ContextBuilder)
        ensures
            b == (ContextBuilder { io_threads: Some(value), ..self }),
    {
        ContextBuilder { io_threads: Some(value), ..self }
    }

    /// Sets the maximum message size, see [`Context::set_max_message_size`].
    pub fn max_message_size(self, value: i32) -> (b: ContextBuilder)
        ensures
            b == (ContextBuilder { max_message_size: Some(value), ..self }),
    {
        ContextBuilder { max_message_size: Some(value), ..self }
    }

    /// Sets the message decoding strategy, see [`Context::set_zero_copy_receiving`].
    pub fn zero_copy_receiving(self, value: bool) -> (b: ContextBuilder)
        ensures
            b == (ContextBuilder { zero_copy_receiving: Some(value), ..self }),
    {
        ContextBuilder { zero_copy_receiving: Some(value), ..self }
    }

    /// Sets the maximum number of sockets, see [`Context::set_max_sockets`].
    pub fn max_sockets(self, value: i32) -> (b: ContextBuilder)
        ensures
            b == (ContextBuilder { max_sockets: Some(value), ..self }),
    {
        ContextBuilder { max_sockets: Some(value), ..self }
    }

    /// Sets IPv6, see [`Context::set_ipv6`].
    pub fn ipv6(self, value: bool) -> (b: ContextBuilder)
        ensures
            b == (ContextBuilder { ipv6: Some(value), ..self }),
    {
        ContextBuilder { ipv6: Some(value), ..self }
    }

    /// The writes that apply this builder to `context`, in order; they are made one after
    /// the other, stopping at the first that fails, whose error is the outcome (see
    /// [`crate::outcome::next_call`]).
    pub fn apply(self, context: &Context) -> (writes: Vec<ContextWrite>)
        ensures
            writes@ == context_builder_writes(self),
    {
        let mut writes: Vec<ContextWrite> = Vec::new();
        if let Some(blocky) = self.blocky {
            writes.push(context.set_blocky(blocky));
        }
        if let Some(io_threads) = self.io_threads {
            writes.push(context.set_io_threads(io_threads));
        }
        if let Some(max_msg_size) = self.max_message_size {
            writes.push(context.set_max_message_size(max_msg_size));
        }
        if let Some(max_sockets) = self.max_sockets {
            writes.push(context.set_max_sockets(max_sockets));
        }
        if let Some(ipv6) = self.ipv6 {
            writes.push(context.set_ipv6(ipv6));
        }
        if let Some(zero_copy_receiving) = self.zero_copy_receiving {
            writes.push(context.set_zero_copy_receiving(zero_copy_receiving));
        }
        assert(writes@ =~= context_builder_writes(self));
        writes
    }

    /// A new context, with the writes that apply this builder to it (made as
    /// [`ContextBuilder::apply`] says).
    pub fn build(self) -> (r: (Context, Vec<ContextWrite>))
        ensures
            r.1@ == context_builder_writes(self),
    {
        let context = Context::new();
        let writes = self.apply(&context);
        (context, writes)
    }
}

} // verus!

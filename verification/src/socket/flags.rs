//! Bit sets of the runtime: monitor events, send and receive flags, poll events and router
//! notifications. Each keeps its bits as the runtime takes them.
use vstd::prelude::*;

verus! {

/// Events that a socket monitor can report, and the event numbers it reports them by.
#[derive(Debug, Clone, Copy, Default, PartialEq, Eq, Structural)]
pub struct MonitorFlags(pub u16);

impl MonitorFlags {
    /// The bits of all the flags that the set knows.
    pub open spec fn known_bits() -> u16 {
        32767u16
    }

    /// The flag with bit value `1`.
    #[allow(non_snake_case)]
    pub fn Connected() -> (f: MonitorFlags)
        ensures
            f.0 == 1u16,
    {
        MonitorFlags(1)
    }

    /// The flag with bit value `2`.
    #[allow(non_snake_case)]
    pub fn ConnectDelayed() -> (f: MonitorFlags)
        ensures
            f.0 == 2u16,
    {
        MonitorFlags(2)
    }

    /// The flag with bit value `4`.
    #[allow(non_snake_case)]
    pub fn ConnectRetried() -> (f: MonitorFlags)
        ensures
            f.0 == 4u16,
    {
        MonitorFlags(4)
    }

    /// The flag with bit value `8`.
    #[allow(non_snake_case)]
    pub fn Listening() -> (f: MonitorFlags)
        ensures
            f.0 == 8u16,
    {
        MonitorFlags(8)
    }

    /// The flag with bit value `16`.
    #[allow(non_snake_case)]
    pub fn BindFailed() -> (f: MonitorFlags)
        ensures
            f.0 == 16u16,
    {
        MonitorFlags(16)
    }

    /// The flag with bit value `32`.
    #[allow(non_snake_case)]
    pub fn Accepted() -> (f: MonitorFlags)
        ensures
            f.0 == 32u16,
    {
        MonitorFlags(32)
    }

    /// The flag with bit value `64`.
    #[allow(non_snake_case)]
    pub fn AcceptFailed() -> (f: MonitorFlags)
        ensures
            f.0 == 64u16,
    {
        MonitorFlags(64)
    }

    /// The flag with bit value `128`.
    #[allow(non_snake_case)]
    pub fn Closed() -> (f: MonitorFlags)
        ensures
            f.0 == 128u16,
    {
        MonitorFlags(128)
    }

    /// The flag with bit value `256`.
    #[allow(non_snake_case)]
    pub fn CloseFailed() -> (f: MonitorFlags)
        ensures
            f.0 == 256u16,
    {
        MonitorFlags(256)
    }

    /// The flag with bit value `512`.
    #[allow(non_snake_case)]
    pub fn Disconnected() -> (f: MonitorFlags)
        ensures
            f.0 == 512u16,
    {
        MonitorFlags(512)
    }

    /// The flag with bit value `1024`.
    #[allow(non_snake_case)]
    pub fn MonitorStopped() -> (f: MonitorFlags)
        ensures
            f.0 == 1024u16,
    {
        MonitorFlags(1024)
    }

    /// The flag with bit value `2048`.
    #[allow(non_snake_case)]
    pub fn HandshakeFailedNoDetail() -> (f: MonitorFlags)
        ensures
            f.0 == 2048u16,
    {
        MonitorFlags(2048)
    }

    /// The flag with bit value `4096`.
    #[allow(non_snake_case)]
    pub fn HandshakeSucceeded() -> (f: MonitorFlags)
        ensures
            f.0 == 4096u16,
    {
        MonitorFlags(4096)
    }

    /// The flag with bit value `8192`.
    #[allow(non_snake_case)]
    pub fn HandshakeFailedProtocol() -> (f: MonitorFlags)
        ensures
            f.0 == 8192u16,
    {
        MonitorFlags(8192)
    }

    /// The flag with bit value `16384`.
    #[allow(non_snake_case)]
    pub fn HandshakeFailedAuth() -> (f: MonitorFlags)
        ensures
            f.0 == 16384u16,
    {
        MonitorFlags(16384)
    }

    /// The set without any flag.
    pub fn empty() -> (f: MonitorFlags)
        ensures
            f.0 == 0u16,
    {
        MonitorFlags(0)
    }

    /// The set of all the known flags.
    pub fn all() -> (f: MonitorFlags)
        ensures
            f.0 == Self::known_bits(),
    {
        MonitorFlags(32767)
    }

    /// The bits of the set.
    pub fn bits(&self) -> (b: u16)
        ensures
            b == self.0,
    {
        self.0
    }

    /// The set of the known flags among `bits`; unknown bits are dropped.
    pub fn from_bits_truncate(bits: u16) -> (f: MonitorFlags)
        ensures
            f.0 == bits & Self::known_bits(),
    {
        MonitorFlags(bits & 32767)
    }

    /// The set with exactly the bits `bits`, known or not.
    pub fn from_bits_retain(bits: u16) -> (f: MonitorFlags)
        ensures
            f.0 == bits,
    {
        MonitorFlags(bits)
    }

    /// Whether no bit is set.
    pub fn is_empty(&self) -> (r: bool)
        ensures
            r == (self.0 == 0),
    {
        self.0 == 0
    }

    /// Whether every bit of `other` is set in this set.
    pub fn contains(&self, other: MonitorFlags) -> (r: bool)
        ensures
            r == (self.0 & other.0 == other.0),
    {
        self.0 & other.0 == other.0
    }

    /// The bits set in either set.
    pub fn union(self, other: MonitorFlags) -> (f: MonitorFlags)
        ensures
            f.0 == self.0 | other.0,
    {
        MonitorFlags(self.0 | other.0)
    }

    /// The bits set in both sets.
    pub fn intersection(self, other: MonitorFlags) -> (f: MonitorFlags)
        ensures
            f.0 == self.0 & other.0,
    {
        MonitorFlags(self.0 & other.0)
    }
}

impl From<u16> for MonitorFlags {
    fn from(bits: u16) -> (f: MonitorFlags) {
        MonitorFlags(bits)
    }
}

impl vstd::std_specs::convert::FromSpecImpl<u16> for MonitorFlags {
    open spec fn obeys_from_spec() -> bool {
        true
    }

    open spec fn from_spec(bits: u16) -> MonitorFlags {
        MonitorFlags(bits)
    }
}

/// Flags of a receive operation.
#[derive(Debug, Clone, Copy, Default, PartialEq, Eq, Structural)]
pub struct RecvFlags(pub i32);

impl RecvFlags {
    /// The bits of all the flags that the set knows.
    pub open spec fn known_bits() -> i32 {
        1i32
    }

    /// The flag with bit value `1`.
    #[allow(non_snake_case)]
    pub fn DONT_WAIT() -> (f: RecvFlags)
        ensures
            f.0 == 1i32,
    {
        RecvFlags(1)
    }

    /// The set without any flag.
    pub fn empty() -> (f: RecvFlags)
        ensures
            f.0 == 0i32,
    {
        RecvFlags(0)
    }

    /// The set of all the known flags.
    pub fn all() -> (f: RecvFlags)
        ensures
            f.0 == Self::known_bits(),
    {
        RecvFlags(1)
    }

    /// The bits of the set.
    pub fn bits(&self) -> (b: i32)
        ensures
            b == self.0,
    {
        self.0
    }

    /// The set of the known flags among `bits`; unknown bits are dropped.
    pub fn from_bits_truncate(bits: i32) -> (f: RecvFlags)
        ensures
            f.0 == bits & Self::known_bits(),
    {
        RecvFlags(bits & 1)
    }

    /// The set with exactly the bits `bits`, known or not.
    pub fn from_bits_retain(bits: i32) -> (f: RecvFlags)
        ensures
            f.0 == bits,
    {
        RecvFlags(bits)
    }

    /// Whether no bit is set.
    pub fn is_empty(&self) -> (r: bool)
        ensures
            r == (self.0 == 0),
    {
        self.0 == 0
    }

    /// Whether every bit of `other` is set in this set.
    pub fn contains(&self, other: RecvFlags) -> (r: bool)
        ensures
            r == (self.0 & other.0 == other.0),
    {
        self.0 & other.0 == other.0
    }

    /// The bits set in either set.
    pub fn union(self, other: RecvFlags) -> (f: RecvFlags)
        ensures
            f.0 == self.0 | other.0,
    {
        RecvFlags(self.0 | other.0)
    }

    /// The bits set in both sets.
    pub fn intersection(self, other: RecvFlags) -> (f: RecvFlags)
        ensures
            f.0 == self.0 & other.0,
    {
        RecvFlags(self.0 & other.0)
    }
}

impl From<i32> for RecvFlags {
    fn from(bits: i32) -> (f: RecvFlags) {
        RecvFlags(bits)
    }
}

impl vstd::std_specs::convert::FromSpecImpl<i32> for RecvFlags {
    open spec fn obeys_from_spec() -> bool {
        true
    }

    open spec fn from_spec(bits: i32) -> RecvFlags {
        RecvFlags(bits)
    }
}

/// Flags of a send operation.
#[derive(Debug, Clone, Copy, Default, PartialEq, Eq, Structural)]
pub struct SendFlags(pub i32);

impl SendFlags {
    /// The bits of all the flags that the set knows.
    pub open spec fn known_bits() -> i32 {
        3i32
    }

    /// The flag with bit value `1`.
    #[allow(non_snake_case)]
    pub fn DONT_WAIT() -> (f: SendFlags)
        ensures
            f.0 == 1i32,
    {
        SendFlags(1)
    }

    /// The flag with bit value `2`.
    #[allow(non_snake_case)]
    pub fn SEND_MORE() -> (f: SendFlags)
        ensures
            f.0 == 2i32,
    {
        SendFlags(2)
    }

    /// The set without any flag.
    pub fn empty() -> (f: SendFlags)
        ensures
            f.0 == 0i32,
    {
        SendFlags(0)
    }

    /// The set of all the known flags.
    pub fn all() -> (f: SendFlags)
        ensures
            f.0 == Self::known_bits(),
    {
        SendFlags(3)
    }

    /// The bits of the set.
    pub fn bits(&self) -> (b: i32)
        ensures
            b == self.0,
    {
        self.0
    }

    /// The set of the known flags among `bits`; unknown bits are dropped.
    pub fn from_bits_truncate(bits: i32) -> (f: SendFlags)
        ensures
            f.0 == bits & Self::known_bits(),
    {
        SendFlags(bits & 3)
    }

    /// The set with exactly the bits `bits`, known or not.
    pub fn from_bits_retain(bits: i32) -> (f: SendFlags)
        ensures
            f.0 == bits,
    {
        SendFlags(bits)
    }

    /// Whether no bit is set.
    pub fn is_empty(&self) -> (r: bool)
        ensures
            r == (self.0 == 0),
    {
        self.0 == 0
    }

    /// Whether every bit of `other` is set in this set.
    pub fn contains(&self, other: SendFlags) -> (r: bool)
        ensures
            r == (self.0 & other.0 == other.0),
    {
        self.0 & other.0 == other.0
    }

    /// The bits set in either set.
    pub fn union(self, other: SendFlags) -> (f: SendFlags)
        ensures
            f.0 == self.0 | other.0,
    {
        SendFlags(self.0 | other.0)
    }

    /// The bits set in both sets.
    pub fn intersection(self, other: SendFlags) -> (f: SendFlags)
        ensures
            f.0 == self.0 & other.0,
    {
        SendFlags(self.0 & other.0)
    }
}

impl From<i32> for SendFlags {
    fn from(bits: i32) -> (f: SendFlags) {
        SendFlags(bits)
    }
}

impl vstd::std_specs::convert::FromSpecImpl<i32> for SendFlags {
    open spec fn obeys_from_spec() -> bool {
        true
    }

    open spec fn from_spec(bits: i32) -> SendFlags {
        SendFlags(bits)
    }
}

/// Events that a socket can be polled for, or reports as ready.
#[derive(Debug, Clone, Copy, Default, PartialEq, Eq, Structural)]
pub struct PollEvents(pub i16);

impl PollEvents {
    /// The bits of all the flags that the set knows.
    pub open spec fn known_bits() -> i16 {
        15i16
    }

    /// The flag with bit value `1`.
    #[allow(non_snake_case)]
    pub fn POLL_IN() -> (f: PollEvents)
        ensures
            f.0 == 1i16,
    {
        PollEvents(1)
    }

    /// The flag with bit value `2`.
    #[allow(non_snake_case)]
    pub fn POLL_OUT() -> (f: PollEvents)
        ensures
            f.0 == 2i16,
    {
        PollEvents(2)
    }

    /// The flag with bit value `4`.
    #[allow(non_snake_case)]
    pub fn POLL_ERR() -> (f: PollEvents)
        ensures
            f.0 == 4i16,
    {
        PollEvents(4)
    }

    /// The flag with bit value `8`.
    #[allow(non_snake_case)]
    pub fn POLL_PRI() -> (f: PollEvents)
        ensures
            f.0 == 8i16,
    {
        PollEvents(8)
    }

    /// The set without any flag.
    pub fn empty() -> (f: PollEvents)
        ensures
            f.0 == 0i16,
    {
        PollEvents(0)
    }

    /// The set of all the known flags.
    pub fn all() -> (f: PollEvents)
        ensures
            f.0 == Self::known_bits(),
    {
        PollEvents(15)
    }

    /// The bits of the set.
    pub fn bits(&self) -> (b: i16)
        ensures
            b == self.0,
    {
        self.0
    }

    /// The set of the known flags among `bits`; unknown bits are dropped.
    pub fn from_bits_truncate(bits: i16) -> (f: PollEvents)
        ensures
            f.0 == bits & Self::known_bits(),
    {
        PollEvents(bits & 15)
    }

    /// The set with exactly the bits `bits`, known or not.
    pub fn from_bits_retain(bits: i16) -> (f: PollEvents)
        ensures
            f.0 == bits,
    {
        PollEvents(bits)
    }

    /// Whether no bit is set.
    pub fn is_empty(&self) -> (r: bool)
        ensures
            r == (self.0 == 0),
    {
        self.0 == 0
    }

    /// Whether every bit of `other` is set in this set.
    pub fn contains(&self, other: PollEvents) -> (r: bool)
        ensures
            r == (self.0 & other.0 == other.0),
    {
        self.0 & other.0 == other.0
    }

    /// The bits set in either set.
    pub fn union(self, other: PollEvents) -> (f: PollEvents)
        ensures
            f.0 == self.0 | other.0,
    {
        PollEvents(self.0 | other.0)
    }

    /// The bits set in both sets.
    pub fn intersection(self, other: PollEvents) -> (f: PollEvents)
        ensures
            f.0 == self.0 & other.0,
    {
        PollEvents(self.0 & other.0)
    }
}

impl From<i16> for PollEvents {
    fn from(bits: i16) -> (f: PollEvents) {
        PollEvents(bits)
    }
}

impl vstd::std_specs::convert::FromSpecImpl<i16> for PollEvents {
    open spec fn obeys_from_spec() -> bool {
        true
    }

    open spec fn from_spec(bits: i16) -> PollEvents {
        PollEvents(bits)
    }
}

/// Which peer events a router socket notifies its application of.
#[derive(Debug, Clone, Copy, Default, PartialEq, Eq, Structural)]
pub struct RouterNotify(pub i32);

impl RouterNotify {
    /// The bits of all the flags that the set knows.
    pub open spec fn known_bits() -> i32 {
        3i32
    }

    /// The flag with bit value `1`.
    #[allow(non_snake_case)]
    pub fn NotifyConnect() -> (f: RouterNotify)
        ensures
            f.0 == 1i32,
    {
        RouterNotify(1)
    }

    /// The flag with bit value `2`.
    #[allow(non_snake_case)]
    pub fn NotifyDisconnect() -> (f: RouterNotify)
        ensures
            f.0 == 2i32,
    {
        RouterNotify(2)
    }

    /// The set without any flag.
    pub fn empty() -> (f: RouterNotify)
        ensures
            f.0 == 0i32,
    {
        RouterNotify(0)
    }

    /// The set of all the known flags.
    pub fn all() -> (f: RouterNotify)
        ensures
            f.0 == Self::known_bits(),
    {
        RouterNotify(3)
    }

    /// The bits of the set.
    pub fn bits(&self) -> (b: i32)
        ensures
            b == self.0,
    {
        self.0
    }

    /// The set of the known flags among `bits`; unknown bits are dropped.
    pub fn from_bits_truncate(bits: i32) -> (f: RouterNotify)
        ensures
            f.0 == bits & Self::known_bits(),
    {
        RouterNotify(bits & 3)
    }

    /// The set with exactly the bits `bits`, known or not.
    pub fn from_bits_retain(bits: i32) -> (f: RouterNotify)
        ensures
            f.0 == bits,
    {
        RouterNotify(bits)
    }

    /// Whether no bit is set.
    pub fn is_empty(&self) -> (r: bool)
        ensures
            r == (self.0 == 0),
    {
        self.0 == 0
    }

    /// Whether every bit of `other` is set in this set.
    pub fn contains(&self, other: RouterNotify) -> (r: bool)
        ensures
            r == (self.0 & other.0 == other.0),
    {
        self.0 & other.0 == other.0
    }

    /// The bits set in either set.
    pub fn union(self, other: RouterNotify) -> (f: RouterNotify)
        ensures
            f.0 == self.0 | other.0,
    {
        RouterNotify(self.0 | other.0)
    }

    /// The bits set in both sets.
    pub fn intersection(self, other: RouterNotify) -> (f: RouterNotify)
        ensures
            f.0 == self.0 & other.0,
    {
        RouterNotify(self.0 & other.0)
    }
}

impl From<i32> for RouterNotify {
    fn from(bits: i32) -> (f: RouterNotify) {
        RouterNotify(bits)
    }
}

impl vstd::std_specs::convert::FromSpecImpl<i32> for RouterNotify {
    open spec fn obeys_from_spec() -> bool {
        true
    }

    open spec fn from_spec(bits: i32) -> RouterNotify {
        RouterNotify(bits)
    }
}

} // verus!

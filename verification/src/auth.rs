//! 0MQ authentication: the ZAP domain of a socket.
use vstd::prelude::*;
use vstd::utf8::encode_utf8;

use crate::error::ZmqResult;
use crate::option::{flag_int, holds_bytes, string_value, text_of, OptionData, OptionValue};
use crate::security::lemma_text_answer;
use crate::socket::has_nul;
use crate::sealed;
use crate::socket::{OptionWrite, Socket, SocketOption};

verus! {

/// The domain of a socket in the 0MQ authentication protocol (ZAP); an empty domain turns
/// authentication off.
#[derive(Debug, Clone, PartialEq, Eq, Hash, Default)]
pub struct ZapDomain {
    domain: String,
}

impl View for ZapDomain {
    type V = Seq<char>;

    closed spec fn view(&self) -> Seq<char> {
        self.domain@
    }
}

impl ZapDomain {
    /// The domain with the given name.
    pub fn new(domain: String) -> (d: ZapDomain)
        ensures
            d@ == domain@,
    {
        ZapDomain { domain }
    }

    /// The name of the domain.
    pub fn as_str(&self) -> (s: &str)
        ensures
            s@ == self@,
    {
        self.domain.as_str()
    }

    /// The writes that apply this domain to `socket`, in order: the domain itself, then
    /// `ZMQ_ZAP_ENFORCE_DOMAIN` turned on so that the domain is enforced.
    pub fn apply<T: sealed::SocketType>(&self, socket: &Socket<T>) -> (writes: Vec<OptionWrite>)
        ensures
            writes@.len() == 2,
            writes@[0].option == SocketOption::ZapDomain,
            holds_bytes(writes@[0].value, encode_utf8(self@)),
            writes@[1] == (OptionWrite { option: SocketOption::ZapEnforceDomain, value: OptionValue::Int(flag_int(true)) }),
    {
        let mut writes: Vec<OptionWrite> = Vec::new();
        writes.push(socket.set_sockopt_string(SocketOption::ZapDomain, self.domain.as_str()));
        writes.push(socket.set_sockopt_bool(SocketOption::ZapEnforceDomain, true));
        writes
    }
}

impl From<String> for ZapDomain {
    fn from(value: String) -> (d: ZapDomain) {
        ZapDomain { domain: value }
    }
}

impl vstd::std_specs::convert::FromSpecImpl<String> for ZapDomain {
    open spec fn obeys_from_spec() -> bool {
        true
    }

    closed spec fn from_spec(value: String) -> ZapDomain {
        ZapDomain { domain: value }
    }
}

/// The ZAP domain that a read of `ZMQ_ZAP_DOMAIN` gave back (see
/// [`crate::option::string_value`]).
pub fn zap_domain_value(reply: &Result<OptionValue, i32>) -> (r: ZmqResult<ZapDomain>)
    ensures
        match crate::option::text_of(crate::option::reply_view(*reply)) {
            Ok(t) => r matches Ok(d) && d@ == t,
            Err(e) => r == Err::<ZapDomain, crate::error::ZmqError>(e),
        },
{
    match string_value(reply) {
        Ok(s) => Ok(ZapDomain::new(s)),
        Err(e) => Err(e),
    }
}

/// A domain that holds no zero character reads back unchanged after it was applied: the
/// runtime answers the read of `ZMQ_ZAP_DOMAIN` with the bytes that [`ZapDomain::apply`]
/// wrote, followed by a terminating zero, and [`zap_domain_value`] gives the domain back
/// from that answer.
pub proof fn lemma_zap_domain_round_trip(domain: ZapDomain, written: Seq<u8>)
    requires
        written == encode_utf8(domain@),
        !has_nul(written),
    ensures
        text_of(Ok(OptionData::Bytes(written.push(0)))) == Ok::<Seq<char>, crate::error::ZmqError>(domain@),
{
    lemma_text_answer(domain@);
}

} // verus!

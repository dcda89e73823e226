//! Security mechanisms of sockets: the options that set one up, and how one is read back
//! from a socket's options.
use vstd::prelude::*;
use vstd::string::StringExecFns;
use vstd::utf8::{decode_utf8, encode_utf8, encode_utf8_decode_utf8, encode_utf8_valid_utf8};

use crate::error::{error_of_errno, ZmqError, ZmqResult};
use crate::option::{
    c_string_text, first_nul,
    bool_value, bytes_value, bytes_of, flag_of, int_of, int_value, reply_view, string_value,
    text_of, OptionData, OptionValue, ValueKind,
};
use crate::sealed;
use crate::socket::{has_nul, write_view, OptionRead, OptionWrite, Socket, SocketOption};

verus! {

/// `ZMQ_NULL`
pub const MECHANISM_NULL: i32 = 0;
/// `ZMQ_PLAIN`
pub const MECHANISM_PLAIN: i32 = 1;
/// `ZMQ_CURVE`
pub const MECHANISM_CURVE: i32 = 2;
/// `ZMQ_GSSAPI`
pub const MECHANISM_GSSAPI: i32 = 3;

/// The security mechanism of a socket, with what it is configured with.
#[derive(Debug, Clone, PartialEq, Eq, Hash)]
#[non_exhaustive]
pub enum SecurityMechanism {
    /// no security
    Null,
    /// PLAIN, as a client, with the credentials it presents
    PlainClient { username: String, password: String },
    /// PLAIN, as a server
    PlainServer { username: String, password: String },
    /// CURVE, as a client: the server's public key, and the client's key pair
    CurveClient { server_key: Vec<u8>, public_key: Vec<u8>, secret_key: Vec<u8> },
    /// CURVE, as a server, with its secret key
    CurveServer { secret_key: Vec<u8> },
    /// GSSAPI, as a client, with the service principal it talks to
    GssApiClient { service_principal: String },
    /// GSSAPI, as a server
    GssApiServer,
}

/// The mathematical value of a security mechanism.
pub ghost enum Mechanism {
    Null,
    PlainClient { username: Seq<char>, password: Seq<char> },
    PlainServer { username: Seq<char>, password: Seq<char> },
    CurveClient { server_key: Seq<u8>, public_key: Seq<u8>, secret_key: Seq<u8> },
    CurveServer { secret_key: Seq<u8> },
    GssApiClient { service_principal: Seq<char> },
    GssApiServer,
}

impl View for SecurityMechanism {
    type V = Mechanism;

    open spec fn view(&self) -> Mechanism {
        match self {
            SecurityMechanism::Null => Mechanism::Null,
            SecurityMechanism::PlainClient { username, password } => Mechanism::PlainClient {
                username: username@,
                password: password@,
            },
            SecurityMechanism::PlainServer { username, password } => Mechanism::PlainServer {
                username: username@,
                password: password@,
            },
            SecurityMechanism::CurveClient { server_key, public_key, secret_key } =>
                Mechanism::CurveClient {
                server_key: server_key@,
                public_key: public_key@,
                secret_key: secret_key@,
            },
            SecurityMechanism::CurveServer { secret_key } => Mechanism::CurveServer {
                secret_key: secret_key@,
            },
            SecurityMechanism::GssApiClient { service_principal } => Mechanism::GssApiClient {
                service_principal: service_principal@,
            },
            SecurityMechanism::GssApiServer => Mechanism::GssApiServer,
        }
    }
}

impl Default for SecurityMechanism {
    /// No security.
    fn default() -> (m: SecurityMechanism)
        ensures
            m@ == Mechanism::Null,
    {
        SecurityMechanism::Null
    }
}

/// The number by which the runtime reports a mechanism (`ZMQ_MECHANISM`).
pub open spec fn mechanism_code(m: Mechanism) -> i32 {
    match m {
        Mechanism::Null => MECHANISM_NULL,
        Mechanism::PlainClient { .. } => MECHANISM_PLAIN,
        Mechanism::PlainServer { .. } => MECHANISM_PLAIN,
        Mechanism::CurveClient { .. } => MECHANISM_CURVE,
        Mechanism::CurveServer { .. } => MECHANISM_CURVE,
        Mechanism::GssApiClient { .. } => MECHANISM_GSSAPI,
        Mechanism::GssApiServer => MECHANISM_GSSAPI,
    }
}

/// The option writes that set a mechanism up, in order:
/// - NULL turns the PLAIN server flag off;
/// - PLAIN, as server and as client alike, turns the PLAIN server flag on and sets the
///   user name and the password;
/// - a CURVE server turns the CURVE server flag on and sets its secret key;
/// - a CURVE client sets the server's key, its public key and its secret key;
/// - a GSSAPI client sets the service principal;
/// - a GSSAPI server turns the GSSAPI server flag on.
pub open spec fn mechanism_writes(m: Mechanism) -> Seq<(SocketOption, OptionData)> {
    match m {
        Mechanism::Null => seq![(SocketOption::PlainServer, OptionData::Int(0))],
        Mechanism::PlainClient { username, password } => seq![
            (SocketOption::PlainServer, OptionData::Int(1)),
            (SocketOption::PlainUsername, OptionData::Bytes(encode_utf8(username))),
            (SocketOption::PlainPassword, OptionData::Bytes(encode_utf8(password))),
        ],
        Mechanism::PlainServer { username, password } => seq![
            (SocketOption::PlainServer, OptionData::Int(1)),
            (SocketOption::PlainUsername, OptionData::Bytes(encode_utf8(username))),
            (SocketOption::PlainPassword, OptionData::Bytes(encode_utf8(password))),
        ],
        Mechanism::CurveClient { server_key, public_key, secret_key } => seq![
            (SocketOption::CurveServerKey, OptionData::Bytes(server_key)),
            (SocketOption::CurvePublicKey, OptionData::Bytes(public_key)),
            (SocketOption::CurveSecretKey, OptionData::Bytes(secret_key)),
        ],
        Mechanism::CurveServer { secret_key } => seq![
            (SocketOption::CurveServer, OptionData::Int(1)),
            (SocketOption::CurveSecretKey, OptionData::Bytes(secret_key)),
        ],
        Mechanism::GssApiClient { service_principal } => seq![
            (SocketOption::GssApiServicePrincipal, OptionData::Bytes(encode_utf8(service_principal))),
        ],
        Mechanism::GssApiServer => seq![(SocketOption::GssApiServer, OptionData::Int(1))],
    }
}

impl SecurityMechanism {
    /// The option writes that set this mechanism up on `socket` (see [`mechanism_writes`]);
    /// they are made in order, stopping at the first that fails, whose error is the outcome
    /// (see [`crate::outcome::next_call`]).
    pub fn apply<T: sealed::SocketType>(&self, socket: &Socket<T>) -> (writes: Vec<OptionWrite>)
        ensures
            writes@.map_values(|w: OptionWrite| write_view(w)) == mechanism_writes(self@),
    {
        let mut writes: Vec<OptionWrite> = Vec::new();
        match self {
            SecurityMechanism::Null => {
                writes.push(socket.set_sockopt_bool(SocketOption::PlainServer, false));
            },
            SecurityMechanism::PlainServer { username, password } => {
                writes.push(socket.set_sockopt_bool(SocketOption::PlainServer, true));
                writes.push(socket.set_sockopt_string(SocketOption::PlainUsername, username.as_str()));
                writes.push(socket.set_sockopt_string(SocketOption::PlainPassword, password.as_str()));
            },
            SecurityMechanism::PlainClient { username, password } => {
                writes.push(socket.set_sockopt_bool(SocketOption::PlainServer, true));
                writes.push(socket.set_sockopt_string(SocketOption::PlainUsername, username.as_str()));
                writes.push(socket.set_sockopt_string(SocketOption::PlainPassword, password.as_str()));
            },
            SecurityMechanism::CurveServer { secret_key } => {
                writes.push(socket.set_sockopt_bool(SocketOption::CurveServer, true));
                writes.push(socket.set_sockopt_bytes(SocketOption::CurveSecretKey, secret_key.as_slice()));
            },
            SecurityMechanism::CurveClient { server_key, public_key, secret_key } => {
                writes.push(socket.set_sockopt_bytes(SocketOption::CurveServerKey, server_key.as_slice()));
                writes.push(socket.set_sockopt_bytes(SocketOption::CurvePublicKey, public_key.as_slice()));
                writes.push(socket.set_sockopt_bytes(SocketOption::CurveSecretKey, secret_key.as_slice()));
            },
            SecurityMechanism::GssApiClient { service_principal } => {
                writes.push(
                    socket.set_sockopt_string(
                        SocketOption::GssApiServicePrincipal,
                        service_principal.as_str(),
                    ),
                );
            },
            SecurityMechanism::GssApiServer => {
                writes.push(socket.set_sockopt_bool(SocketOption::GssApiServer, true));
            },
        }
        assert(writes@.map_values(|w: OptionWrite| write_view(w)) =~= mechanism_writes(self@));
        writes
    }
}

/// The text by which a mechanism describes itself: PLAIN shows its credentials, the other
/// mechanisms with settings show none of them.
pub open spec fn mechanism_text(m: Mechanism) -> Seq<char> {
    match m {
        Mechanism::Null => "Null"@,
        Mechanism::PlainClient { username, password } =>
            "PlainClient { username = "@ + username + ", password = "@ + password + " }"@,
        Mechanism::PlainServer { username, password } =>
            "PlainServer { username = "@ + username + ", password = "@ + password + " }"@,
        Mechanism::CurveClient { .. } => "CurveClient { ... }"@,
        Mechanism::CurveServer { .. } => "CurveServer { ... }"@,
        Mechanism::GssApiClient { .. } => "GssApiClient { ... }"@,
        Mechanism::GssApiServer => "GssApiServer { ... }"@,
    }
}

impl SecurityMechanism {
    /// The text by which this mechanism describes itself (see [`mechanism_text`]).
    pub fn to_string(&self) -> (s: String)
        ensures
            s@ == mechanism_text(self@),
    {
        match self {
            SecurityMechanism::Null => String::from_str("Null"),
            SecurityMechanism::PlainClient { username, password } => String::from_str("PlainClient { username = ")
                .concat(username.as_str())
                .concat(", password = ")
                .concat(password.as_str())
                .concat(" }"),
            SecurityMechanism::PlainServer { username, password } => String::from_str("PlainServer { username = ")
                .concat(username.as_str())
                .concat(", password = ")
                .concat(password.as_str())
                .concat(" }"),
            SecurityMechanism::CurveClient { .. } => String::from_str("CurveClient { ... }"),
            SecurityMechanism::CurveServer { .. } => String::from_str("CurveServer { ... }"),
            SecurityMechanism::GssApiClient { .. } => String::from_str("GssApiClient { ... }"),
            SecurityMechanism::GssApiServer => String::from_str("GssApiServer { ... }"),
        }
    }
}

/// The next step of reading a socket's mechanism back: another option to read, or the
/// outcome.
#[derive(Debug)]
pub enum SecurityProgress {
    /// the option that is to be read next
    Read(OptionRead),
    /// the mechanism, or why it could not be read
    Done(ZmqResult<SecurityMechanism>),
}

/// The mathematical value of a step of reading a mechanism back.
pub ghost enum ProgressView {
    Read(SocketOption, ValueKind),
    Done(Result<Mechanism, ZmqError>),
}

impl View for SecurityProgress {
    type V = ProgressView;

    open spec fn view(&self) -> ProgressView {
        match self {
            SecurityProgress::Read(r) => ProgressView::Read(r.option, r.kind),
            SecurityProgress::Done(Ok(m)) => ProgressView::Done(Ok(m@)),
            SecurityProgress::Done(Err(e)) => ProgressView::Done(Err(*e)),
        }
    }
}

/// How a mechanism is read back from the answers `rs` to the reads asked so far. The
/// mechanism number (`ZMQ_MECHANISM`) is read first; then:
/// - NULL needs nothing more;
/// - PLAIN reads the user name, the password and the PLAIN server flag, and is a server or
///   a client by that flag;
/// - CURVE reads the secret key and the CURVE server flag; a server needs nothing more, a
///   client reads the server's key and its public key;
/// - GSSAPI reads the GSSAPI server flag; a client reads the service principal;
/// - any other number is unsupported.
/// The first answer that is an error, or that does not decode, ends the reading with its
/// error.
pub open spec fn security_progress_spec(rs: Seq<Result<OptionData, i32>>) -> ProgressView {
    if rs.len() == 0 {
        ProgressView::Read(SocketOption::Mechanism, ValueKind::Int)
    } else {
        match int_of(rs[0]) {
            Err(e) => ProgressView::Done(Err(e)),
            Ok(code) => if code == MECHANISM_NULL {
                ProgressView::Done(Ok(Mechanism::Null))
            } else if code == MECHANISM_PLAIN {
                plain_progress(rs)
            } else if code == MECHANISM_CURVE {
                curve_progress(rs)
            } else if code == MECHANISM_GSSAPI {
                gssapi_progress(rs)
            } else {
                ProgressView::Done(Err(ZmqError::Unsupported))
            },
        }
    }
}

/// Reading a PLAIN mechanism back, after its number (see [`security_progress_spec`]).
pub open spec fn plain_progress(rs: Seq<Result<OptionData, i32>>) -> ProgressView {
    if rs.len() <= 1 {
        ProgressView::Read(SocketOption::PlainUsername, ValueKind::Bytes)
    } else {
        match text_of(rs[1]) {
            Err(e) => ProgressView::Done(Err(e)),
            Ok(username) => if rs.len() <= 2 {
                ProgressView::Read(SocketOption::PlainPassword, ValueKind::Bytes)
            } else {
                match text_of(rs[2]) {
                    Err(e) => ProgressView::Done(Err(e)),
                    Ok(password) => if rs.len() <= 3 {
                        ProgressView::Read(SocketOption::PlainServer, ValueKind::Int)
                    } else {
                        match flag_of(rs[3]) {
                            Err(e) => ProgressView::Done(Err(e)),
                            Ok(server) => if server {
                                ProgressView::Done(Ok(Mechanism::PlainServer { username, password }))
                            } else {
                                ProgressView::Done(Ok(Mechanism::PlainClient { username, password }))
                            },
                        }
                    },
                }
            },
        }
    }
}

/// Reading a CURVE mechanism back, after its number (see [`security_progress_spec`]).
pub open spec fn curve_progress(rs: Seq<Result<OptionData, i32>>) -> ProgressView {
    if rs.len() <= 1 {
        ProgressView::Read(SocketOption::CurveSecretKey, ValueKind::Bytes)
    } else {
        match bytes_of(rs[1]) {
            Err(e) => ProgressView::Done(Err(e)),
            Ok(secret_key) => if rs.len() <= 2 {
                ProgressView::Read(SocketOption::CurveServer, ValueKind::Int)
            } else {
                match flag_of(rs[2]) {
                    Err(e) => ProgressView::Done(Err(e)),
                    Ok(server) => if server {
                        ProgressView::Done(Ok(Mechanism::CurveServer { secret_key }))
                    } else if rs.len() <= 3 {
                        ProgressView::Read(SocketOption::CurveServerKey, ValueKind::Bytes)
                    } else {
                        match bytes_of(rs[3]) {
                            Err(e) => ProgressView::Done(Err(e)),
                            Ok(server_key) => if rs.len() <= 4 {
                                ProgressView::Read(SocketOption::CurvePublicKey, ValueKind::Bytes)
                            } else {
                                match bytes_of(rs[4]) {
                                    Err(e) => ProgressView::Done(Err(e)),
                                    Ok(public_key) => ProgressView::Done(
                                        Ok(Mechanism::CurveClient { server_key, public_key, secret_key }),
                                    ),
                                }
                            },
                        }
                    },
                }
            },
        }
    }
}

/// Reading a GSSAPI mechanism back, after its number (see [`security_progress_spec`]).
pub open spec fn gssapi_progress(rs: Seq<Result<OptionData, i32>>) -> ProgressView {
    if rs.len() <= 1 {
        ProgressView::Read(SocketOption::GssApiServer, ValueKind::Int)
    } else {
        match flag_of(rs[1]) {
            Err(e) => ProgressView::Done(Err(e)),
            Ok(server) => if server {
                ProgressView::Done(Ok(Mechanism::GssApiServer))
            } else if rs.len() <= 2 {
                ProgressView::Read(SocketOption::GssApiServicePrincipal, ValueKind::Bytes)
            } else {
                match text_of(rs[2]) {
                    Err(e) => ProgressView::Done(Err(e)),
                    Ok(service_principal) => ProgressView::Done(
                        Ok(Mechanism::GssApiClient { service_principal }),
                    ),
                }
            },
        }
    }
}

/// The mathematical values of the answers to the reads asked so far.
pub open spec fn replies_view(replies: Seq<Result<OptionValue, i32>>) -> Seq<Result<OptionData, i32>> {
    replies.map_values(|r: Result<OptionValue, i32>| reply_view(r))
}

fn read(option: SocketOption, kind: ValueKind) -> (p: SecurityProgress)
    ensures
        p@ == ProgressView::Read(option, kind),
{
    SecurityProgress::Read(OptionRead { option, kind })
}

fn plain_step(replies: &Vec<Result<OptionValue, i32>>) -> (p: SecurityProgress)
    requires
        replies@.len() >= 1,
    ensures
        p@ == plain_progress(replies_view(replies@)),
{
    let ghost rs = replies_view(replies@);
    if replies.len() <= 1 {
        return read(SocketOption::PlainUsername, ValueKind::Bytes);
    }
    assert(rs[1] == reply_view(replies@[1]));
    let username = match string_value(&replies[1]) {
        Ok(u) => u,
        Err(e) => return SecurityProgress::Done(Err(e)),
    };
    if replies.len() <= 2 {
        return read(SocketOption::PlainPassword, ValueKind::Bytes);
    }
    assert(rs[2] == reply_view(replies@[2]));
    let password = match string_value(&replies[2]) {
        Ok(p) => p,
        Err(e) => return SecurityProgress::Done(Err(e)),
    };
    if replies.len() <= 3 {
        return read(SocketOption::PlainServer, ValueKind::Int);
    }
    assert(rs[3] == reply_view(replies@[3]));
    match bool_value(&replies[3]) {
        Ok(true) => SecurityProgress::Done(Ok(SecurityMechanism::PlainServer { username, password })),
        Ok(false) => SecurityProgress::Done(Ok(SecurityMechanism::PlainClient { username, password })),
        Err(e) => SecurityProgress::Done(Err(e)),
    }
}

fn curve_step(replies: &Vec<Result<OptionValue, i32>>) -> (p: SecurityProgress)
    requires
        replies@.len() >= 1,
    ensures
        p@ == curve_progress(replies_view(replies@)),
{
    let ghost rs = replies_view(replies@);
    if replies.len() <= 1 {
        return read(SocketOption::CurveSecretKey, ValueKind::Bytes);
    }
    assert(rs[1] == reply_view(replies@[1]));
    let secret_key = match bytes_value(&replies[1]) {
        Ok(k) => k,
        Err(e) => return SecurityProgress::Done(Err(e)),
    };
    if replies.len() <= 2 {
        return read(SocketOption::CurveServer, ValueKind::Int);
    }
    assert(rs[2] == reply_view(replies@[2]));
    let server = match bool_value(&replies[2]) {
        Ok(f) => f,
        Err(e) => return SecurityProgress::Done(Err(e)),
    };
    if server {
        return SecurityProgress::Done(Ok(SecurityMechanism::CurveServer { secret_key }));
    }
    if replies.len() <= 3 {
        return read(SocketOption::CurveServerKey, ValueKind::Bytes);
    }
    assert(rs[3] == reply_view(replies@[3]));
    let server_key = match bytes_value(&replies[3]) {
        Ok(k) => k,
        Err(e) => return SecurityProgress::Done(Err(e)),
    };
    if replies.len() <= 4 {
        return read(SocketOption::CurvePublicKey, ValueKind::Bytes);
    }
    assert(rs[4] == reply_view(replies@[4]));
    match bytes_value(&replies[4]) {
        Ok(public_key) => SecurityProgress::Done(
            Ok(SecurityMechanism::CurveClient { server_key, public_key, secret_key }),
        ),
        Err(e) => SecurityProgress::Done(Err(e)),
    }
}

fn gssapi_step(replies: &Vec<Result<OptionValue, i32>>) -> (p: SecurityProgress)
    requires
        replies@.len() >= 1,
    ensures
        p@ == gssapi_progress(replies_view(replies@)),
{
    let ghost rs = replies_view(replies@);
    if replies.len() <= 1 {
        return read(SocketOption::GssApiServer, ValueKind::Int);
    }
    assert(rs[1] == reply_view(replies@[1]));
    let server = match bool_value(&replies[1]) {
        Ok(f) => f,
        Err(e) => return SecurityProgress::Done(Err(e)),
    };
    if server {
        return SecurityProgress::Done(Ok(SecurityMechanism::GssApiServer));
    }
    if replies.len() <= 2 {
        return read(SocketOption::GssApiServicePrincipal, ValueKind::Bytes);
    }
    assert(rs[2] == reply_view(replies@[2]));
    match string_value(&replies[2]) {
        Ok(service_principal) => SecurityProgress::Done(
            Ok(SecurityMechanism::GssApiClient { service_principal }),
        ),
        Err(e) => SecurityProgress::Done(Err(e)),
    }
}

/// The next step of reading a socket's mechanism back, from the answers to the reads asked
/// so far (see [`security_progress_spec`]). Start with no answers; add the answer to each
/// requested read until the outcome is reached.
pub fn security_progress(replies: &Vec<Result<OptionValue, i32>>) -> (p: SecurityProgress)
    ensures
        p@ == security_progress_spec(replies_view(replies@)),
{
    let ghost rs = replies_view(replies@);
    if replies.len() == 0 {
        return read(SocketOption::Mechanism, ValueKind::Int);
    }
    assert(rs[0] == reply_view(replies@[0]));
    match int_value(&replies[0]) {
        Err(e) => SecurityProgress::Done(Err(e)),
        Ok(code) => if code == MECHANISM_NULL {
            SecurityProgress::Done(Ok(SecurityMechanism::Null))
        } else if code == MECHANISM_PLAIN {
            plain_step(replies)
        } else if code == MECHANISM_CURVE {
            curve_step(replies)
        } else if code == MECHANISM_GSSAPI {
            gssapi_step(replies)
        } else {
            SecurityProgress::Done(Err(ZmqError::Unsupported))
        },
    }
}

/// Whether the runtime answers a read of `option` with zero-terminated text.
pub open spec fn is_text_option(option: SocketOption) -> bool {
    option == SocketOption::PlainUsername || option == SocketOption::PlainPassword
        || option == SocketOption::GssApiServicePrincipal
}

/// The runtime's answer to a read of an option after the write of `data`: the value that
/// was written, and for text options its bytes followed by a terminating zero.
pub open spec fn answer_after_write(option: SocketOption, data: OptionData) -> Result<OptionData, i32> {
    if is_text_option(option) {
        match data {
            OptionData::Bytes(b) => Ok(OptionData::Bytes(b.push(0))),
            _ => Ok(data),
        }
    } else {
        Ok(data)
    }
}

/// Whether `store` answers reads as a socket does after the writes that set `m` up: the
/// mechanism number is that of `m`, each written option gives back what was written, and a
/// server flag that a client never writes is off.
pub open spec fn answers_after_setup(store: spec_fn(SocketOption) -> Result<OptionData, i32>, m: Mechanism) -> bool {
    let writes = mechanism_writes(m);
    &&& store(SocketOption::Mechanism) == Ok::<OptionData, i32>(OptionData::Int(mechanism_code(m)))
    &&& forall|i: int| 0 <= i < writes.len() ==> store(#[trigger] writes[i].0) == answer_after_write(writes[i].0, writes[i].1)
    &&& m is CurveClient ==> store(SocketOption::CurveServer) == Ok::<OptionData, i32>(OptionData::Int(0))
    &&& m is GssApiClient ==> store(SocketOption::GssApiServer) == Ok::<OptionData, i32>(OptionData::Int(0))
}

/// Whether the texts of a mechanism come back whole from the runtime: none holds a zero
/// character, at which the runtime's zero-terminated answer would end.
pub open spec fn texts_hold_no_nul(m: Mechanism) -> bool {
    match m {
        Mechanism::PlainClient { username, password } => !has_nul(encode_utf8(username)) && !has_nul(encode_utf8(password)),
        Mechanism::PlainServer { username, password } => !has_nul(encode_utf8(username)) && !has_nul(encode_utf8(password)),
        Mechanism::GssApiClient { service_principal } => !has_nul(encode_utf8(service_principal)),
        _ => true,
    }
}

/// The answers that reading a mechanism back gets from `store` in `n` rounds: each round
/// adds the answer to the read that [`security_progress_spec`] asks for, until it is done.
pub open spec fn reader_answers(store: spec_fn(SocketOption) -> Result<OptionData, i32>, n: nat) -> Seq<Result<OptionData, i32>>
    decreases n,
{
    if n == 0 {
        Seq::empty()
    } else {
        let prev = reader_answers(store, (n - 1) as nat);
        match security_progress_spec(prev) {
            ProgressView::Read(option, _) => prev.push(store(option)),
            ProgressView::Done(_) => prev,
        }
    }
}

/// What reading back gives for a mechanism that was set up: the mechanism itself, but a
/// PLAIN client, whose set-up turns the PLAIN server flag on, reads back as a PLAIN server.
pub open spec fn mechanism_read_back(m: Mechanism) -> Mechanism {
    match m {
        Mechanism::PlainClient { username, password } => Mechanism::PlainServer { username, password },
        _ => m,
    }
}

/// A text that holds no zero character comes back whole from its zero-terminated answer.
pub proof fn lemma_text_answer(text: Seq<char>)
    requires
        !has_nul(encode_utf8(text)),
    ensures
        text_of(Ok(OptionData::Bytes(encode_utf8(text).push(0)))) == Ok::<Seq<char>, ZmqError>(text),
{
    let b = encode_utf8(text);
    let bz = b.push(0);
    assert(bz[b.len() as int] == 0);
    assert(exists|i: int| 0 <= i < bz.len() && bz[i] == 0);
    let n = first_nul(bz)->0;
    assert(0 <= n < bz.len() && bz[n] == 0);
    if n < b.len() {
        assert(b[n] == 0);
        assert(has_nul(b));
    }
    assert(n == b.len());
    assert(bz.take(n) =~= b);
    encode_utf8_valid_utf8(text);
    encode_utf8_decode_utf8(text);
}

/// The first answer of every reading back is the mechanism number.
proof fn lemma_first_round(store: spec_fn(SocketOption) -> Result<OptionData, i32>)
    ensures
        reader_answers(store, 1) == seq![store(SocketOption::Mechanism)],
{
    assert(reader_answers(store, 0) =~= Seq::<Result<OptionData, i32>>::empty());
    assert(reader_answers(store, 1) =~= seq![store(SocketOption::Mechanism)]);
}

proof fn lemma_plain_rounds(
    store: spec_fn(SocketOption) -> Result<OptionData, i32>,
    username: Seq<char>,
    password: Seq<char>,
    server: bool,
)
    requires
        store(SocketOption::Mechanism) == Ok::<OptionData, i32>(OptionData::Int(MECHANISM_PLAIN)),
        store(SocketOption::PlainUsername) == Ok::<OptionData, i32>(OptionData::Bytes(encode_utf8(username).push(0))),
        store(SocketOption::PlainPassword) == Ok::<OptionData, i32>(OptionData::Bytes(encode_utf8(password).push(0))),
        store(SocketOption::PlainServer) == Ok::<OptionData, i32>(OptionData::Int(if server { 1 } else { 0 })),
        !has_nul(encode_utf8(username)),
        !has_nul(encode_utf8(password)),
    ensures
        security_progress_spec(reader_answers(store, 5)) == ProgressView::Done(Ok::<Mechanism, ZmqError>(
            if server { Mechanism::PlainServer { username, password } } else { Mechanism::PlainClient { username, password } },
        )),
{
    lemma_text_answer(username);
    lemma_text_answer(password);
    lemma_first_round(store);
    let r1 = reader_answers(store, 1);
    assert(security_progress_spec(r1) == ProgressView::Read(SocketOption::PlainUsername, ValueKind::Bytes));
    let r2 = reader_answers(store, 2);
    assert(r2 == r1.push(store(SocketOption::PlainUsername)));
    assert(security_progress_spec(r2) == ProgressView::Read(SocketOption::PlainPassword, ValueKind::Bytes));
    let r3 = reader_answers(store, 3);
    assert(r3 == r2.push(store(SocketOption::PlainPassword)));
    assert(security_progress_spec(r3) == ProgressView::Read(SocketOption::PlainServer, ValueKind::Int));
    let r4 = reader_answers(store, 4);
    assert(r4 == r3.push(store(SocketOption::PlainServer)));
    let r5 = reader_answers(store, 5);
    assert(r5 == r4);
}

proof fn lemma_curve_client_rounds(
    store: spec_fn(SocketOption) -> Result<OptionData, i32>,
    server_key: Seq<u8>,
    public_key: Seq<u8>,
    secret_key: Seq<u8>,
)
    requires
        store(SocketOption::Mechanism) == Ok::<OptionData, i32>(OptionData::Int(MECHANISM_CURVE)),
        store(SocketOption::CurveSecretKey) == Ok::<OptionData, i32>(OptionData::Bytes(secret_key)),
        store(SocketOption::CurveServer) == Ok::<OptionData, i32>(OptionData::Int(0)),
        store(SocketOption::CurveServerKey) == Ok::<OptionData, i32>(OptionData::Bytes(server_key)),
        store(SocketOption::CurvePublicKey) == Ok::<OptionData, i32>(OptionData::Bytes(public_key)),
    ensures
        security_progress_spec(reader_answers(store, 5)) == ProgressView::Done(Ok::<Mechanism, ZmqError>(
            Mechanism::CurveClient { server_key, public_key, secret_key },
        )),
{
    lemma_first_round(store);
    let r1 = reader_answers(store, 1);
    assert(security_progress_spec(r1) == ProgressView::Read(SocketOption::CurveSecretKey, ValueKind::Bytes));
    let r2 = reader_answers(store, 2);
    assert(r2 == r1.push(store(SocketOption::CurveSecretKey)));
    assert(security_progress_spec(r2) == ProgressView::Read(SocketOption::CurveServer, ValueKind::Int));
    let r3 = reader_answers(store, 3);
    assert(r3 == r2.push(store(SocketOption::CurveServer)));
    assert(security_progress_spec(r3) == ProgressView::Read(SocketOption::CurveServerKey, ValueKind::Bytes));
    let r4 = reader_answers(store, 4);
    assert(r4 == r3.push(store(SocketOption::CurveServerKey)));
    assert(security_progress_spec(r4) == ProgressView::Read(SocketOption::CurvePublicKey, ValueKind::Bytes));
    let r5 = reader_answers(store, 5);
    assert(r5 == r4.push(store(SocketOption::CurvePublicKey)));
}

proof fn lemma_curve_server_rounds(store: spec_fn(SocketOption) -> Result<OptionData, i32>, secret_key: Seq<u8>)
    requires
        store(SocketOption::Mechanism) == Ok::<OptionData, i32>(OptionData::Int(MECHANISM_CURVE)),
        store(SocketOption::CurveSecretKey) == Ok::<OptionData, i32>(OptionData::Bytes(secret_key)),
        store(SocketOption::CurveServer) == Ok::<OptionData, i32>(OptionData::Int(1)),
    ensures
        security_progress_spec(reader_answers(store, 5)) == ProgressView::Done(Ok::<Mechanism, ZmqError>(
            Mechanism::CurveServer { secret_key },
        )),
{
    lemma_first_round(store);
    let r1 = reader_answers(store, 1);
    assert(security_progress_spec(r1) == ProgressView::Read(SocketOption::CurveSecretKey, ValueKind::Bytes));
    let r2 = reader_answers(store, 2);
    assert(r2 == r1.push(store(SocketOption::CurveSecretKey)));
    assert(security_progress_spec(r2) == ProgressView::Read(SocketOption::CurveServer, ValueKind::Int));
    let r3 = reader_answers(store, 3);
    assert(r3 == r2.push(store(SocketOption::CurveServer)));
    assert(reader_answers(store, 4) == r3);
    assert(reader_answers(store, 5) == r3);
}

proof fn lemma_gssapi_rounds(
    store: spec_fn(SocketOption) -> Result<OptionData, i32>,
    service_principal: Seq<char>,
    server: bool,
)
    requires
        store(SocketOption::Mechanism) == Ok::<OptionData, i32>(OptionData::Int(MECHANISM_GSSAPI)),
        store(SocketOption::GssApiServer) == Ok::<OptionData, i32>(OptionData::Int(if server { 1 } else { 0 })),
        !server ==> store(SocketOption::GssApiServicePrincipal) == Ok::<OptionData, i32>(
            OptionData::Bytes(encode_utf8(service_principal).push(0)),
        ),
        !server ==> !has_nul(encode_utf8(service_principal)),
    ensures
        security_progress_spec(reader_answers(store, 5)) == ProgressView::Done(Ok::<Mechanism, ZmqError>(
            if server { Mechanism::GssApiServer } else { Mechanism::GssApiClient { service_principal } },
        )),
{
    if !server {
        lemma_text_answer(service_principal);
    }
    lemma_first_round(store);
    let r1 = reader_answers(store, 1);
    assert(security_progress_spec(r1) == ProgressView::Read(SocketOption::GssApiServer, ValueKind::Int));
    let r2 = reader_answers(store, 2);
    assert(r2 == r1.push(store(SocketOption::GssApiServer)));
    if server {
        assert(reader_answers(store, 3) == r2);
        assert(reader_answers(store, 4) == r2);
        assert(reader_answers(store, 5) == r2);
    } else {
        assert(security_progress_spec(r2) == ProgressView::Read(SocketOption::GssApiServicePrincipal, ValueKind::Bytes));
        let r3 = reader_answers(store, 3);
        assert(r3 == r2.push(store(SocketOption::GssApiServicePrincipal)));
        assert(reader_answers(store, 4) == r3);
        assert(reader_answers(store, 5) == r3);
    }
}

/// Reading back the mechanism of a socket that was set up with `m` gives `m` back; a PLAIN
/// client reads back as a PLAIN server with the same credentials (see
/// [`mechanism_read_back`]). The reading takes at most five rounds.
pub proof fn lemma_security_round_trip(m: Mechanism, store: spec_fn(SocketOption) -> Result<OptionData, i32>)
    requires
        answers_after_setup(store, m),
        texts_hold_no_nul(m),
    ensures
        security_progress_spec(reader_answers(store, 5)) == ProgressView::Done(Ok::<Mechanism, ZmqError>(mechanism_read_back(m))),
{
    let writes = mechanism_writes(m);
    match m {
        Mechanism::Null => {
            lemma_first_round(store);
            assert(reader_answers(store, 2) == reader_answers(store, 1));
            assert(reader_answers(store, 3) == reader_answers(store, 1));
            assert(reader_answers(store, 4) == reader_answers(store, 1));
            assert(reader_answers(store, 5) == reader_answers(store, 1));
        },
        Mechanism::PlainClient { username, password } => {
            assert(store(writes[0].0) == answer_after_write(writes[0].0, writes[0].1));
            assert(store(writes[1].0) == answer_after_write(writes[1].0, writes[1].1));
            assert(store(writes[2].0) == answer_after_write(writes[2].0, writes[2].1));
            lemma_plain_rounds(store, username, password, true);
        },
        Mechanism::PlainServer { username, password } => {
            assert(store(writes[0].0) == answer_after_write(writes[0].0, writes[0].1));
            assert(store(writes[1].0) == answer_after_write(writes[1].0, writes[1].1));
            assert(store(writes[2].0) == answer_after_write(writes[2].0, writes[2].1));
            lemma_plain_rounds(store, username, password, true);
        },
        Mechanism::CurveClient { server_key, public_key, secret_key } => {
            assert(store(writes[0].0) == answer_after_write(writes[0].0, writes[0].1));
            assert(store(writes[1].0) == answer_after_write(writes[1].0, writes[1].1));
            assert(store(writes[2].0) == answer_after_write(writes[2].0, writes[2].1));
            lemma_curve_client_rounds(store, server_key, public_key, secret_key);
        },
        Mechanism::CurveServer { secret_key } => {
            assert(store(writes[0].0) == answer_after_write(writes[0].0, writes[0].1));
            assert(store(writes[1].0) == answer_after_write(writes[1].0, writes[1].1));
            lemma_curve_server_rounds(store, secret_key);
        },
        Mechanism::GssApiClient { service_principal } => {
            assert(store(writes[0].0) == answer_after_write(writes[0].0, writes[0].1));
            lemma_gssapi_rounds(store, service_principal, false);
        },
        Mechanism::GssApiServer => {
            assert(store(writes[0].0) == answer_after_write(writes[0].0, writes[0].1));
            lemma_gssapi_rounds(store, Seq::empty(), true);
        },
    }
}

} // verus!

verus! {

/// The GSSAPI name types of principals.
#[derive(Debug, Clone, Copy, PartialEq, Eq, Hash, Structural)]
pub enum GssApiNametype {
    /// `ZMQ_GSSAPI_NT_HOSTBASED`
    NtHostbased,
    /// `ZMQ_GSSAPI_NT_USER_NAME`
    NtUsername,
    /// `ZMQ_GSSAPI_NT_KRB5_PRINCIPAL`
    NtKrb5Principal,
}

/// The number by which the runtime knows a GSSAPI name type.
pub open spec fn nametype_code(n: GssApiNametype) -> i32 {
    match n {
        GssApiNametype::NtHostbased => 0,
        GssApiNametype::NtUsername => 1,
        GssApiNametype::NtKrb5Principal => 2,
    }
}

/// The GSSAPI name type with the number `value`; any other number is unsupported.
pub open spec fn nametype_of_code(value: i32) -> Result<GssApiNametype, ZmqError> {
    if value == 0 {
        Ok(GssApiNametype::NtHostbased)
    } else if value == 1 {
        Ok(GssApiNametype::NtUsername)
    } else if value == 2 {
        Ok(GssApiNametype::NtKrb5Principal)
    } else {
        Err(ZmqError::Unsupported)
    }
}

impl From<GssApiNametype> for i32 {
    fn from(value: GssApiNametype) -> (code: i32) {
        match value {
            GssApiNametype::NtHostbased => 0,
            GssApiNametype::NtUsername => 1,
            GssApiNametype::NtKrb5Principal => 2,
        }
    }
}

impl vstd::std_specs::convert::FromSpecImpl<GssApiNametype> for i32 {
    open spec fn obeys_from_spec() -> bool {
        true
    }

    open spec fn from_spec(value: GssApiNametype) -> i32 {
        nametype_code(value)
    }
}

impl TryFrom<i32> for GssApiNametype {
    type Error = ZmqError;

    fn try_from(value: i32) -> (r: Result<GssApiNametype, ZmqError>) {
        if value == 0 {
            Ok(GssApiNametype::NtHostbased)
        } else if value == 1 {
            Ok(GssApiNametype::NtUsername)
        } else if value == 2 {
            Ok(GssApiNametype::NtKrb5Principal)
        } else {
            Err(ZmqError::Unsupported)
        }
    }
}

impl vstd::std_specs::convert::TryFromSpecImpl<i32> for GssApiNametype {
    open spec fn obeys_try_from_spec() -> bool {
        true
    }

    open spec fn try_from_spec(value: i32) -> Result<GssApiNametype, ZmqError> {
        nametype_of_code(value)
    }
}

/// The text by which a name type describes itself: the name of its variant.
pub open spec fn nametype_text(n: GssApiNametype) -> Seq<char> {
    match n {
        GssApiNametype::NtHostbased => "NtHostbased"@,
        GssApiNametype::NtUsername => "NtUsername"@,
        GssApiNametype::NtKrb5Principal => "NtKrb5Principal"@,
    }
}

impl GssApiNametype {
    /// The text by which this name type describes itself (see [`nametype_text`]).
    pub fn to_string(&self) -> (s: String)
        ensures
            s@ == nametype_text(*self),
    {
        match self {
            GssApiNametype::NtHostbased => String::from_str("NtHostbased"),
            GssApiNametype::NtUsername => String::from_str("NtUsername"),
            GssApiNametype::NtKrb5Principal => String::from_str("NtKrb5Principal"),
        }
    }
}

/// A name type comes back from its number, and only its number gives it.
pub proof fn lemma_nametype_round_trip(n: GssApiNametype, value: i32)
    ensures
        nametype_of_code(nametype_code(n)) == Ok::<GssApiNametype, ZmqError>(n),
        nametype_of_code(value) == Ok::<GssApiNametype, ZmqError>(n) ==> value == nametype_code(n),
{
}

/// The name type that a read of a name type option gave back.
pub fn nametype_value(reply: &Result<OptionValue, i32>) -> (r: ZmqResult<GssApiNametype>)
    ensures
        r == (match int_of(reply_view(*reply)) {
            Ok(v) => nametype_of_code(v),
            Err(e) => Err(e),
        }),
{
    match int_value(reply) {
        Ok(v) => GssApiNametype::try_from(v),
        Err(e) => Err(e),
    }
}

/// What a call that makes CURVE keys comes to: the keys, or, where the runtime was built
/// without CURVE (`ENOTSUP`, the only error of these calls), an unsupported operation.
pub fn curve_key_result<K>(status: Result<K, i32>) -> (r: ZmqResult<K>)
    requires
        status matches Err(code) ==> code == crate::errno::ENOTSUP,
    ensures
        match status {
            Ok(k) => r == Ok::<K, ZmqError>(k),
            Err(_) => r == Err::<K, ZmqError>(ZmqError::Unsupported),
        },
{
    match status {
        Ok(k) => Ok(k),
        Err(code) => Err(ZmqError::from(code)),
    }
}

} // verus!

//! Option values as the 0MQ runtime takes and gives them, the writes and reads the library
//! asks of it, and how the runtime's answers become results.
use vstd::prelude::*;
use vstd::utf8::{decode_utf8, valid_utf8};

use crate::error::{error_of_errno, ZmqError, ZmqResult};

verus! {

/// A value of an option, in the width the runtime stores it in.
#[derive(Debug, Clone, PartialEq, Eq)]
pub enum OptionValue {
    /// a C `int`
    Int(i32),
    /// a 64-bit signed integer
    Long(i64),
    /// a 64-bit unsigned integer
    ULong(u64),
    /// a binary or character value
    Bytes(Vec<u8>),
}

/// The width in which an option is read.
#[derive(Debug, Clone, Copy, PartialEq, Eq, Structural)]
pub enum ValueKind {
    /// a C `int`
    Int,
    /// a 64-bit signed integer
    Long,
    /// a 64-bit unsigned integer
    ULong,
    /// a binary or character value
    Bytes,
}

/// The mathematical value of an option value.
pub ghost enum OptionData {
    Int(i32),
    Long(i64),
    ULong(u64),
    Bytes(Seq<u8>),
}

impl View for OptionValue {
    type V = OptionData;

    open spec fn view(&self) -> OptionData {
        match self {
            OptionValue::Int(v) => OptionData::Int(*v),
            OptionValue::Long(v) => OptionData::Long(*v),
            OptionValue::ULong(v) => OptionData::ULong(*v),
            OptionValue::Bytes(b) => OptionData::Bytes(b@),
        }
    }
}

/// The mathematical value of the runtime's answer to a read: the value, or an error number.
pub open spec fn reply_view(reply: Result<OptionValue, i32>) -> Result<OptionData, i32> {
    match reply {
        Ok(v) => Ok(v@),
        Err(code) => Err(code),
    }
}

/// Whether `value` is the byte value `bytes`.
pub open spec fn holds_bytes(value: OptionValue, bytes: Seq<u8>) -> bool {
    value matches OptionValue::Bytes(b) && b@ == bytes
}

/// The C `int` by which the runtime stores a flag.
pub open spec fn flag_int(flag: bool) -> i32 {
    if flag {
        1
    } else {
        0
    }
}

/// The C `int` by which the runtime stores a flag.
pub fn flag_value(flag: bool) -> (v: OptionValue)
    ensures
        v == OptionValue::Int(flag_int(flag)),
{
    if flag {
        OptionValue::Int(1)
    } else {
        OptionValue::Int(0)
    }
}

/// What a write of an option comes to, from the runtime's status: an error number becomes
/// its error.
pub fn write_status(status: Result<(), i32>) -> (r: ZmqResult<()>)
    ensures
        match status {
            Ok(()) => r == Ok::<(), ZmqError>(()),
            Err(code) => r == Err::<(), ZmqError>(error_of_errno(code)),
        },
{
    match status {
        Ok(()) => Ok(()),
        Err(code) => Err(ZmqError::from(code)),
    }
}

/// The C `int` that a read gave back; a value of another width is an invalid argument.
pub fn int_value(reply: &Result<OptionValue, i32>) -> (r: ZmqResult<i32>)
    ensures
        match *reply {
            Ok(OptionValue::Int(v)) => r == Ok::<i32, ZmqError>(v),
            Ok(_) => r == Err::<i32, ZmqError>(ZmqError::InvalidArgument),
            Err(code) => r == Err::<i32, ZmqError>(error_of_errno(code)),
        },
{
    match reply {
        Ok(OptionValue::Int(v)) => Ok(*v),
        Ok(_) => Err(ZmqError::InvalidArgument),
        Err(code) => Err(ZmqError::from(*code)),
    }
}

/// The 64-bit signed integer that a read gave back; a value of another width is an
/// invalid argument.
pub fn long_value(reply: &Result<OptionValue, i32>) -> (r: ZmqResult<i64>)
    ensures
        match *reply {
            Ok(OptionValue::Long(v)) => r == Ok::<i64, ZmqError>(v),
            Ok(_) => r == Err::<i64, ZmqError>(ZmqError::InvalidArgument),
            Err(code) => r == Err::<i64, ZmqError>(error_of_errno(code)),
        },
{
    match reply {
        Ok(OptionValue::Long(v)) => Ok(*v),
        Ok(_) => Err(ZmqError::InvalidArgument),
        Err(code) => Err(ZmqError::from(*code)),
    }
}

/// The 64-bit unsigned integer that a read gave back; a value of another width is an
/// invalid argument.
pub fn ulong_value(reply: &Result<OptionValue, i32>) -> (r: ZmqResult<u64>)
    ensures
        match *reply {
            Ok(OptionValue::ULong(v)) => r == Ok::<u64, ZmqError>(v),
            Ok(_) => r == Err::<u64, ZmqError>(ZmqError::InvalidArgument),
            Err(code) => r == Err::<u64, ZmqError>(error_of_errno(code)),
        },
{
    match reply {
        Ok(OptionValue::ULong(v)) => Ok(*v),
        Ok(_) => Err(ZmqError::InvalidArgument),
        Err(code) => Err(ZmqError::from(*code)),
    }
}

/// The flag that a read gave back: any C `int` but zero is set.
pub fn bool_value(reply: &Result<OptionValue, i32>) -> (r: ZmqResult<bool>)
    ensures
        match *reply {
            Ok(OptionValue::Int(v)) => r == Ok::<bool, ZmqError>(v != 0),
            Ok(_) => r == Err::<bool, ZmqError>(ZmqError::InvalidArgument),
            Err(code) => r == Err::<bool, ZmqError>(error_of_errno(code)),
        },
{
    match reply {
        Ok(OptionValue::Int(v)) => Ok(*v != 0),
        Ok(_) => Err(ZmqError::InvalidArgument),
        Err(code) => Err(ZmqError::from(*code)),
    }
}

/// The bytes that a read gave back; a value of another width is an invalid argument.
pub fn bytes_value(reply: &Result<OptionValue, i32>) -> (r: ZmqResult<Vec<u8>>)
    ensures
        match *reply {
            Ok(OptionValue::Bytes(b)) => r matches Ok(v) && v@ == b@,
            Ok(_) => r == Err::<Vec<u8>, ZmqError>(ZmqError::InvalidArgument),
            Err(code) => r == Err::<Vec<u8>, ZmqError>(error_of_errno(code)),
        },
{
    match reply {
        Ok(OptionValue::Bytes(b)) => Ok(b.clone()),
        Ok(_) => Err(ZmqError::InvalidArgument),
        Err(code) => Err(ZmqError::from(*code)),
    }
}

/// The position of the first zero byte, if there is one.
pub open spec fn first_nul(bytes: Seq<u8>) -> Option<int> {
    if exists|i: int| 0 <= i < bytes.len() && bytes[i] == 0 {
        Some(
            choose|i: int|
                0 <= i < bytes.len() && bytes[i] == 0 && forall|j: int| 0 <= j < i ==> bytes[j] != 0,
        )
    } else {
        None
    }
}

/// The text of a zero-terminated character value: the bytes before the first zero byte,
/// read as UTF-8. A value without a zero byte, or whose text is no UTF-8, has none.
pub open spec fn c_string_text(bytes: Seq<u8>) -> Option<Seq<char>> {
    match first_nul(bytes) {
        Some(n) => if valid_utf8(bytes.take(n)) {
            Some(decode_utf8(bytes.take(n)))
        } else {
            None
        },
        None => None,
    }
}

/// The C `int` of an answer: a value of another width is an invalid argument, an error
/// number its error.
pub open spec fn int_of(reply: Result<OptionData, i32>) -> Result<i32, ZmqError> {
    match reply {
        Ok(OptionData::Int(v)) => Ok(v),
        Ok(_) => Err(ZmqError::InvalidArgument),
        Err(code) => Err(error_of_errno(code)),
    }
}

/// The flag of an answer: any C `int` but zero is set.
pub open spec fn flag_of(reply: Result<OptionData, i32>) -> Result<bool, ZmqError> {
    match reply {
        Ok(OptionData::Int(v)) => Ok(v != 0),
        Ok(_) => Err(ZmqError::InvalidArgument),
        Err(code) => Err(error_of_errno(code)),
    }
}

/// The bytes of an answer.
pub open spec fn bytes_of(reply: Result<OptionData, i32>) -> Result<Seq<u8>, ZmqError> {
    match reply {
        Ok(OptionData::Bytes(b)) => Ok(b),
        Ok(_) => Err(ZmqError::InvalidArgument),
        Err(code) => Err(error_of_errno(code)),
    }
}

/// The zero-terminated text of an answer.
pub open spec fn text_of(reply: Result<OptionData, i32>) -> Result<Seq<char>, ZmqError> {
    match reply {
        Ok(OptionData::Bytes(b)) => match c_string_text(b) {
            Some(t) => Ok(t),
            None => Err(ZmqError::InvalidArgument),
        },
        Ok(_) => Err(ZmqError::InvalidArgument),
        Err(code) => Err(error_of_errno(code)),
    }
}

/// Reads bytes as UTF-8 (`String::from_utf8`): gives the text exactly when the bytes are
/// valid UTF-8.
#[verifier::external_body]
fn utf8_text(bytes: Vec<u8>) -> (r: Option<String>)
    ensures
        r is Some <==> valid_utf8(bytes@),
        r matches Some(s) ==> s@ == decode_utf8(bytes@),
{
    String::from_utf8(bytes).ok()
}

/// The text of a zero-terminated character value (see [`c_string_text`]).
pub fn c_string(bytes: &Vec<u8>) -> (r: Option<String>)
    ensures
        match c_string_text(bytes@) {
            Some(t) => r matches Some(s) && s@ == t,
            None => r is None,
        },
{
    let mut n: usize = 0;
    while n < bytes.len() && bytes[n] != 0
        invariant
            n <= bytes.len(),
            forall|j: int| 0 <= j < n ==> bytes@[j] != 0,
        decreases bytes.len() - n,
    {
        n = n + 1;
    }
    if n == bytes.len() {
        assert(!exists|i: int| 0 <= i < bytes@.len() && bytes@[i] == 0);
        return None;
    }
    assert(bytes@[n as int] == 0);
    proof {
        let m = first_nul(bytes@)->0;
        assert(m == n as int);
    }
    let mut prefix: Vec<u8> = Vec::new();
    let mut i: usize = 0;
    while i < n
        invariant
            i <= n < bytes.len(),
            prefix@ == bytes@.take(i as int),
        decreases n - i,
    {
        prefix.push(bytes[i]);
        i = i + 1;
        assert(prefix@ == bytes@.take(i as int));
    }
    utf8_text(prefix)
}

/// The text that a read of a character option gave back: the zero-terminated text, an
/// invalid argument where there is none, or the error of the read.
pub fn string_value(reply: &Result<OptionValue, i32>) -> (r: ZmqResult<String>)
    ensures
        match *reply {
            Ok(OptionValue::Bytes(b)) => match c_string_text(b@) {
                Some(t) => r matches Ok(s) && s@ == t,
                None => r == Err::<String, ZmqError>(ZmqError::InvalidArgument),
            },
            Ok(_) => r == Err::<String, ZmqError>(ZmqError::InvalidArgument),
            Err(code) => r == Err::<String, ZmqError>(error_of_errno(code)),
        },
{
    match reply {
        Ok(OptionValue::Bytes(b)) => match c_string(b) {
            Some(s) => Ok(s),
            None => Err(ZmqError::InvalidArgument),
        },
        Ok(_) => Err(ZmqError::InvalidArgument),
        Err(code) => Err(ZmqError::from(*code)),
    }
}

} // verus!

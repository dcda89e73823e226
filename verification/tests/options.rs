use arzmq::option::{
    bool_value, bytes_value, c_string, flag_value, int_value, long_value, string_value, ulong_value,
    write_status, OptionValue,
};
use arzmq::{errno, ZmqError};

#[test]
fn flags_are_stored_as_ints() {
    assert_eq!(flag_value(true), OptionValue::Int(1));
    assert_eq!(flag_value(false), OptionValue::Int(0));
}

#[test]
fn write_statuses() {
    assert_eq!(write_status(Ok(())), Ok(()));
    assert_eq!(write_status(Err(errno::EINVAL)), Err(ZmqError::InvalidArgument));
    assert_eq!(write_status(Err(errno::ETERM)), Err(ZmqError::ContextTerminated));
}

#[test]
fn int_long_and_ulong_reads() {
    assert_eq!(int_value(&Ok(OptionValue::Int(-5))), Ok(-5));
    assert_eq!(int_value(&Ok(OptionValue::Long(5))), Err(ZmqError::InvalidArgument));
    assert_eq!(int_value(&Err(errno::ENOTSOCK)), Err(ZmqError::SocketNull));
    assert_eq!(long_value(&Ok(OptionValue::Long(-1 << 40))), Ok(-1 << 40));
    assert_eq!(long_value(&Ok(OptionValue::Int(1))), Err(ZmqError::InvalidArgument));
    assert_eq!(long_value(&Err(errno::EFAULT)), Err(ZmqError::ContextInvalid));
    assert_eq!(ulong_value(&Ok(OptionValue::ULong(u64::MAX))), Ok(u64::MAX));
    assert_eq!(ulong_value(&Ok(OptionValue::Bytes(vec![1]))), Err(ZmqError::InvalidArgument));
    assert_eq!(ulong_value(&Err(errno::EAGAIN)), Err(ZmqError::Again));
}

#[test]
fn bool_reads() {
    assert_eq!(bool_value(&Ok(OptionValue::Int(0))), Ok(false));
    assert_eq!(bool_value(&Ok(OptionValue::Int(1))), Ok(true));
    assert_eq!(bool_value(&Ok(OptionValue::Int(-7))), Ok(true));
    assert_eq!(bool_value(&Ok(OptionValue::ULong(1))), Err(ZmqError::InvalidArgument));
    assert_eq!(bool_value(&Err(errno::EINTR)), Err(ZmqError::Interrupted));
}

#[test]
fn byte_reads() {
    assert_eq!(bytes_value(&Ok(OptionValue::Bytes(vec![1, 0, 2]))), Ok(vec![1, 0, 2]));
    assert_eq!(bytes_value(&Ok(OptionValue::Int(3))), Err(ZmqError::InvalidArgument));
    assert_eq!(bytes_value(&Err(errno::EMSGSIZE)), Err(ZmqError::MessageTooLong));
}

#[test]
fn c_strings_end_at_the_first_zero_byte() {
    assert_eq!(c_string(&b"abc\0def\0".to_vec()), Some("abc".to_string()));
    assert_eq!(c_string(&b"\0".to_vec()), Some(String::new()));
    assert_eq!(c_string(&"grüße\0".as_bytes().to_vec()), Some("grüße".to_string()));
    assert_eq!(c_string(&b"no terminator".to_vec()), None);
    assert_eq!(c_string(&Vec::new()), None);
    assert_eq!(c_string(&vec![0xff, 0xfe, 0]), None);
}

#[test]
fn string_reads() {
    assert_eq!(string_value(&Ok(OptionValue::Bytes(b"tcp://127.0.0.1:5555\0".to_vec()))), Ok("tcp://127.0.0.1:5555".to_string()));
    assert_eq!(string_value(&Ok(OptionValue::Bytes(b"unterminated".to_vec()))), Err(ZmqError::InvalidArgument));
    assert_eq!(string_value(&Ok(OptionValue::Bytes(vec![0xc3, 0x28, 0]))), Err(ZmqError::InvalidArgument));
    assert_eq!(string_value(&Ok(OptionValue::Int(1))), Err(ZmqError::InvalidArgument));
    assert_eq!(string_value(&Err(errno::ENOMEM)), Err(ZmqError::InsufficientMemory));
}

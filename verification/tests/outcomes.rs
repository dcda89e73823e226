use arzmq::message::{receive_step, Message, MultipartMessage, ReceiveProgress};
use arzmq::outcome::{next_call, CallStep};
use arzmq::{errno, ZmqError};

/// Runs calls whose statuses are `answers` the way the library decides, and gives the
/// number of calls made and the outcome.
fn run(answers: &[Result<(), i32>]) -> (usize, Result<(), ZmqError>) {
    let mut statuses = Vec::new();
    loop {
        match next_call(&statuses, answers.len()) {
            CallStep::Make(i) => {
                assert_eq!(i, statuses.len());
                statuses.push(answers[i]);
            }
            CallStep::Done(outcome) => return (statuses.len(), outcome),
        }
    }
}

#[test]
fn calls_are_made_in_order_until_one_fails() {
    assert_eq!(run(&[]), (0, Ok(())));
    assert_eq!(run(&[Ok(()), Ok(()), Ok(())]), (3, Ok(())));
    assert_eq!(run(&[Ok(()), Err(errno::EINVAL), Ok(()), Err(errno::ETERM)]), (2, Err(ZmqError::InvalidArgument)));
    assert_eq!(run(&[Err(errno::ETERM)]), (1, Err(ZmqError::ContextTerminated)));
}

#[test]
fn next_call_steps() {
    assert_eq!(next_call(&Vec::new(), 2), CallStep::Make(0));
    assert_eq!(next_call(&vec![Ok(())], 2), CallStep::Make(1));
    assert_eq!(next_call(&vec![Ok(()), Ok(())], 2), CallStep::Done(Ok(())));
    assert_eq!(next_call(&vec![Err(errno::EAGAIN)], 2), CallStep::Done(Err(ZmqError::Again)));
}

fn receive(replies: Vec<Result<Message, i32>>) -> (usize, Result<MultipartMessage, ZmqError>) {
    let mut progress = ReceiveProgress::Receiving(MultipartMessage::new());
    let mut used = 0;
    for reply in replies {
        if let ReceiveProgress::Done(_) = progress {
            break;
        }
        progress = receive_step(progress, reply);
        used += 1;
    }
    match progress {
        ReceiveProgress::Done(result) => (used, result),
        ReceiveProgress::Receiving(_) => panic!("receiving did not end"),
    }
}

fn part(byte: u8, more: bool) -> Message {
    Message::from_parts(vec![byte], more, None, None)
}

#[test]
fn a_message_is_received_up_to_its_last_part() {
    let (used, result) = receive(vec![Ok(part(1, true)), Ok(part(2, true)), Ok(part(3, false)), Ok(part(4, false))]);
    assert_eq!(used, 3);
    let parts = result.unwrap();
    assert_eq!(parts.len(), 3);
    assert_eq!(parts.get(2).map(|m| m.bytes()), Some(vec![3]));
    assert!(parts.get(0).unwrap().get_more());
    assert!(!parts.get(2).unwrap().get_more());
}

#[test]
fn a_failed_receive_ends_with_its_error() {
    let (used, result) = receive(vec![Ok(part(1, true)), Err(errno::EAGAIN), Ok(part(3, false))]);
    assert_eq!(used, 2);
    assert_eq!(result.map(|m| m.len()), Err(ZmqError::Again));
}

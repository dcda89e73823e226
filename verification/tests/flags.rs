use arzmq::socket::{MonitorFlags, PollEvents, RecvFlags, RouterNotify, SendFlags};

#[test]
fn monitor_flags_bits() {
    assert_eq!(MonitorFlags::Connected().bits(), 1);
    assert_eq!(MonitorFlags::BindFailed().bits(), 16);
    assert_eq!(MonitorFlags::HandshakeFailedAuth().bits(), 16384);
    assert_eq!(MonitorFlags::all().bits(), 32767);
    assert!(MonitorFlags::empty().is_empty());
    assert_eq!(MonitorFlags::from(16u16), MonitorFlags::BindFailed());
    assert_eq!(MonitorFlags::from_bits_truncate(0xffff).bits(), 0x7fff);
    assert_eq!(MonitorFlags::from_bits_retain(0x8000).bits(), 0x8000);
    let both = MonitorFlags::Connected().union(MonitorFlags::Disconnected());
    assert_eq!(both.bits(), 513);
    assert!(both.contains(MonitorFlags::Disconnected()));
    assert!(!both.contains(MonitorFlags::Closed()));
    assert_eq!(both.intersection(MonitorFlags::Connected()), MonitorFlags::Connected());
}

#[test]
fn send_and_receive_flags() {
    assert_eq!(RecvFlags::DONT_WAIT().bits(), 1);
    assert_eq!(RecvFlags::all().bits(), 1);
    assert_eq!(RecvFlags::from(3).bits(), 3);
    assert_eq!(RecvFlags::from_bits_truncate(3).bits(), 1);
    assert_eq!(SendFlags::DONT_WAIT().bits(), 1);
    assert_eq!(SendFlags::SEND_MORE().bits(), 2);
    assert_eq!(SendFlags::DONT_WAIT().union(SendFlags::SEND_MORE()).bits(), 3);
    assert_eq!(SendFlags::from_bits_truncate(0x7f).bits(), 3);
    assert!(SendFlags::all().contains(SendFlags::SEND_MORE()));
    assert!(SendFlags::empty().is_empty());
}

#[test]
fn poll_events_and_router_notifications() {
    assert_eq!(PollEvents::POLL_IN().bits(), 1);
    assert_eq!(PollEvents::POLL_OUT().bits(), 2);
    assert_eq!(PollEvents::POLL_ERR().bits(), 4);
    assert_eq!(PollEvents::POLL_PRI().bits(), 8);
    assert_eq!(PollEvents::all().bits(), 15);
    assert_eq!(PollEvents::from(0x13).bits(), 0x13);
    assert_eq!(PollEvents::from_bits_truncate(0x13).bits(), 3);
    assert_eq!(RouterNotify::NotifyConnect().bits(), 1);
    assert_eq!(RouterNotify::NotifyDisconnect().bits(), 2);
    assert_eq!(RouterNotify::all().bits(), 3);
    assert_eq!(RouterNotify::from_bits_retain(8).bits(), 8);
}

use tcp_multiplexer::bus::Bus;
use tcp_multiplexer::bus::Message;
use tcp_multiplexer::bus::RecvOutcome;
use tcp_multiplexer::bus::DEFAULT_CAPACITY;
use tcp_multiplexer::server::accept_fault_is_fatal;
use tcp_multiplexer::server::AcceptFault;
use tcp_multiplexer::server::IdMint;

fn message(origin: u64, text: &str) -> Message {
    Message {
        origin,
        payload: text.to_string(),
        from: origin.to_string(),
    }
}

#[test]
fn fresh_subscription_is_pending() {
    let bus = Bus::new(DEFAULT_CAPACITY);
    let mut sub = bus.subscribe();
    assert!(matches!(bus.receive(&mut sub), RecvOutcome::Pending));
}

#[test]
fn publish_without_subscribers_succeeds() {
    let mut bus = Bus::new(DEFAULT_CAPACITY);
    bus.publish(message(1, "unheard"));
    let mut late = bus.subscribe();
    assert!(matches!(bus.receive(&mut late), RecvOutcome::Pending));
}

#[test]
fn delivery_in_publish_order() {
    let mut bus = Bus::new(DEFAULT_CAPACITY);
    let mut sub = bus.subscribe();
    bus.publish(message(1, "first"));
    bus.publish(message(2, "second"));
    match bus.receive(&mut sub) {
        RecvOutcome::Delivered(m) => assert_eq!(m.payload, "first"),
        _ => panic!("first message expected"),
    }
    match bus.receive(&mut sub) {
        RecvOutcome::Delivered(m) => assert_eq!(m.payload, "second"),
        _ => panic!("second message expected"),
    }
    assert!(matches!(bus.receive(&mut sub), RecvOutcome::Pending));
}

#[test]
fn stalled_subscriber_lags_then_resumes() {
    let mut bus = Bus::new(10);
    let mut stalled = bus.subscribe();
    for i in 0..11u64 {
        bus.publish(message(i, &format!("m{}", i)));
    }
    match bus.receive(&mut stalled) {
        RecvOutcome::Lagged(n) => assert_eq!(n, 1),
        _ => panic!("lag notification expected, not a block or a silent skip"),
    }
    for i in 1..11u64 {
        match bus.receive(&mut stalled) {
            RecvOutcome::Delivered(m) => assert_eq!(m.payload, format!("m{}", i)),
            _ => panic!("retained message expected"),
        }
    }
    assert!(matches!(bus.receive(&mut stalled), RecvOutcome::Pending));
}

#[test]
fn lag_counts_every_dropped_message() {
    let mut bus = Bus::new(2);
    let mut stalled = bus.subscribe();
    for i in 0..7u64 {
        bus.publish(message(i, &format!("m{}", i)));
    }
    match bus.receive(&mut stalled) {
        RecvOutcome::Lagged(n) => assert_eq!(n, 5),
        _ => panic!("lag notification expected"),
    }
    match bus.receive(&mut stalled) {
        RecvOutcome::Delivered(m) => assert_eq!(m.payload, "m5"),
        _ => panic!("oldest retained message expected"),
    }
}

#[test]
fn duplicate_preserves_message() {
    let m = message(3, "MESSAGE:5001 HI\n");
    let d = m.duplicate();
    assert_eq!(d.origin, 3);
    assert_eq!(d.payload, "MESSAGE:5001 HI\n");
    assert_eq!(d.from, "3");
}

#[test]
fn only_not_connected_accept_fault_is_benign() {
    assert!(!accept_fault_is_fatal(&AcceptFault::NotConnected));
    assert!(accept_fault_is_fatal(&AcceptFault::Other));
}

#[test]
fn minted_identities_are_distinct() {
    let mut mint = IdMint::new();
    let a = mint.mint();
    let b = mint.mint();
    let c = mint.mint();
    assert_eq!(a, 0);
    assert_eq!(b, 1);
    assert_eq!(c, 2);
}

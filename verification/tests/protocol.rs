use tcp_multiplexer::decimal::u16_dec;
use tcp_multiplexer::protocol::handle_acknowledgment_message;
use tcp_multiplexer::protocol::handle_forward_message;
use tcp_multiplexer::protocol::handle_incoming_message;
use tcp_multiplexer::protocol::login_banner;

#[test]
fn acknowledgment_is_constant() {
    assert_eq!(handle_acknowledgment_message(), "ACK:MESSAGE\n");
    assert_eq!(handle_acknowledgment_message(), "ACK:MESSAGE\n");
}

#[test]
fn incoming_is_uppercased() {
    assert_eq!(handle_incoming_message("hello"), "HELLO");
    assert_eq!(handle_incoming_message("hello\n"), "HELLO\n");
    assert_eq!(handle_incoming_message("MiXeD 123!"), "MIXED 123!");
}

#[test]
fn incoming_empty_stays_empty() {
    assert_eq!(handle_incoming_message(""), "");
}

#[test]
fn forward_message_wraps_with_label() {
    assert_eq!(
        handle_forward_message(8080, "REQUEST".to_string()),
        "MESSAGE:8080 REQUEST"
    );
}

#[test]
fn broadcast_payload_formula() {
    let payload = handle_forward_message(5001, handle_incoming_message("hello\n"));
    assert_eq!(payload, "MESSAGE:5001 HELLO\n");
}

#[test]
fn broadcast_payload_deterministic() {
    let a = handle_forward_message(5001, handle_incoming_message("some line\n"));
    let b = handle_forward_message(5001, handle_incoming_message("some line\n"));
    assert_eq!(a, b);
    assert_eq!(a, "MESSAGE:5001 SOME LINE\n");
}

#[test]
fn decimal_rendering_exact() {
    assert_eq!(u16_dec(0), "0");
    assert_eq!(u16_dec(9), "9");
    assert_eq!(u16_dec(10), "10");
    assert_eq!(u16_dec(5001), "5001");
    assert_eq!(u16_dec(27632), "27632");
    assert_eq!(u16_dec(65535), "65535");
}

#[test]
fn login_banner_exact() {
    assert_eq!(login_banner(5001), "LOGIN: 5001\n");
    assert_eq!(login_banner(0), "LOGIN: 0\n");
}

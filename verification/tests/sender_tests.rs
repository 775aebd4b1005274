use log_relay::actor::run_actor;
use log_relay::actor::Actor;
use log_relay::actor::Delivery;
use log_relay::chunk::Chunk;
use log_relay::link::NetworkConfig;
use log_relay::sender::choose_port;
use log_relay::sender::parse_port;
use log_relay::sender::LogSender;
use log_relay::sender::SenderAction;
use log_relay::sender::SenderEvent;
use log_relay::sender::SenderPhase;
use log_relay::sender::DEFAULT_SERVER_PORT;

#[test]
fn port_parsing_follows_u16_rules() {
    assert_eq!(parse_port("3030"), Some(3030));
    assert_eq!(parse_port("0"), Some(0));
    assert_eq!(parse_port("+81"), Some(81));
    assert_eq!(parse_port("65535"), Some(65535));
    assert_eq!(parse_port("65536"), None);
    assert_eq!(parse_port(""), None);
    assert_eq!(parse_port("+"), None);
    assert_eq!(parse_port("12a"), None);
    assert_eq!(parse_port(" 12"), None);
    assert_eq!(parse_port("-1"), None);
}

#[test]
fn unparseable_port_falls_back_to_default() {
    assert_eq!(DEFAULT_SERVER_PORT, 3030);
    assert_eq!(choose_port("nonsense"), DEFAULT_SERVER_PORT);
    assert_eq!(choose_port(""), DEFAULT_SERVER_PORT);
    assert_eq!(choose_port("70000"), DEFAULT_SERVER_PORT);
    assert_eq!(choose_port("4040"), 4040);
}

#[test]
fn sender_protocol_listens_then_serves_one_client() {
    let cfg = NetworkConfig { addr: 0xC0A80105, prefix_len: 24, gateway: None };
    let mut s = LogSender::new("4040");
    assert_eq!(s.phase(), SenderPhase::AwaitingNetwork);
    assert_eq!(s.port(), 4040);

    let a = s.handle_event(SenderEvent::NetworkStatus(Some(cfg)));
    assert_eq!(s.phase(), SenderPhase::Listening);
    assert_eq!(a, SenderAction::Listen { addr: 0xC0A80105, port: 4040 });

    let a = s.handle_event(SenderEvent::ConnectionAttempt);
    assert_eq!(s.phase(), SenderPhase::Serving);
    assert_eq!(a, SenderAction::AcceptClient);
}

#[test]
fn second_connection_attempt_is_not_accepted_while_serving() {
    let cfg = NetworkConfig { addr: 1, prefix_len: 24, gateway: None };
    let mut s = LogSender::new("3030");
    s.handle_event(SenderEvent::NetworkStatus(Some(cfg)));
    s.handle_event(SenderEvent::ConnectionAttempt);
    assert_eq!(s.phase(), SenderPhase::Serving);

    // A second simultaneous attempt while the first client is active.
    let a = s.handle_event(SenderEvent::ConnectionAttempt);
    assert_eq!(a, SenderAction::Ignore);
    assert_eq!(s.phase(), SenderPhase::Serving);
}

#[test]
fn missing_address_is_fatal() {
    let mut s = LogSender::new("3030");
    let a = s.handle_event(SenderEvent::NetworkStatus(None));
    assert_eq!(a, SenderAction::Halt);
    assert_eq!(s.phase(), SenderPhase::Failed);
}

#[test]
fn failed_accept_is_fatal() {
    let cfg = NetworkConfig { addr: 1, prefix_len: 24, gateway: None };
    let mut s = LogSender::new("3030");
    s.handle_event(SenderEvent::NetworkStatus(Some(cfg)));
    let a = s.handle_event(SenderEvent::AcceptFailed);
    assert_eq!(a, SenderAction::Halt);
    assert_eq!(s.phase(), SenderPhase::Failed);
}

#[test]
fn failed_or_short_write_is_fatal() {
    let cfg = NetworkConfig { addr: 1, prefix_len: 24, gateway: None };
    let mut s = LogSender::new("3030");
    s.handle_event(SenderEvent::NetworkStatus(Some(cfg)));
    s.handle_event(SenderEvent::ConnectionAttempt);

    assert_eq!(LogSender::write_outcome(Some(5), 5), SenderEvent::WriteCompleted);
    assert_eq!(LogSender::write_outcome(Some(3), 5), SenderEvent::WriteFailed);
    assert_eq!(LogSender::write_outcome(None, 5), SenderEvent::WriteFailed);

    let a = s.handle_event(SenderEvent::WriteCompleted);
    assert_eq!(a, SenderAction::Ignore);
    assert_eq!(s.phase(), SenderPhase::Serving);

    let a = s.handle_event(SenderEvent::WriteFailed);
    assert_eq!(a, SenderAction::Halt);
    assert_eq!(s.phase(), SenderPhase::Failed);
}

#[test]
fn run_loop_reacts_to_each_message_in_order() {
    let cfg = NetworkConfig { addr: 1, prefix_len: 24, gateway: None };
    let mut s = LogSender::new("3030");
    s.handle_event(SenderEvent::NetworkStatus(Some(cfg)));
    s.handle_event(SenderEvent::ConnectionAttempt);

    let msgs = vec![Chunk::from_bytes(b"AB"), Chunk::from_bytes(b"CD"), Chunk::from_bytes(b"EF")];
    let acts = run_actor(&mut s, msgs);
    assert_eq!(acts.len(), 3);
    for (act, expected) in acts.into_iter().zip([b"AB", b"CD", b"EF"]) {
        match act {
            Delivery::Write(c) => assert_eq!(c.bytes(), expected),
            Delivery::Unwritable(_) => panic!("a served client must be written to"),
        }
    }
    assert_eq!(s.phase(), SenderPhase::Serving);
}

#[test]
fn chunks_are_written_only_while_serving() {
    let cfg = NetworkConfig { addr: 1, prefix_len: 24, gateway: None };
    let mut s = LogSender::new("3030");

    match s.on_message(Chunk::from_bytes(b"AB")) {
        Delivery::Unwritable(c) => assert_eq!(c.bytes(), b"AB"),
        Delivery::Write(_) => panic!("nothing may be written before a client is served"),
    }

    s.handle_event(SenderEvent::NetworkStatus(Some(cfg)));
    s.handle_event(SenderEvent::ConnectionAttempt);
    match s.on_message(Chunk::from_bytes(b"AB")) {
        Delivery::Write(c) => assert_eq!(c.bytes(), b"AB"),
        Delivery::Unwritable(_) => panic!("a served client must be written to"),
    }
}

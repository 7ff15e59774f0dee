use proxy_engine::failure::Failure;
use proxy_engine::relay::RelayHalf;
use proxy_engine::supervisor::{connect_ack, Action, Event, SupState, Supervisor};

const ACK: &[u8] = b"HTTP/1.1 200 Connection established\r\n\r\n";

fn advance(sup: &mut Supervisor) -> Action {
    sup.step(Event::Advance)
}

fn expect_dial(action: Action, host: &[u8], port: u16) {
    match action {
        Action::Dial { host: h, port: p } => {
            assert_eq!(h, host.to_vec());
            assert_eq!(p, port);
        }
        _ => panic!("expected a dial"),
    }
}

#[test]
fn ack_is_the_literal_bytes() {
    assert_eq!(connect_ack(), ACK.to_vec());
}

#[test]
fn http_request_forwarded_verbatim() {
    let input = b"GET http://example.org:8080/path HTTP/1.1\r\n\r\n";
    let mut sup = Supervisor::new();
    assert!(matches!(sup.step(Event::BytesRead { bytes: input.to_vec() }), Action::Advance));
    assert!(matches!(advance(&mut sup), Action::Advance));
    expect_dial(advance(&mut sup), b"example.org", 8080);
    match sup.step(Event::DialOk) {
        Action::WriteOrigin { bytes } => assert_eq!(bytes, input.to_vec()),
        _ => panic!("expected the raw request to go to the origin"),
    }
    assert!(matches!(sup.step(Event::WriteOk), Action::StartRelay));
    assert!(matches!(sup.step(Event::RelayEnded { clean: true }), Action::Close));
    assert!(matches!(sup.state, SupState::Closed));
    assert!(sup.is_terminal());
}

#[test]
fn connect_handshake_sends_exact_ack() {
    let input = b"CONNECT example.org:443 HTTP/1.1\r\n\r\n";
    let mut sup = Supervisor::new();
    assert!(matches!(sup.step(Event::BytesRead { bytes: input.to_vec() }), Action::Advance));
    assert!(matches!(advance(&mut sup), Action::Advance));
    expect_dial(advance(&mut sup), b"example.org", 443);
    match sup.step(Event::DialOk) {
        Action::WriteClient { bytes } => assert_eq!(bytes, ACK.to_vec()),
        _ => panic!("expected the acknowledgment to go to the client"),
    }
    assert!(matches!(sup.step(Event::WriteOk), Action::StartRelay));
    assert!(matches!(sup.step(Event::RelayEnded { clean: true }), Action::Close));
    assert!(matches!(sup.state, SupState::Closed));
}

#[test]
fn failed_dial_closes_without_ack() {
    let input = b"CONNECT badhost:9999 HTTP/1.1\r\n\r\n";
    let mut sup = Supervisor::new();
    assert!(matches!(sup.step(Event::BytesRead { bytes: input.to_vec() }), Action::Advance));
    assert!(matches!(advance(&mut sup), Action::Advance));
    expect_dial(advance(&mut sup), b"badhost", 9999);
    let action = sup.step(Event::DialFailed);
    assert!(matches!(action, Action::Close));
    assert!(matches!(sup.state, SupState::Failed { failure: Failure::DialFailed }));
    assert!(sup.is_terminal());
}

#[test]
fn unknown_method_closes_without_dial() {
    let input = b"FOO / HTTP/1.1\r\n\r\n";
    let mut sup = Supervisor::new();
    assert!(matches!(sup.step(Event::BytesRead { bytes: input.to_vec() }), Action::Advance));
    let action = advance(&mut sup);
    assert!(matches!(action, Action::Close));
    assert!(matches!(sup.state, SupState::Failed { failure: Failure::UnknownMethod }));
}

#[test]
fn unresolvable_target_closes_without_dial() {
    let input = b"GET /nota-url HTTP/1.1\r\n\r\n";
    let mut sup = Supervisor::new();
    assert!(matches!(sup.step(Event::BytesRead { bytes: input.to_vec() }), Action::Advance));
    assert!(matches!(advance(&mut sup), Action::Advance));
    let action = advance(&mut sup);
    assert!(matches!(action, Action::Close));
    assert!(matches!(sup.state, SupState::Failed { failure: Failure::MalformedUrl }));
}

#[test]
fn empty_read_closes_the_connection() {
    let mut sup = Supervisor::new();
    let action = sup.step(Event::BytesRead { bytes: Vec::new() });
    assert!(matches!(action, Action::Close));
    assert!(matches!(sup.state, SupState::Failed { failure: Failure::EmptyRead }));
}

#[test]
fn failed_read_closes_the_connection() {
    let mut sup = Supervisor::new();
    let action = sup.step(Event::ReadFailed);
    assert!(matches!(action, Action::Close));
    assert!(matches!(sup.state, SupState::Failed { failure: Failure::ReadFailed }));
}

#[test]
fn failed_handshake_write_closes_before_relay() {
    let input = b"CONNECT example.org:443 HTTP/1.1\r\n\r\n";
    let mut sup = Supervisor::new();
    sup.step(Event::BytesRead { bytes: input.to_vec() });
    advance(&mut sup);
    advance(&mut sup);
    sup.step(Event::DialOk);
    let action = sup.step(Event::WriteFailed);
    assert!(matches!(action, Action::Close));
    assert!(matches!(sup.state, SupState::Failed { failure: Failure::HandshakeWriteFailed }));
}

#[test]
fn relay_error_recorded_at_close() {
    let input = b"CONNECT example.org:443 HTTP/1.1\r\n\r\n";
    let mut sup = Supervisor::new();
    sup.step(Event::BytesRead { bytes: input.to_vec() });
    advance(&mut sup);
    advance(&mut sup);
    sup.step(Event::DialOk);
    sup.step(Event::WriteOk);
    let action = sup.step(Event::RelayEnded { clean: false });
    assert!(matches!(action, Action::Close));
    assert!(matches!(sup.state, SupState::Failed { failure: Failure::RelayFailed }));
}

#[test]
fn two_connections_are_independent() {
    let mut one = Supervisor::new();
    let mut two = Supervisor::new();
    one.step(Event::BytesRead { bytes: b"CONNECT a:1 HTTP/1.1\r\n".to_vec() });
    two.step(Event::BytesRead { bytes: b"CONNECT b:2 HTTP/1.1\r\n".to_vec() });
    advance(&mut one);
    advance(&mut two);
    expect_dial(advance(&mut one), b"a", 1);
    expect_dial(advance(&mut two), b"b", 2);
    one.step(Event::DialFailed);
    assert!(one.is_terminal());
    assert!(!two.is_terminal());
    two.step(Event::DialOk);
    two.step(Event::WriteOk);
    two.step(Event::RelayEnded { clean: true });
    assert!(matches!(two.state, SupState::Closed));
    assert!(matches!(one.state, SupState::Failed { failure: Failure::DialFailed }));
}

#[test]
fn relay_half_carries_chunks_unchanged() {
    let mut half = RelayHalf::new();
    assert_eq!(half.forward(b"hello"), b"hello".to_vec());
    assert_eq!(half.forward(b""), Vec::<u8>::new());
    assert_eq!(half.forward(&[0, 255, 13, 10]), vec![0, 255, 13, 10]);
}

#[test]
fn relay_halves_reassemble_the_stream() {
    let message = b"GET / HTTP/1.1\r\nHost: example.org\r\n\r\n";
    let mut client_to_origin = RelayHalf::new();
    let mut received: Vec<u8> = Vec::new();
    for chunk in message.chunks(7) {
        received.extend_from_slice(&client_to_origin.forward(chunk));
    }
    assert_eq!(received, message.to_vec());
}

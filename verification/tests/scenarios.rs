//! End-to-end walks through the session logic: operator lines go through
//! the parser, the mode state machine, the relay fan-out and the client
//! steps, exactly as the I/O loops would drive them.

use chat_relay::SessionEnd;
use chat_relay::SocketEvent;
use chat_relay::client::ClientSocketStep;
use chat_relay::client::ClientStep;
use chat_relay::client::accept_name;
use chat_relay::client::client_command_step;
use chat_relay::client::client_socket_step;
use chat_relay::command::parse_line;
use chat_relay::mode::Mode;
use chat_relay::mode::Notice;
use chat_relay::mode::admin_step;
use chat_relay::mode::after_client_session;
use chat_relay::relay::Envelope;
use chat_relay::relay::HandlerReadStep;
use chat_relay::relay::fanout;

#[test]
fn two_clients_one_message() {
    // Operator hosts.
    let cmd = parse_line(b"host 127.0.0.1:9001\n").unwrap();
    let step = admin_step(cmd);
    assert_eq!(step.mode, Mode::Host(b"127.0.0.1:9001".to_vec()));
    assert!(!step.exit);

    // Two clients join and submit names.
    let join = parse_line(b"join 127.0.0.1:9001\n").unwrap();
    let a_mode = admin_step(join.clone()).mode;
    let b_mode = admin_step(join).mode;
    assert_eq!(a_mode, Mode::Client(b"127.0.0.1:9001".to_vec()));
    assert_eq!(b_mode, Mode::Client(b"127.0.0.1:9001".to_vec()));
    let name_a = accept_name(b"A\n").unwrap();
    let _name_b = accept_name(b"B\n").unwrap();

    // Client A sends `msg hello`: the wire carries `A: hello\n`.
    let msg = parse_line(b"msg hello\n").unwrap();
    let sent = match client_command_step(&name_a, msg) {
        ClientStep::Send(bytes) => bytes,
        other => panic!("expected a send, got {:?}", other),
    };
    assert_eq!(sent, b"A: hello\n".to_vec());

    // The host-side handler for A's connection publishes the line under
    // A's address, and the bus fans it out to both handlers.
    let origin_a = b"127.0.0.1:50001".to_vec();
    let origin_b = b"127.0.0.1:50002".to_vec();
    let env = match chat_relay::relay::handler_read_step(
        &origin_a,
        SocketEvent::Line(sent),
    ) {
        HandlerReadStep::Publish(env) => env,
        other => panic!("expected a publish, got {:?}", other),
    };
    let deliveries = fanout(&vec![origin_a, origin_b], &env);

    // B's console shows `A: hello`; A sees nothing for its own message.
    assert_eq!(deliveries[0], None);
    let to_b = deliveries[1].clone().unwrap();
    let printed = match client_socket_step(SocketEvent::Line(to_b)) {
        ClientSocketStep::Print(line) => line,
        other => panic!("expected a print, got {:?}", other),
    };
    assert_eq!(printed, b"A: hello\n".to_vec());
}

#[test]
fn leave_in_admin_is_rejected_and_mode_stays_admin() {
    let cmd = parse_line(b"leave\n").unwrap();
    let step = admin_step(cmd);
    assert_eq!(step.notice, Notice::NotInSessionLeave);
    assert_eq!(step.mode, Mode::Admin);
    assert!(!step.exit);
}

#[test]
fn message_with_zero_connected_peers_is_dropped_quietly() {
    // One peer is connected and sends; no other subscriber exists, so the
    // envelope reaches nobody and the relay goes on.
    let origin = b"127.0.0.1:50001".to_vec();
    let env = Envelope { text: b"hello\n".to_vec(), origin: origin.clone() };
    let deliveries = fanout(&vec![origin], &env);
    assert_eq!(deliveries, vec![None]);
    let none = fanout(&Vec::new(), &env);
    assert!(none.is_empty());
}

#[test]
fn remote_close_returns_operator_to_admin_with_a_report() {
    // The host closes the connection: the client sees a zero-length read.
    let step = client_socket_step(SocketEvent::Closed);
    assert_eq!(step, ClientSocketStep::End(SessionEnd::RemoteClosed));

    // The driver reports the disconnect and reverts to Admin.
    let (mode, report) = after_client_session(SessionEnd::RemoteClosed);
    assert_eq!(mode, Mode::Admin);
    assert_eq!(report, Some(Notice::Disconnected));

    // The operator can immediately host or join again.
    let again = admin_step(parse_line(b"join localhost:8080\n").unwrap());
    assert_eq!(again.mode, Mode::Client(b"localhost:8080".to_vec()));
}

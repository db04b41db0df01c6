use chat_relay::SessionEnd;
use chat_relay::SocketEvent;
use chat_relay::client::ClientSocketStep;
use chat_relay::client::ClientStep;
use chat_relay::client::accept_name;
use chat_relay::client::client_command_step;
use chat_relay::client::client_socket_step;
use chat_relay::client::format_chat_line;
use chat_relay::command::Command;
use chat_relay::mode::Notice;

#[test]
fn msg_command_serializes_to_tagged_line() {
    let step = client_command_step(b"alice", Command::Msg(b"a b c".to_vec()));
    assert_eq!(step, ClientStep::Send(b"alice: a b c\n".to_vec()));
}

#[test]
fn format_chat_line_frames_name_and_text() {
    assert_eq!(format_chat_line(b"bob", b"hi"), b"bob: hi\n".to_vec());
    assert_eq!(format_chat_line(b"", b""), b": \n".to_vec());
}

#[test]
fn client_rejects_host_join_and_shutdown() {
    let r = client_command_step(b"alice", Command::Host(b"x".to_vec()));
    assert_eq!(r, ClientStep::Stay(Notice::CannotHostInSession));
    let r = client_command_step(b"alice", Command::Join(b"x".to_vec()));
    assert_eq!(r, ClientStep::Stay(Notice::CannotJoinInSession));
    let r = client_command_step(b"alice", Command::Shutdown);
    assert_eq!(r, ClientStep::Stay(Notice::NotHostingShutdown));
}

#[test]
fn client_leave_ends_cleanly_and_quit_ends_with_failure() {
    let r = client_command_step(b"alice", Command::Leave);
    assert_eq!(r, ClientStep::End(SessionEnd::Left));
    let r = client_command_step(b"alice", Command::Quit);
    assert_eq!(r, ClientStep::End(SessionEnd::QuitRequested));
}

#[test]
fn client_help_and_status_keep_session() {
    let r = client_command_step(b"alice", Command::Help);
    assert_eq!(r, ClientStep::Stay(Notice::ShowHelp));
    let r = client_command_step(b"alice", Command::Status);
    assert_eq!(r, ClientStep::Stay(Notice::StatusInSession));
}

#[test]
fn received_line_is_printed_verbatim() {
    let r = client_socket_step(SocketEvent::Line(b"bob: hi\n".to_vec()));
    assert_eq!(r, ClientSocketStep::Print(b"bob: hi\n".to_vec()));
}

#[test]
fn remote_close_ends_session_cleanly() {
    let r = client_socket_step(SocketEvent::Closed);
    assert_eq!(r, ClientSocketStep::End(SessionEnd::RemoteClosed));
}

#[test]
fn read_error_ends_session_with_failure() {
    let r = client_socket_step(SocketEvent::ReadError);
    assert_eq!(r, ClientSocketStep::End(SessionEnd::ReadFailed));
}

#[test]
fn name_is_line_without_newline() {
    assert_eq!(accept_name(b"alice\n"), Some(b"alice".to_vec()));
    assert_eq!(accept_name(b"bob\r\n"), Some(b"bob".to_vec()));
    assert_eq!(accept_name(b"carol"), Some(b"carol".to_vec()));
}

#[test]
fn empty_name_is_refused() {
    assert_eq!(accept_name(b""), None);
    assert_eq!(accept_name(b"\n"), None);
    assert_eq!(accept_name(b"\r\n"), None);
}

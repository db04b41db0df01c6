use chat_relay::command::Command;
use chat_relay::command::ParseError;
use chat_relay::command::command_for_end_of_input;
use chat_relay::command::default_address_vec;
use chat_relay::command::parse_line;

#[test]
fn parses_host_with_address() {
    let r = parse_line(b"host 127.0.0.1:9001");
    assert_eq!(r, Ok(Command::Host(b"127.0.0.1:9001".to_vec())));
}

#[test]
fn parses_host_without_address_to_default() {
    let r = parse_line(b"host");
    assert_eq!(r, Ok(Command::Host(b"localhost:8080".to_vec())));
}

#[test]
fn default_address_is_localhost_8080() {
    assert_eq!(default_address_vec(), b"localhost:8080".to_vec());
}

#[test]
fn host_default_equals_host_explicit() {
    assert_eq!(parse_line(b"host"), parse_line(b"host localhost:8080"));
}

#[test]
fn join_default_equals_join_explicit() {
    assert_eq!(parse_line(b"join"), parse_line(b"join localhost:8080"));
}

#[test]
fn parses_join_with_address() {
    let r = parse_line(b"join example.net:4000");
    assert_eq!(r, Ok(Command::Join(b"example.net:4000".to_vec())));
}

#[test]
fn parses_zero_argument_commands() {
    assert_eq!(parse_line(b"leave"), Ok(Command::Leave));
    assert_eq!(parse_line(b"shutdown"), Ok(Command::Shutdown));
    assert_eq!(parse_line(b"quit"), Ok(Command::Quit));
    assert_eq!(parse_line(b"help"), Ok(Command::Help));
    assert_eq!(parse_line(b"status"), Ok(Command::Status));
}

#[test]
fn zero_argument_commands_ignore_extra_words() {
    assert_eq!(parse_line(b"leave now"), Ok(Command::Leave));
    assert_eq!(parse_line(b"status of things"), Ok(Command::Status));
}

#[test]
fn parses_msg_with_one_word() {
    assert_eq!(parse_line(b"msg hi"), Ok(Command::Msg(b"hi".to_vec())));
}

#[test]
fn parses_msg_joining_words_with_single_spaces() {
    let r = parse_line(b"msg a b c");
    assert_eq!(r, Ok(Command::Msg(b"a b c".to_vec())));
}

#[test]
fn msg_collapses_repeated_whitespace() {
    let r = parse_line(b"msg  hello\t there \n");
    assert_eq!(r, Ok(Command::Msg(b"hello there".to_vec())));
}

#[test]
fn parses_with_surrounding_whitespace_and_newline() {
    let r = parse_line(b"  host   10.0.0.1:1  \r\n");
    assert_eq!(r, Ok(Command::Host(b"10.0.0.1:1".to_vec())));
}

#[test]
fn rejects_host_with_two_arguments() {
    assert_eq!(parse_line(b"host a b"), Err(ParseError::HostArgCount));
}

#[test]
fn rejects_join_with_two_arguments() {
    assert_eq!(parse_line(b"join a b"), Err(ParseError::JoinArgCount));
}

#[test]
fn rejects_msg_without_text() {
    assert_eq!(parse_line(b"msg"), Err(ParseError::EmptyMessage));
    assert_eq!(parse_line(b"msg   \n"), Err(ParseError::EmptyMessage));
}

#[test]
fn rejects_unknown_command() {
    assert_eq!(parse_line(b"hots\n"), Err(ParseError::UnknownCommand));
    assert_eq!(parse_line(b"hosting"), Err(ParseError::UnknownCommand));
    assert_eq!(parse_line(b"HOST"), Err(ParseError::UnknownCommand));
}

#[test]
fn rejects_blank_line() {
    assert_eq!(parse_line(b""), Err(ParseError::EmptyLine));
    assert_eq!(parse_line(b"   \r\n"), Err(ParseError::EmptyLine));
}

#[test]
fn end_of_input_synthesizes_shutdown() {
    assert_eq!(command_for_end_of_input(), Command::Shutdown);
}

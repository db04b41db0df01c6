//! The client side of a session.
//!
//! After connecting, the session multiplexes two event sources: operator
//! commands and lines read from the socket. Each event maps to one step —
//! stay with a report, send bytes, print bytes, or end the session — and
//! the functions here fix that step exactly. The surrounding loop performs
//! the sends and prints and feeds the next event back in.

use vstd::prelude::*;

use crate::SessionEnd;
use crate::SocketEvent;
use crate::command::Command;
use crate::command::CommandV;
use crate::mode::Notice;

verus! {

/// The bytes a client puts on the wire for one message: the display name,
/// a colon and a space, the message text, and a terminating newline.
pub open spec fn chat_line(name: Seq<u8>, text: Seq<u8>) -> Seq<u8> {
    name + seq![58u8, 32u8] + text + seq![10u8]
}

/// Frame one outgoing message as `name: text\n`.
pub fn format_chat_line(name: &[u8], text: &[u8]) -> (r: Vec<u8>)
    ensures
        r@ == chat_line(name@, text@),
{
    let mut v: Vec<u8> = Vec::new();
    v.extend_from_slice(name);
    v.push(58);
    v.push(32);
    v.extend_from_slice(text);
    v.push(10);
    proof {
        assert(v@ =~= chat_line(name@, text@));
    }
    v
}

/// What a client session does with one operator command.
#[derive(PartialEq, Eq, Debug, Clone)]
pub enum ClientStep {
    /// Keep the session and print a report.
    Stay(Notice),
    /// Write these bytes to the socket; a failed write ends the session
    /// with `WriteFailed`.
    Send(Vec<u8>),
    /// The session is over.
    End(SessionEnd),
}

/// Apply one operator command inside a client session. Only `leave` and
/// `quit` end the session; `msg` frames its text with the display name;
/// everything else stays with a report.
pub fn client_command_step(name: &[u8], cmd: Command) -> (r: ClientStep)
    ensures
        cmd@ is Host ==> r == ClientStep::Stay(Notice::CannotHostInSession),
        cmd@ is Join ==> r == ClientStep::Stay(Notice::CannotJoinInSession),
        cmd@ is Leave ==> r == ClientStep::End(SessionEnd::Left),
        cmd@ is Shutdown ==> r == ClientStep::Stay(Notice::NotHostingShutdown),
        cmd@ matches CommandV::Msg(t) ==> r matches ClientStep::Send(b) && b@ == chat_line(
            name@,
            t,
        ),
        cmd@ is Quit ==> r == ClientStep::End(SessionEnd::QuitRequested),
        cmd@ is Help ==> r == ClientStep::Stay(Notice::ShowHelp),
        cmd@ is Status ==> r == ClientStep::Stay(Notice::StatusInSession),
{
    match cmd {
        Command::Host(_) => ClientStep::Stay(Notice::CannotHostInSession),
        Command::Join(_) => ClientStep::Stay(Notice::CannotJoinInSession),
        Command::Leave => ClientStep::End(SessionEnd::Left),
        Command::Shutdown => ClientStep::Stay(Notice::NotHostingShutdown),
        Command::Msg(text) => ClientStep::Send(format_chat_line(name, text.as_slice())),
        Command::Quit => ClientStep::End(SessionEnd::QuitRequested),
        Command::Help => ClientStep::Stay(Notice::ShowHelp),
        Command::Status => ClientStep::Stay(Notice::StatusInSession),
    }
}

/// What a client session does with one socket event.
#[derive(PartialEq, Eq, Debug, Clone)]
pub enum ClientSocketStep {
    /// Print the received line on the console.
    Print(Vec<u8>),
    /// The session is over.
    End(SessionEnd),
}

/// Apply one socket event inside a client session: a received line is
/// printed, a clean remote close ends the session cleanly, and a read
/// error ends it with failure.
pub fn client_socket_step(ev: SocketEvent) -> (r: ClientSocketStep)
    ensures
        ev is Closed ==> r == ClientSocketStep::End(SessionEnd::RemoteClosed),
        ev is ReadError ==> r == ClientSocketStep::End(SessionEnd::ReadFailed),
        ev matches SocketEvent::Line(t) ==> r matches ClientSocketStep::Print(p) && p@ == t@,
{
    match ev {
        SocketEvent::Closed => ClientSocketStep::End(SessionEnd::RemoteClosed),
        SocketEvent::ReadError => ClientSocketStep::End(SessionEnd::ReadFailed),
        SocketEvent::Line(t) => ClientSocketStep::Print(t),
    }
}

/// A console line with its trailing newline (and a carriage return before
/// it, if any) removed.
pub open spec fn trimmed_line(s: Seq<u8>) -> Seq<u8> {
    let s1 = if s.len() > 0 && s[s.len() - 1] == 10 {
        s.take(s.len() - 1)
    } else {
        s
    };
    if s1.len() > 0 && s1[s1.len() - 1] == 13 {
        s1.take(s1.len() - 1)
    } else {
        s1
    }
}

/// Accept a display name typed at the console, or ask again: the name is
/// the line without its newline, and only a non-empty name is accepted.
pub fn accept_name(line: &[u8]) -> (r: Option<Vec<u8>>)
    ensures
        trimmed_line(line@).len() == 0 ==> r is None,
        trimmed_line(line@).len() > 0 ==> (r matches Some(n) && n@ == trimmed_line(line@)),
{
    let mut end: usize = line.len();
    if end > 0 && line[end - 1] == 10 {
        end = end - 1;
    }
    if end > 0 && line[end - 1] == 13 {
        end = end - 1;
    }
    proof {
        assert(line@.take(end as int) =~= trimmed_line(line@));
    }
    if end == 0 {
        None
    } else {
        let mut name: Vec<u8> = Vec::new();
        let mut i: usize = 0;
        while i < end
            invariant
                i <= end,
                end <= line@.len(),
                name@ == line@.take(end as int).take(i as int),
            decreases end - i,
        {
            name.push(line[i]);
            proof {
                assert(name@ =~= line@.take(end as int).take(i + 1 as int));
            }
            i += 1;
        }
        proof {
            assert(line@.take(end as int).take(end as int) =~= line@.take(end as int));
        }
        Some(name)
    }
}

} // verus!

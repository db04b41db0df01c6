//! A minimal text chat relay, verified.
//!
//! One process either hosts a session (accepting peers and rebroadcasting
//! each peer's lines to all other peers) or joins one as a client. The
//! operator drives both roles through typed console commands. This crate
//! holds the session logic: the command grammar, the mode state machine,
//! the client-session step functions and the broadcast fan-out rule. The
//! surrounding async I/O loops feed events in and carry actions out.

use vstd::prelude::*;

pub mod bytes;
pub mod client;
pub mod command;
pub mod mode;
pub mod relay;

verus! {

/// What one attempt to read a line from a stream socket produced:
/// a clean end of stream, an I/O error, or one full line.
pub enum SocketEvent {
    Closed,
    ReadError,
    Line(Vec<u8>),
}

/// Why a client session ended. `Left` and `RemoteClosed` are clean ends;
/// the others are failures that the driver reports as errors.
#[derive(PartialEq, Eq, Structural, Debug, Clone, Copy)]
pub enum SessionEnd {
    ConnectFailed,
    Left,
    RemoteClosed,
    ReadFailed,
    QuitRequested,
    WriteFailed,
}

/// A session end counts as a failure unless the operator left on purpose
/// or the remote host closed the stream cleanly.
pub open spec fn session_end_failed(e: SessionEnd) -> bool {
    e is ConnectFailed || e is ReadFailed || e is QuitRequested || e is WriteFailed
}

/// Turn the outcome of one line read from a stream into an event: no
/// count means the read failed, a zero-length read is a clean end of
/// stream, and a positive count carries the line that was read.
pub fn classify_read(count: Option<usize>, line: Vec<u8>) -> (r: SocketEvent)
    ensures
        count is None ==> r is ReadError,
        count == Some(0usize) ==> r is Closed,
        (count matches Some(n) && n > 0) ==> (r matches SocketEvent::Line(l) && l@ == line@),
{
    match count {
        None => SocketEvent::ReadError,
        Some(0) => SocketEvent::Closed,
        Some(_) => SocketEvent::Line(line),
    }
}

} // verus!

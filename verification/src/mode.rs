//! The session mode state machine.
//!
//! The driver owns one `Mode` value and is the only writer of it. Commands
//! and session outcomes move it between `Admin`, `Host` and `Client`; every
//! transition also fixes the one-line report the operator sees and whether
//! the process exits. The transition relation is a total function of the
//! pair (mode, command), so it is deterministic by construction.

use vstd::prelude::*;

use crate::SessionEnd;
use crate::command::Command;
use crate::command::CommandV;

verus! {

/// The exclusive operational state of the process: no network role, hosting
/// on an address, or connected as a client to an address.
#[derive(PartialEq, Eq, Debug, Clone)]
pub enum Mode {
    Admin,
    Host(Vec<u8>),
    Client(Vec<u8>),
}

/// Mathematical image of a `Mode`.
pub enum ModeV {
    Admin,
    Host(Seq<u8>),
    Client(Seq<u8>),
}

impl View for Mode {
    type V = ModeV;

    open spec fn view(&self) -> ModeV {
        match self {
            Mode::Admin => ModeV::Admin,
            Mode::Host(a) => ModeV::Host(a@),
            Mode::Client(a) => ModeV::Client(a@),
        }
    }
}

/// The one-line report a transition produces. Variants that concern an
/// address leave the address to the mode value that accompanies them.
#[derive(PartialEq, Eq, Structural, Debug, Clone, Copy)]
pub enum Notice {
    Hosting,
    Joining,
    NotInSessionLeave,
    NotHostingShutdown,
    NotInSessionMsg,
    Quitting,
    ShowHelp,
    StatusIdle,
    AlreadyHosting,
    AlreadyHostingJoin,
    LeavingHost,
    ShuttingDown,
    MsgWhileHosting,
    StatusHosting,
    HostFailed,
    CannotHostInSession,
    CannotJoinInSession,
    StatusInSession,
    Disconnected,
    SessionFailed,
}

/// One driver transition: the mode afterwards, the report to print, and
/// whether the process exits.
pub struct DriverStep {
    pub mode: Mode,
    pub notice: Notice,
    pub exit: bool,
}

/// The mode after a command, for every mode and command. In a client
/// session only `leave` and `quit` end the session (and so return the
/// driver to `Admin`); `shutdown` and `quit` exit the process from the
/// other two modes, under which the mode keeps its value.
pub open spec fn spec_next_mode(m: ModeV, c: CommandV) -> ModeV {
    match m {
        ModeV::Admin => match c {
            CommandV::Host(a) => ModeV::Host(a),
            CommandV::Join(a) => ModeV::Client(a),
            _ => ModeV::Admin,
        },
        ModeV::Host(a) => match c {
            CommandV::Leave => ModeV::Admin,
            _ => ModeV::Host(a),
        },
        ModeV::Client(a) => match c {
            CommandV::Leave => ModeV::Admin,
            CommandV::Quit => ModeV::Admin,
            _ => ModeV::Client(a),
        },
    }
}

/// The report of the driver's own transitions (`Admin` and `Host` modes;
/// client-session commands are reported by the session).
pub open spec fn spec_notice(m: ModeV, c: CommandV) -> Notice {
    match m {
        ModeV::Admin => match c {
            CommandV::Host(_) => Notice::Hosting,
            CommandV::Join(_) => Notice::Joining,
            CommandV::Leave => Notice::NotInSessionLeave,
            CommandV::Shutdown => Notice::NotHostingShutdown,
            CommandV::Msg(_) => Notice::NotInSessionMsg,
            CommandV::Quit => Notice::Quitting,
            CommandV::Help => Notice::ShowHelp,
            CommandV::Status => Notice::StatusIdle,
        },
        _ => match c {
            CommandV::Host(_) => Notice::AlreadyHosting,
            CommandV::Join(_) => Notice::AlreadyHostingJoin,
            CommandV::Leave => Notice::LeavingHost,
            CommandV::Shutdown => Notice::ShuttingDown,
            CommandV::Msg(_) => Notice::MsgWhileHosting,
            CommandV::Quit => Notice::Quitting,
            CommandV::Help => Notice::ShowHelp,
            CommandV::Status => Notice::StatusHosting,
        },
    }
}

/// Whether a command exits the process, for every mode. Nothing exits from
/// a client session: there `quit` only ends the session with failure.
pub open spec fn spec_exit(m: ModeV, c: CommandV) -> bool {
    match m {
        ModeV::Admin => c is Quit,
        ModeV::Host(_) => c is Quit || c is Shutdown,
        ModeV::Client(_) => false,
    }
}

/// Apply one command in `Admin` mode: `host` and `join` enter a session,
/// `quit` exits, everything else stays in `Admin` with a report.
pub fn admin_step(cmd: Command) -> (r: DriverStep)
    ensures
        r.mode@ == spec_next_mode(ModeV::Admin, cmd@),
        r.notice == spec_notice(ModeV::Admin, cmd@),
        r.exit == spec_exit(ModeV::Admin, cmd@),
{
    match cmd {
        Command::Host(a) => DriverStep { mode: Mode::Host(a), notice: Notice::Hosting, exit: false },
        Command::Join(a) => DriverStep {
            mode: Mode::Client(a),
            notice: Notice::Joining,
            exit: false,
        },
        Command::Leave => DriverStep {
            mode: Mode::Admin,
            notice: Notice::NotInSessionLeave,
            exit: false,
        },
        Command::Shutdown => DriverStep {
            mode: Mode::Admin,
            notice: Notice::NotHostingShutdown,
            exit: false,
        },
        Command::Msg(_) => DriverStep {
            mode: Mode::Admin,
            notice: Notice::NotInSessionMsg,
            exit: false,
        },
        Command::Quit => DriverStep { mode: Mode::Admin, notice: Notice::Quitting, exit: true },
        Command::Help => DriverStep { mode: Mode::Admin, notice: Notice::ShowHelp, exit: false },
        Command::Status => DriverStep { mode: Mode::Admin, notice: Notice::StatusIdle, exit: false },
    }
}

/// Apply one command while hosting on `addr`: `leave` returns to `Admin`,
/// `shutdown` and `quit` exit the process, everything else keeps hosting.
pub fn host_step(addr: Vec<u8>, cmd: Command) -> (r: DriverStep)
    ensures
        r.mode@ == spec_next_mode(ModeV::Host(addr@), cmd@),
        r.notice == spec_notice(ModeV::Host(addr@), cmd@),
        r.exit == spec_exit(ModeV::Host(addr@), cmd@),
{
    match cmd {
        Command::Host(_) => DriverStep {
            mode: Mode::Host(addr),
            notice: Notice::AlreadyHosting,
            exit: false,
        },
        Command::Join(_) => DriverStep {
            mode: Mode::Host(addr),
            notice: Notice::AlreadyHostingJoin,
            exit: false,
        },
        Command::Leave => DriverStep { mode: Mode::Admin, notice: Notice::LeavingHost, exit: false },
        Command::Shutdown => DriverStep {
            mode: Mode::Host(addr),
            notice: Notice::ShuttingDown,
            exit: true,
        },
        Command::Msg(_) => DriverStep {
            mode: Mode::Host(addr),
            notice: Notice::MsgWhileHosting,
            exit: false,
        },
        Command::Quit => DriverStep { mode: Mode::Host(addr), notice: Notice::Quitting, exit: true },
        Command::Help => DriverStep { mode: Mode::Host(addr), notice: Notice::ShowHelp, exit: false },
        Command::Status => DriverStep {
            mode: Mode::Host(addr),
            notice: Notice::StatusHosting,
            exit: false,
        },
    }
}

/// The relay failed on its own (bind failure or unrecoverable I/O): report
/// it and revert to `Admin`.
pub fn host_failed_step() -> (r: DriverStep)
    ensures
        r.mode@ == ModeV::Admin,
        r.notice == Notice::HostFailed,
        !r.exit,
{
    DriverStep { mode: Mode::Admin, notice: Notice::HostFailed, exit: false }
}

/// The report owed when a client session ends: nothing after a voluntary
/// leave, a disconnect report when the remote closed the stream, and an
/// error report for every failure.
pub open spec fn spec_session_end_report(e: SessionEnd) -> Option<Notice> {
    match e {
        SessionEnd::ConnectFailed => Some(Notice::SessionFailed),
        SessionEnd::Left => None,
        SessionEnd::RemoteClosed => Some(Notice::Disconnected),
        SessionEnd::ReadFailed => Some(Notice::SessionFailed),
        SessionEnd::QuitRequested => Some(Notice::SessionFailed),
        SessionEnd::WriteFailed => Some(Notice::SessionFailed),
    }
}

/// A client session has ended: revert to `Admin` and report how it ended.
/// The process never exits here; the operator may start a new session at
/// once.
pub fn after_client_session(end: SessionEnd) -> (r: (Mode, Option<Notice>))
    ensures
        r.0@ == ModeV::Admin,
        r.1 == spec_session_end_report(end),
{
    let report = match end {
        SessionEnd::ConnectFailed => Some(Notice::SessionFailed),
        SessionEnd::Left => None,
        SessionEnd::RemoteClosed => Some(Notice::Disconnected),
        SessionEnd::ReadFailed => Some(Notice::SessionFailed),
        SessionEnd::QuitRequested => Some(Notice::SessionFailed),
        SessionEnd::WriteFailed => Some(Notice::SessionFailed),
    };
    (Mode::Admin, report)
}

/// Issuing `status` never changes the mode, whatever the mode is.
pub proof fn lemma_status_preserves_mode(m: ModeV)
    ensures
        spec_next_mode(m, CommandV::Status) == m,
{
}

/// In a client session only `leave` and `quit` end the session; every
/// other command leaves the process connected to the same address.
pub proof fn lemma_client_session_mode(addr: Seq<u8>, c: CommandV)
    ensures
        spec_next_mode(ModeV::Client(addr), c) == if c is Leave || c is Quit {
            ModeV::Admin
        } else {
            ModeV::Client(addr)
        },
{
}

} // verus!

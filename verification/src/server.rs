//! The listener's decisions: where it binds, what is fatal, and what the
//! accept loop does with each accept result. The sockets themselves live
//! outside; this module owns the rules they follow.

use vstd::prelude::*;
use vstd::string::StringExecFns;

verus! {

/// The fixed port the server listens on.
pub const SERVER_PORT: u16 = 8080;

/// Where a connection's handling can fail.
#[derive(Clone, Copy, PartialEq, Eq, Structural, Debug)]
pub enum FailureKind {
    Bind,
    Accept,
    Read,
    Write,
}

/// Only a bind failure is fatal: without a listening socket no server
/// exists. Accept, read and write failures are contained — an accept failure
/// leaves the loop running, and a read or write failure stays within its own
/// connection.
pub fn is_fatal(kind: FailureKind) -> (r: bool)
    ensures
        r == (kind is Bind),
{
    match kind {
        FailureKind::Bind => true,
        FailureKind::Accept => false,
        FailureKind::Read => false,
        FailureKind::Write => false,
    }
}

/// What the process does right after trying to bind.
#[derive(Clone, Copy, PartialEq, Eq, Structural, Debug)]
pub enum StartupStep {
    EnterAcceptLoop,
    Exit(FailureKind),
}

/// The startup decision: serve when the bind succeeded; otherwise report the
/// bind failure and stop before the accept loop is ever entered.
pub fn plan_startup(bind_ok: bool) -> (step: StartupStep)
    ensures
        bind_ok ==> step == StartupStep::EnterAcceptLoop,
        !bind_ok ==> step == StartupStep::Exit(FailureKind::Bind),
{
    if bind_ok {
        StartupStep::EnterAcceptLoop
    } else {
        StartupStep::Exit(FailureKind::Bind)
    }
}

/// What the accept loop does with one accept result. There is no variant
/// that stops the loop: the listener is never closed by a failed accept.
#[derive(Clone, Copy, PartialEq, Eq, Structural, Debug)]
pub enum AcceptStep {
    SpawnHandler,
    ReportAndContinue,
}

/// The dispatcher's decision for one accept result: hand a successful
/// connection to its own handler and loop on at once; report a failed accept
/// and loop on as well.
pub fn plan_accept(accept_ok: bool) -> (step: AcceptStep)
    ensures
        accept_ok ==> step == AcceptStep::SpawnHandler,
        !accept_ok ==> step == AcceptStep::ReportAndContinue,
{
    if accept_ok {
        AcceptStep::SpawnHandler
    } else {
        AcceptStep::ReportAndContinue
    }
}

/// The address the listener binds: all interfaces, the fixed port.
pub fn bind_address() -> (s: String)
    ensures
        s@ == "0.0.0.0:8080"@,
{
    String::from_str("0.0.0.0:8080")
}

/// The diagnostic prefix reported for each failure kind.
pub open spec fn failure_note_chars(kind: FailureKind) -> Seq<char> {
    match kind {
        FailureKind::Bind => "Unable to bind listener"@,
        FailureKind::Accept => "Unable to connect"@,
        FailureKind::Read => "Unable to read stream"@,
        FailureKind::Write => "Failed sending response"@,
    }
}

/// The log line prefix for one failure kind, exactly as
/// `failure_note_chars` states it.
pub fn failure_note(kind: FailureKind) -> (s: String)
    ensures
        s@ == failure_note_chars(kind),
{
    match kind {
        FailureKind::Bind => String::from_str("Unable to bind listener"),
        FailureKind::Accept => String::from_str("Unable to connect"),
        FailureKind::Read => String::from_str("Unable to read stream"),
        FailureKind::Write => String::from_str("Failed sending response"),
    }
}

} // verus!

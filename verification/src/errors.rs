//! The session engine's error taxonomy. Each variant names the scope of
//! the failure: whether the whole session, one channel attempt, or one
//! operation is lost.

use vstd::prelude::*;

verus! {

use vstd::string::StringExecFns;

/// One step of a channel's setup sequence.
#[derive(Debug, Clone, Copy, PartialEq, Eq, Structural)]
pub enum SetupStep {
    /// Opening the underlying session channel.
    OpenSession,
    /// Requesting a pseudo-terminal on the channel.
    RequestPty,
    /// Negotiating the file-transfer subsystem.
    NegotiateSubsystem,
    /// Requesting execution of a command or shell.
    RequestExec,
}

/// A failure of the session engine.
#[derive(Debug)]
pub enum SessionError {
    /// Handshake or network failure: the session is unusable and must be
    /// discarded, not retried in place.
    Transport(String),
    /// The identity key could not be loaded or the server rejected it;
    /// the user must supply a different identity.
    Auth(String),
    /// Channel setup failed at the named step. That channel attempt is
    /// abandoned; other channels on the same session remain usable.
    ChannelSetup(SetupStep),
    /// One remote file or exec operation failed; the channel stays usable.
    RemoteOperation(String),
    /// Local filesystem access failed during a transfer.
    LocalIo(String),
}

/// The short name of a setup step, as it appears in status lines.
pub open spec fn step_label(s: SetupStep) -> Seq<char> {
    match s {
        SetupStep::OpenSession => "channel open"@,
        SetupStep::RequestPty => "PTY request"@,
        SetupStep::NegotiateSubsystem => "subsystem negotiation"@,
        SetupStep::RequestExec => "exec request"@,
    }
}

impl SessionError {
    /// A short human-readable status line for the failure.
    pub fn message(&self) -> (r: String)
        ensures
            match self {
                SessionError::Transport(m) => r@ == "Transport error: "@ + m@,
                SessionError::Auth(m) => r@ == "Authentication failed: "@ + m@,
                SessionError::ChannelSetup(st) => r@ == "Channel setup failed at "@ + step_label(
                    *st,
                ),
                SessionError::RemoteOperation(m) => r@ == "Remote operation failed: "@ + m@,
                SessionError::LocalIo(m) => r@ == "Local I/O error: "@ + m@,
            },
    {
        match self {
            SessionError::Transport(m) => {
                let mut s = String::from_str("Transport error: ");
                s.append(m.as_str());
                s
            },
            SessionError::Auth(m) => {
                let mut s = String::from_str("Authentication failed: ");
                s.append(m.as_str());
                s
            },
            SessionError::ChannelSetup(st) => {
                let mut s = String::from_str("Channel setup failed at ");
                match st {
                    SetupStep::OpenSession => s.append("channel open"),
                    SetupStep::RequestPty => s.append("PTY request"),
                    SetupStep::NegotiateSubsystem => s.append("subsystem negotiation"),
                    SetupStep::RequestExec => s.append("exec request"),
                }
                s
            },
            SessionError::RemoteOperation(m) => {
                let mut s = String::from_str("Remote operation failed: ");
                s.append(m.as_str());
                s
            },
            SessionError::LocalIo(m) => {
                let mut s = String::from_str("Local I/O error: ");
                s.append(m.as_str());
                s
            },
        }
    }
}

} // verus!

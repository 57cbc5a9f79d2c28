//! The transport session and its channel multiplexer, modelled as a state
//! machine over plain values. The network exchange itself happens outside
//! the library; its outcome is handed in as a value, and every decision
//! taken on it is verified here.
//!
//! Invariants carried by the model: a session only exists once public-key
//! authentication has succeeded, no channel opens on an invalidated
//! session, and the one file-transfer channel of a session is opened once
//! and reused.

use vstd::prelude::*;

verus! {

use vstd::string::StrSliceExecFns;
use vstd::string::StringExecFns;
use crate::errors::SessionError;
use crate::errors::SetupStep;
use crate::text::dec_val;
use crate::text::find_char;
use crate::text::is_port_str;
use crate::text::parse_u16;
use crate::text::port_body;
use crate::text::rfind_char;
use crate::text::str_find;
use crate::text::str_rfind;
use crate::text::string_skip;
use crate::text::string_take;

/// What identifies a connection: immutable once a session is established.
#[derive(Debug, Clone)]
pub struct ConnectionInfo {
    pub host: String,
    pub port: u16,
    pub username: String,
    /// Path of the identity key; `None` means the well-known default
    /// identity under the user's home directory.
    pub key_path: Option<String>,
}

/// The purpose a channel was opened for; it fixes the setup sequence.
#[derive(Debug, Clone, Copy, PartialEq, Eq, Structural)]
pub enum ChannelKind {
    /// The file-transfer subsystem channel, one per session, reused.
    FileTransferSubsystem,
    /// A channel consumed by a single command execution.
    OneShotExec,
    /// The interactive pseudo-terminal shell channel, retained across
    /// forwarding sessions.
    InteractiveShell,
}

/// A logical duplex byte-stream multiplexed over the transport session.
#[derive(Debug, Clone, Copy, PartialEq, Eq, Structural)]
pub struct Channel {
    pub id: u64,
    pub kind: ChannelKind,
}

/// What the transport handshake and authentication exchange reported.
#[derive(Debug, Clone, Copy, PartialEq, Eq, Structural)]
pub enum ConnectOutcome {
    /// The TCP connection or protocol handshake failed.
    HandshakeFailed,
    /// The identity key could not be loaded or decrypted.
    KeyUnavailable,
    /// The server rejected the offered key.
    KeyRejected,
    /// Public-key authentication succeeded.
    Authenticated,
}

/// One authenticated secure-shell connection: the unit of trust and the
/// parent of every channel. Constructed only by [`TransportSession::establish`],
/// so a value of this type implies authentication has already succeeded.
#[derive(Debug)]
pub struct TransportSession {
    pub info: ConnectionInfo,
    /// Cleared by the first transport-level error; nothing opens afterwards.
    pub valid: bool,
    /// How many channels this session has handed out; also the next
    /// fresh channel id.
    pub channels_opened: u64,
    /// The id of the session's one file-transfer channel, once opened.
    pub sftp_channel: Option<u64>,
}

/// Whether a setup step belongs to the setup sequence of a channel kind:
/// file transfer negotiates a subsystem on a fresh channel, the two
/// interactive kinds request a pseudo-terminal and then an exec.
pub open spec fn step_belongs(kind: ChannelKind, step: SetupStep) -> bool {
    match kind {
        ChannelKind::FileTransferSubsystem => step == SetupStep::OpenSession || step
            == SetupStep::NegotiateSubsystem,
        ChannelKind::OneShotExec => step != SetupStep::NegotiateSubsystem,
        ChannelKind::InteractiveShell => step != SetupStep::NegotiateSubsystem,
    }
}

/// The session state after a successful channel open.
pub open spec fn spec_after_open(s: TransportSession, kind: ChannelKind) -> TransportSession {
    TransportSession {
        channels_opened: (s.channels_opened + 1) as u64,
        sftp_channel: if kind == ChannelKind::FileTransferSubsystem {
            Some(s.channels_opened)
        } else {
            s.sftp_channel
        },
        ..s
    }
}

/// Whether a request for the file-transfer channel succeeds without I/O:
/// it does whenever the session is still valid and the channel already
/// exists; a fresh open additionally needs the setup steps to succeed.
pub open spec fn file_channel_reusable(s: TransportSession) -> bool {
    s.valid && s.sftp_channel is Some
}

/// The id a request for the file-transfer channel yields.
pub open spec fn file_channel_id(s: TransportSession) -> u64 {
    match s.sftp_channel {
        Some(id) => id,
        None => s.channels_opened,
    }
}

/// The session state after a successful request for the file-transfer
/// channel: a fresh open records the channel, a reuse changes nothing.
pub open spec fn file_channel_next(s: TransportSession) -> TransportSession {
    match s.sftp_channel {
        Some(_) => s,
        None => spec_after_open(s, ChannelKind::FileTransferSubsystem),
    }
}

impl TransportSession {
    /// Folds the reported outcome of the transport handshake and
    /// public-key authentication into either an authenticated session or
    /// the error that ends the attempt. No session value exists before
    /// authentication has succeeded.
    pub fn establish(info: ConnectionInfo, outcome: ConnectOutcome) -> (r: Result<
        TransportSession,
        SessionError,
    >)
        ensures
            r is Ok <==> outcome == ConnectOutcome::Authenticated,
            r matches Ok(s) ==> s.info == info && s.valid && s.channels_opened == 0
                && s.sftp_channel is None,
            outcome == ConnectOutcome::HandshakeFailed ==> (r matches Err(e) && e is Transport),
            outcome == ConnectOutcome::KeyUnavailable || outcome == ConnectOutcome::KeyRejected
                ==> (r matches Err(e) && e is Auth),
    {
        match outcome {
            ConnectOutcome::HandshakeFailed => Err(
                SessionError::Transport(String::from_str("failed to connect")),
            ),
            ConnectOutcome::KeyUnavailable => Err(
                SessionError::Auth(String::from_str("failed to load the identity key")),
            ),
            ConnectOutcome::KeyRejected => Err(
                SessionError::Auth(String::from_str("the server rejected the key")),
            ),
            ConnectOutcome::Authenticated => Ok(
                TransportSession { info, valid: true, channels_opened: 0, sftp_channel: None },
            ),
        }
    }

    /// Marks the session unusable after a transport-level error; it must
    /// be discarded, not retried in place.
    pub fn invalidate(&mut self)
        ensures
            !final(self).valid,
            final(self).info == old(self).info,
            final(self).channels_opened == old(self).channels_opened,
            final(self).sftp_channel == old(self).sftp_channel,
    {
        self.valid = false;
    }

    /// Opens one typed channel. The caller performs the setup sequence
    /// and reports the first step that failed, if any; no partial channel
    /// is ever returned.
    pub fn open_channel(&mut self, kind: ChannelKind, failed_step: Option<SetupStep>) -> (r:
        Result<Channel, SessionError>)
        requires
            old(self).channels_opened < u64::MAX,
            failed_step matches Some(st) ==> step_belongs(kind, st),
        ensures
            r is Ok <==> old(self).valid && failed_step is None,
            r matches Ok(c) ==> c.id == old(self).channels_opened && c.kind == kind && *final(self)
                == spec_after_open(*old(self), kind),
            r is Err ==> *final(self) == *old(self),
            !old(self).valid ==> (r matches Err(e) && e is Transport),
            failed_step matches Some(st) ==> (old(self).valid ==> r == Err::<
                Channel,
                SessionError,
            >(SessionError::ChannelSetup(st))),
    {
        if !self.valid {
            return Err(SessionError::Transport(String::from_str("session is invalidated")));
        }
        match failed_step {
            Some(st) => Err(SessionError::ChannelSetup(st)),
            None => {
                let id = self.channels_opened;
                self.channels_opened = id + 1;
                if matches!(kind, ChannelKind::FileTransferSubsystem) {
                    self.sftp_channel = Some(id);
                }
                Ok(Channel { id, kind })
            },
        }
    }

    /// The file-transfer channel of this session: opened on the first
    /// request, returned unchanged on every later one.
    pub fn open_file_channel(&mut self, failed_step: Option<SetupStep>) -> (r: Result<
        Channel,
        SessionError,
    >)
        requires
            old(self).channels_opened < u64::MAX,
            failed_step matches Some(st) ==> step_belongs(
                ChannelKind::FileTransferSubsystem,
                st,
            ),
        ensures
            r is Ok <==> old(self).valid && (old(self).sftp_channel is Some
                || failed_step is None),
            r matches Ok(c) ==> c == (Channel {
                id: file_channel_id(*old(self)),
                kind: ChannelKind::FileTransferSubsystem,
            }) && *final(self) == file_channel_next(*old(self)),
            r is Err ==> *final(self) == *old(self),
            !old(self).valid ==> (r matches Err(e) && e is Transport),
            failed_step matches Some(st) ==> (old(self).valid && old(self).sftp_channel is None
                ==> r == Err::<Channel, SessionError>(SessionError::ChannelSetup(st))),
    {
        if !self.valid {
            return Err(SessionError::Transport(String::from_str("session is invalidated")));
        }
        match self.sftp_channel {
            Some(id) => Ok(Channel { id, kind: ChannelKind::FileTransferSubsystem }),
            None => self.open_channel(ChannelKind::FileTransferSubsystem, failed_step),
        }
    }
}

/// Law: on a freshly authenticated session whose setup steps succeed, the
/// first request for the file-transfer channel opens exactly one channel,
/// and any later request returns that very channel without opening
/// another or changing the session.
pub proof fn lemma_file_channel_opened_once_then_reused(s0: TransportSession)
    requires
        s0.valid,
        s0.sftp_channel is None,
        s0.channels_opened < u64::MAX,
    ensures
        file_channel_id(s0) == s0.channels_opened,
        file_channel_next(s0).channels_opened == s0.channels_opened + 1,
        file_channel_next(s0).sftp_channel == Some(s0.channels_opened),
        file_channel_reusable(file_channel_next(s0)),
        file_channel_id(file_channel_next(s0)) == file_channel_id(s0),
        file_channel_next(file_channel_next(s0)) == file_channel_next(s0),
{
}

/// The identity path to offer: the explicit one, or the well-known
/// default identity under the given home directory.
pub fn resolve_key_path(key_path: &Option<String>, home: &str) -> (r: String)
    ensures
        match key_path {
            Some(p) => r@ == p@,
            None => r@ == home@ + "/.ssh/id_rsa"@,
        },
{
    match key_path {
        Some(p) => p.clone(),
        None => {
            let mut s = String::from_str(home);
            s.append("/.ssh/id_rsa");
            s
        },
    }
}

/// The `user@host:port` part layout of a destination argument: the part
/// before the last colon (or the whole string without one), split at the
/// first '@' into user and host.
pub open spec fn conn_user_host(s: Seq<char>) -> Seq<char> {
    match rfind_char(s, ':') {
        Some(i) => s.take(i),
        None => s,
    }
}

/// The port digits of a destination argument, after the last colon.
pub open spec fn conn_port_part(s: Seq<char>) -> Seq<char> {
    match rfind_char(s, ':') {
        Some(i) => s.skip(i + 1),
        None => Seq::empty(),
    }
}

/// Splits `[user@]host[:port]` into username, host and port. Without a
/// colon the port is 22; without an '@' the caller's own username is
/// used. Fails exactly when the text after the last colon is not a port
/// number.
pub fn parse_connection_string(conn_str: &str, default_user: &str) -> (r: Result<
    (String, String, u16),
    SessionError,
>)
    ensures
        r is Ok <==> (rfind_char(conn_str@, ':') is None || is_port_str(conn_port_part(conn_str@))),
        r matches Ok((u, h, p)) ==> {
            let uh = conn_user_host(conn_str@);
            &&& (match rfind_char(conn_str@, ':') {
                Some(_) => p as int == dec_val(port_body(conn_port_part(conn_str@))),
                None => p == 22,
            })
            &&& (match find_char(uh, '@') {
                Some(j) => u@ == uh.take(j) && h@ == uh.skip(j + 1),
                None => u@ == default_user@ && h@ == uh,
            })
        },
        r matches Err(e) ==> e is Auth,
{
    let n = conn_str.unicode_len();
    let colon = str_rfind(conn_str, ':');
    let (user_host, port): (String, u16) = match colon {
        Some(pos) => {
            let port_str = string_skip(conn_str, pos + 1);
            match parse_u16(port_str.as_str()) {
                Some(p) => (string_take(conn_str, pos), p),
                None => {
                    return Err(SessionError::Auth(String::from_str("invalid port number")));
                },
            }
        },
        None => (string_take(conn_str, n), 22),
    };
    proof {
        assert(conn_str@.take(n as int) =~= conn_str@);
    }
    let uh = user_host.as_str();
    let m = uh.unicode_len();
    match str_find(uh, '@') {
        Some(pos) => {
            let u = string_take(uh, pos);
            let h = string_skip(uh, pos + 1);
            Ok((u, h, port))
        },
        None => {
            let u = String::from_str(default_user);
            Ok((u, user_host, port))
        },
    }
}

/// One message observed on a one-shot execution channel.
#[derive(Debug)]
pub enum ExecEvent {
    /// A block of output bytes.
    Data(Vec<u8>),
    /// The delivered exit status.
    ExitStatus(u32),
    /// Anything else on the channel, ignored.
    Other,
}

/// What a one-shot execution produced: everything read until end of
/// stream, and the exit status if one was delivered.
#[derive(Debug)]
pub struct ExecOutcome {
    pub output: Vec<u8>,
    pub exit_code: Option<u32>,
}

/// The concatenated data payloads of an event sequence, in order.
pub open spec fn spec_exec_output(evs: Seq<ExecEvent>) -> Seq<u8>
    decreases evs.len(),
{
    if evs.len() == 0 {
        Seq::empty()
    } else {
        spec_exec_output(evs.drop_last()) + (match evs.last() {
            ExecEvent::Data(d) => d@,
            _ => Seq::empty(),
        })
    }
}

/// The last exit status of an event sequence, if any was delivered.
pub open spec fn spec_exec_code(evs: Seq<ExecEvent>) -> Option<u32>
    decreases evs.len(),
{
    if evs.len() == 0 {
        None
    } else {
        match evs.last() {
            ExecEvent::ExitStatus(c) => Some(c),
            _ => spec_exec_code(evs.drop_last()),
        }
    }
}

/// Folds the messages read from a one-shot execution channel, in order,
/// into the captured output and the exit status.
pub fn collect_exec(events: Vec<ExecEvent>) -> (r: ExecOutcome)
    ensures
        r.output@ == spec_exec_output(events@),
        r.exit_code == spec_exec_code(events@),
{
    let mut output: Vec<u8> = Vec::new();
    let mut code: Option<u32> = None;
    let n = events.len();
    let mut i: usize = 0;
    while i < n
        invariant
            i <= n,
            n == events@.len(),
            output@ == spec_exec_output(events@.take(i as int)),
            code == spec_exec_code(events@.take(i as int)),
        decreases n - i,
    {
        proof {
            assert(events@.take(i + 1).drop_last() =~= events@.take(i as int));
            assert(events@.take(i + 1).last() == events@[i as int]);
        }
        match &events[i] {
            ExecEvent::Data(d) => {
                output.extend_from_slice(d.as_slice());
            },
            ExecEvent::ExitStatus(c) => {
                code = Some(*c);
            },
            ExecEvent::Other => {},
        }
        i = i + 1;
    }
    proof {
        assert(events@.take(n as int) =~= events@);
    }
    ExecOutcome { output, exit_code: code }
}

/// Turns a one-shot execution's outcome into its result: the captured
/// output on a zero or absent exit status, a remote-operation error
/// carrying the status otherwise.
pub fn exec_result(outcome: ExecOutcome) -> (r: Result<Vec<u8>, SessionError>)
    ensures
        r is Ok <==> (outcome.exit_code is None || outcome.exit_code == Some(0u32)),
        r matches Ok(o) ==> o@ == outcome.output@,
        r matches Err(e) ==> e is RemoteOperation,
{
    match outcome.exit_code {
        Some(c) if c != 0 => {
            let mut m = String::from_str("command exited with code ");
            let num = crate::text::u64_to_string(c as u64);
            m.append(num.as_str());
            Err(SessionError::RemoteOperation(m))
        },
        _ => Ok(outcome.output),
    }
}

} // verus!

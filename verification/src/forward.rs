//! The interactive shell forwarder's state machine. The loop that
//! shuttles bytes between the local terminal and the remote shell runs
//! outside the library; every decision it takes — when to flush, when to
//! suspend, when the channel dies — is a verified function here.
//!
//! Three phases: `Suspended` (no loop running, channel idle but alive),
//! `Forwarding` (bytes moving), `Terminated` (remote shell exited,
//! channel unusable, absorbing).

use vstd::prelude::*;

verus! {

use vstd::slice::slice_subrange;
use vstd::slice::slice_to_vec;
use vstd::string::StrSliceExecFns;
use vstd::string::StringExecFns;
use crate::errors::SessionError;
use crate::session::Channel;
use crate::session::ChannelKind;

/// The detach control byte: Ctrl-S anywhere in a local input chunk
/// suspends the forwarding loop. A raw byte of the same value in pasted
/// or piped data triggers it too; that ambiguity is accepted.
pub const DETACH_BYTE: u8 = 19;

/// The lifecycle phase of a shell forwarder.
#[derive(Debug, Clone, Copy, PartialEq, Eq, Structural)]
pub enum ForwardPhase {
    /// No forwarding loop runs; the channel is idle but alive.
    Suspended,
    /// The loop is actively shuttling bytes.
    Forwarding,
    /// The remote shell process exited; the channel is no longer usable.
    Terminated,
}

/// The state a shell forwarder carries across toggle cycles: the one
/// retained interactive channel, whether the remote shell still runs,
/// and the phase of the loop.
#[derive(Debug, Clone, Copy, PartialEq, Eq, Structural)]
pub struct ShellForwardState {
    pub channel: Channel,
    pub active: bool,
    pub phase: ForwardPhase,
}

impl ShellForwardState {
    /// Well-formed: the channel is the interactive kind, and `active`
    /// says exactly that the remote shell has not terminated.
    pub open spec fn wf(&self) -> bool {
        &&& self.channel.kind == ChannelKind::InteractiveShell
        &&& self.active <==> self.phase != ForwardPhase::Terminated
    }

    /// A fresh forwarder around a newly set-up interactive channel: the
    /// shell runs, no loop does yet.
    pub fn new(channel: Channel) -> (r: ShellForwardState)
        requires
            channel.kind == ChannelKind::InteractiveShell,
        ensures
            r == (ShellForwardState { channel, active: true, phase: ForwardPhase::Suspended }),
            r.wf(),
    {
        ShellForwardState { channel, active: true, phase: ForwardPhase::Suspended }
    }
}

/// The position of the first occurrence of a byte, if any.
pub open spec fn find_byte(s: Seq<u8>, b: u8) -> Option<int>
    decreases s.len(),
{
    if s.len() == 0 {
        None
    } else if s[0] == b {
        Some(0)
    } else {
        match find_byte(s.drop_first(), b) {
            Some(i) => Some(i + 1),
            None => None,
        }
    }
}

pub proof fn lemma_find_byte_ensures(s: Seq<u8>, b: u8)
    ensures
        match find_byte(s, b) {
            Some(i) => 0 <= i < s.len() && s[i] == b && forall|j: int| 0 <= j < i ==> s[j] != b,
            None => forall|j: int| 0 <= j < s.len() ==> s[j] != b,
        },
    decreases s.len(),
{
    if s.len() > 0 && s[0] != b {
        lemma_find_byte_ensures(s.drop_first(), b);
        assert forall|j: int| 1 <= j < s.len() implies s.drop_first()[j - 1] == s[j] by {}
    }
}

/// Scans a chunk for the first occurrence of a byte.
pub fn scan_byte(chunk: &Vec<u8>, b: u8) -> (r: Option<usize>)
    ensures
        match r {
            Some(i) => i < chunk@.len() && find_byte(chunk@, b) == Some(i as int),
            None => find_byte(chunk@, b) is None,
        },
{
    let n = chunk.len();
    let mut i: usize = 0;
    while i < n
        invariant
            i <= n,
            n == chunk@.len(),
            forall|j: int| 0 <= j < i ==> chunk@[j] != b,
        decreases n - i,
    {
        if chunk[i] == b {
            proof {
                lemma_find_byte_ensures(chunk@, b);
                match find_byte(chunk@, b) {
                    Some(k) => {
                        if k < i {
                            assert(chunk@[k] != b);
                        }
                        if k > i {
                            assert(chunk@[i as int] != b);
                        }
                    },
                    None => {
                        assert(chunk@[i as int] != b);
                    },
                }
            }
            return Some(i);
        }
        i = i + 1;
    }
    proof {
        lemma_find_byte_ensures(chunk@, b);
        match find_byte(chunk@, b) {
            Some(k) => {
                assert(chunk@[k] != b);
            },
            None => {},
        }
    }
    None
}

/// The state after one chunk of local input: a detach byte anywhere in
/// the chunk suspends the loop, anything else leaves it forwarding.
pub open spec fn local_input_next(s: ShellForwardState, chunk: Seq<u8>) -> ShellForwardState {
    if find_byte(chunk, DETACH_BYTE) is Some {
        ShellForwardState { phase: ForwardPhase::Suspended, ..s }
    } else {
        s
    }
}

/// What of one chunk of local input still goes to the remote side: all
/// of it, or on a detach only the bytes queued before the detach byte.
pub open spec fn local_input_flush(chunk: Seq<u8>) -> Seq<u8> {
    match find_byte(chunk, DETACH_BYTE) {
        Some(i) => chunk.take(i),
        None => chunk,
    }
}

/// The state after the remote side reports end-of-stream or a read
/// error: the shell is gone, the channel unusable.
pub open spec fn remote_closed_next(s: ShellForwardState) -> ShellForwardState {
    ShellForwardState { phase: ForwardPhase::Terminated, active: false, ..s }
}

/// Whether a request to run the forwarding loop is granted: only from
/// `Suspended`; a loop already runs in `Forwarding`, and `Terminated` is
/// absorbing.
pub open spec fn resume_ok(s: ShellForwardState) -> bool {
    s.phase == ForwardPhase::Suspended
}

/// The state after a granted resume.
pub open spec fn resume_next(s: ShellForwardState) -> ShellForwardState {
    if s.phase == ForwardPhase::Suspended {
        ShellForwardState { phase: ForwardPhase::Forwarding, ..s }
    } else {
        s
    }
}

impl ShellForwardState {
    /// Starts or resumes the forwarding loop. Exactly one loop may run
    /// at a time, and a terminated shell cannot be resumed: both refusals
    /// carry their own message rather than silently doing nothing.
    pub fn resume(&mut self) -> (r: Result<(), SessionError>)
        ensures
            r is Ok <==> resume_ok(*old(self)),
            *final(self) == resume_next(*old(self)),
            r is Ok ==> final(self).phase == ForwardPhase::Forwarding,
            old(self).phase == ForwardPhase::Terminated ==> (r matches Err(e) && e matches
                SessionError::RemoteOperation(m) && m@ == "the remote shell has exited"@),
            old(self).phase == ForwardPhase::Forwarding ==> (r matches Err(e) && e matches
                SessionError::RemoteOperation(m) && m@ == "a forwarding loop is already running"@),
    {
        match self.phase {
            ForwardPhase::Suspended => {
                self.phase = ForwardPhase::Forwarding;
                Ok(())
            },
            ForwardPhase::Forwarding => Err(
                SessionError::RemoteOperation(
                    String::from_str("a forwarding loop is already running"),
                ),
            ),
            ForwardPhase::Terminated => Err(
                SessionError::RemoteOperation(String::from_str("the remote shell has exited")),
            ),
        }
    }

    /// Handles one chunk read from the local terminal while forwarding.
    /// Returns the bytes still owed to the remote side — everything
    /// queued before a detach byte is flushed, nothing is lost — and
    /// whether the loop detached. The channel is kept either way.
    pub fn on_local_input(&mut self, chunk: &Vec<u8>) -> (r: (Vec<u8>, bool))
        requires
            old(self).phase == ForwardPhase::Forwarding,
        ensures
            *final(self) == local_input_next(*old(self), chunk@),
            r.0@ == local_input_flush(chunk@),
            r.1 == (find_byte(chunk@, DETACH_BYTE) is Some),
            final(self).channel == old(self).channel,
            final(self).active == old(self).active,
    {
        match scan_byte(chunk, DETACH_BYTE) {
            Some(i) => {
                let flush: Vec<u8> = slice_to_vec(slice_subrange(chunk.as_slice(), 0, i));
                proof {
                    assert(flush@ =~= chunk@.take(i as int));
                }
                self.phase = ForwardPhase::Suspended;
                (flush, true)
            },
            None => {
                let flush: Vec<u8> = slice_to_vec(slice_subrange(chunk.as_slice(), 0, chunk.len()));
                proof {
                    assert(flush@ =~= chunk@);
                }
                (flush, false)
            },
        }
    }

    /// Handles end-of-stream or a read error from the remote side while
    /// forwarding: the shell process is gone, the state terminates and
    /// the channel is not reusable afterwards.
    pub fn on_remote_closed(&mut self)
        requires
            old(self).phase == ForwardPhase::Forwarding,
        ensures
            *final(self) == remote_closed_next(*old(self)),
            final(self).phase == ForwardPhase::Terminated,
            !final(self).active,
            final(self).channel == old(self).channel,
    {
        self.phase = ForwardPhase::Terminated;
        self.active = false;
    }
}

/// Law: a detach byte in local input while forwarding suspends the loop
/// without closing the channel, and a later resume is granted and runs
/// the loop again on the very same channel — the same remote shell.
pub proof fn lemma_detach_then_resume(s: ShellForwardState, chunk: Seq<u8>)
    requires
        s.phase == ForwardPhase::Forwarding,
        find_byte(chunk, DETACH_BYTE) is Some,
    ensures
        local_input_next(s, chunk).phase == ForwardPhase::Suspended,
        local_input_next(s, chunk).channel == s.channel,
        local_input_next(s, chunk).active == s.active,
        resume_ok(local_input_next(s, chunk)),
        resume_next(local_input_next(s, chunk)).phase == ForwardPhase::Forwarding,
        resume_next(local_input_next(s, chunk)).channel == s.channel,
{
}

/// Law: remote exit while forwarding terminates the forwarder, every
/// later resume attempt is refused rather than silently doing nothing,
/// and no transition leads out of `Terminated`.
pub proof fn lemma_terminated_absorbing(s: ShellForwardState)
    requires
        s.phase == ForwardPhase::Forwarding,
    ensures
        remote_closed_next(s).phase == ForwardPhase::Terminated,
        !remote_closed_next(s).active,
        !resume_ok(remote_closed_next(s)),
        resume_next(remote_closed_next(s)) == remote_closed_next(s),
{
}

/// The body of a shell-escaped string: each character kept, a single
/// quote spelled as the four characters `'\''`.
pub open spec fn escaped_body(s: Seq<char>) -> Seq<char>
    decreases s.len(),
{
    if s.len() == 0 {
        Seq::empty()
    } else {
        escaped_body(s.drop_last()) + (if s.last() == '\'' {
            seq!['\'', '\\', '\'', '\'']
        } else {
            seq![s.last()]
        })
    }
}

/// Wraps a string in single quotes, escaping any single quotes inside,
/// so that a shell reads it as one literal word.
pub fn shell_escape(s: &str) -> (r: String)
    ensures
        r@ == seq!['\''] + escaped_body(s@) + seq!['\''],
{
    let n = s.unicode_len();
    let mut out = String::new();
    out.push('\'');
    let mut i: usize = 0;
    while i < n
        invariant
            i <= n,
            n == s@.len(),
            out@ == seq!['\''] + escaped_body(s@.take(i as int)),
        decreases n - i,
    {
        let c = s.get_char(i);
        proof {
            assert(s@.take(i + 1).drop_last() =~= s@.take(i as int));
            assert(s@.take(i + 1).last() == s@[i as int]);
        }
        if c == '\'' {
            out.push('\'');
            out.push('\\');
            out.push('\'');
            out.push('\'');
            proof {
                assert(out@ =~= seq!['\''] + escaped_body(s@.take(i + 1)));
            }
        } else {
            out.push(c);
            proof {
                assert(out@ =~= seq!['\''] + escaped_body(s@.take(i + 1)));
            }
        }
        i = i + 1;
    }
    out.push('\'');
    proof {
        assert(s@.take(n as int) =~= s@);
        assert(out@ =~= seq!['\''] + escaped_body(s@) + seq!['\'']);
    }
    out
}

/// The command that starts a login shell in a directory: the directory
/// shell-escaped, so spaces and quotes survive.
pub fn shell_command(initial_dir: &str) -> (r: String)
    ensures
        r@ == "cd "@ + (seq!['\''] + escaped_body(initial_dir@) + seq!['\'']) + " && exec $SHELL -l"@,
{
    let mut out = String::from_str("cd ");
    let quoted = shell_escape(initial_dir);
    out.append(quoted.as_str());
    out.append(" && exec $SHELL -l");
    out
}

} // verus!

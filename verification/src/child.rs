//! The handle of a launched child: its process identifier, the descriptor its
//! standard output arrives on, and the reading of what `waitpid` answers.

use vstd::prelude::*;

use crate::error::Error;
use crate::status;
use crate::sys;

verus! {

/// How a child came to the state that a wait call observed.
#[derive(Debug, Clone, Copy, PartialEq, Eq, Structural)]
pub enum ExitKind {
    /// The process exited normally; the number is its exit code.
    Exited,
    /// An uncaught signal ended the process; the number is that signal.
    Signaled,
    /// A signal stopped the process; the number is that signal.
    Stopped,
}

/// The decoded status of a child: a number and what it stands for.
#[derive(Debug, Clone, Copy, PartialEq, Eq, Structural)]
pub struct ExitCode {
    pub kind: ExitKind,
    pub code: i32,
}

impl ExitCode {
    /// What a raw status word decodes to. The three readings are tried in
    /// turn: normal exit, terminating signal, stop signal. A word to which
    /// none applies decodes to nothing.
    pub open spec fn decode(word: i32) -> Option<ExitCode> {
        if status::exited(word) {
            Some(ExitCode { kind: ExitKind::Exited, code: status::exit_status(word) })
        } else if status::signaled(word) {
            Some(ExitCode { kind: ExitKind::Signaled, code: status::term_signal(word) })
        } else if status::stopped(word) {
            Some(ExitCode { kind: ExitKind::Stopped, code: status::stop_signal(word) })
        } else {
            None
        }
    }

    /// A status that ends the child's life: a normal exit or a terminating
    /// signal. A stop is not terminal.
    pub open spec fn terminal(self) -> bool {
        self.kind != ExitKind::Stopped
    }

    /// The number is in the range that its kind allows.
    pub open spec fn wf(self) -> bool {
        match self.kind {
            ExitKind::Exited => 0 <= self.code <= 255,
            ExitKind::Signaled => 1 <= self.code <= 126,
            ExitKind::Stopped => 0 <= self.code <= 255,
        }
    }

    /// Decodes a raw status word.
    pub fn from_status(word: i32) -> (r: Option<ExitCode>)
        ensures
            r == Self::decode(word),
            r matches Some(code) ==> code.wf(),
    {
        proof {
            status::lemma_signaled_by_cast(word);
            status::lemma_reading_ranges(word);
        }
        if libc::WIFEXITED(word) {
            Some(ExitCode { kind: ExitKind::Exited, code: libc::WEXITSTATUS(word) })
        } else if libc::WIFSIGNALED(word) {
            Some(ExitCode { kind: ExitKind::Signaled, code: libc::WTERMSIG(word) })
        } else if libc::WIFSTOPPED(word) {
            Some(ExitCode { kind: ExitKind::Stopped, code: libc::WSTOPSIG(word) })
        } else {
            None
        }
    }

    /// The exit code or signal number.
    pub fn code(&self) -> (r: i32)
        ensures
            r == self.code,
    {
        self.code
    }

    /// What the number stands for.
    pub fn kind(&self) -> (r: ExitKind)
        ensures
            r == self.kind,
    {
        self.kind
    }
}

/// The arguments of one `waitpid` call.
#[derive(Debug, Clone, Copy, PartialEq, Eq, Structural)]
pub struct WaitCall {
    /// The process to wait for.
    pub pid: i32,
    /// The value to store in the status word before the call.
    pub status: i32,
    /// The options of the call.
    pub options: i32,
}

/// What one `waitpid` call answered.
#[derive(Debug, Clone, Copy, PartialEq, Eq, Structural)]
pub struct WaitReply {
    /// The value the call returned.
    pub ret: i32,
    /// The status word after the call.
    pub status: i32,
    /// The calling thread's error number after the call.
    pub os_error: i32,
}

/// A launched child process.
pub struct Child {
    pid: i32,
    output: i32,
}

impl Child {
    /// The process identifier of the child.
    pub closed spec fn spec_pid(&self) -> i32 {
        self.pid
    }

    /// The descriptor of the read end of the pipe that carries the child's
    /// standard output.
    pub closed spec fn spec_output_fd(&self) -> i32 {
        self.output
    }

    /// What a poll makes of the answer to its call.
    pub open spec fn spec_try_wait(reply: WaitReply) -> Result<Option<ExitCode>, Error> {
        if reply.ret == -1 {
            Err(Error::Io(reply.os_error))
        } else {
            Ok(ExitCode::decode(reply.status))
        }
    }

    /// What a blocking wait makes of the answer to its call.
    pub open spec fn spec_wait(reply: WaitReply) -> Result<ExitCode, Error> {
        if reply.ret == -1 {
            Err(Error::Io(reply.os_error))
        } else {
            match ExitCode::decode(reply.status) {
                Some(code) if code.terminal() => Ok(code),
                _ => Err(Error::Io(reply.os_error)),
            }
        }
    }

    /// The handle of the child `pid` whose standard output arrives on the
    /// descriptor `output`.
    pub fn new(pid: i32, output: i32) -> (child: Child)
        ensures
            child.spec_pid() == pid,
            child.spec_output_fd() == output,
    {
        Child { pid, output }
    }

    /// The process identifier of the child.
    #[verifier::when_used_as_spec(spec_pid)]
    pub fn pid(&self) -> (r: i32)
        ensures
            r == self.spec_pid(),
    {
        self.pid
    }

    /// The descriptor to read the child's standard output from.
    #[verifier::when_used_as_spec(spec_output_fd)]
    pub fn output_fd(&self) -> (r: i32)
        ensures
            r == self.spec_output_fd(),
    {
        self.output
    }

    /// The call that polls the child: with the option that makes `waitpid`
    /// return at once, so that the poll does not block, and with the status
    /// word unset, so that an untouched word reads as still running.
    pub fn poll_call(&self) -> (call: WaitCall)
        ensures
            call == (WaitCall { pid: self.spec_pid(), status: status::UNSET, options: 1 }),
    {
        WaitCall { pid: self.pid, status: status::UNSET, options: sys::wnohang() }
    }

    /// The call that blocks until the child's status is available.
    pub fn wait_call(&self) -> (call: WaitCall)
        ensures
            call == (WaitCall { pid: self.spec_pid(), status: status::UNSET, options: 0 }),
    {
        WaitCall { pid: self.pid, status: status::UNSET, options: 0 }
    }

    /// Reads the answer to a poll: an I/O error if the call failed, nothing if
    /// the child is still running, else its decoded status.
    pub fn try_wait(&self, reply: WaitReply) -> (r: Result<Option<ExitCode>, Error>)
        ensures
            r == Self::spec_try_wait(reply),
            r matches Ok(Some(code)) ==> code.wf(),
    {
        if reply.ret == -1 {
            return Err(Error::Io(reply.os_error));
        }
        Ok(ExitCode::from_status(reply.status))
    }

    /// Reads the answer to a blocking wait: the decoded status if the child
    /// exited or was ended by a signal, else an I/O error.
    pub fn wait(&self, reply: WaitReply) -> (r: Result<ExitCode, Error>)
        ensures
            r == Self::spec_wait(reply),
            r matches Ok(code) ==> code.wf() && code.terminal(),
    {
        if reply.ret == -1 {
            return Err(Error::Io(reply.os_error));
        }
        proof {
            status::lemma_signaled_by_cast(reply.status);
            status::lemma_reading_ranges(reply.status);
        }
        if libc::WIFEXITED(reply.status) {
            Ok(ExitCode { kind: ExitKind::Exited, code: libc::WEXITSTATUS(reply.status) })
        } else if libc::WIFSIGNALED(reply.status) {
            Ok(ExitCode { kind: ExitKind::Signaled, code: libc::WTERMSIG(reply.status) })
        } else {
            Err(Error::Io(reply.os_error))
        }
    }

    /// Reads the result of draining the child's standard output to its end:
    /// the bytes as they were read, or an I/O error with the error number of
    /// the failed read.
    pub fn output(&mut self, drained: Result<Vec<u8>, i32>) -> (r: Result<Vec<u8>, Error>)
        ensures
            *final(self) == *old(self),
            match drained {
                Ok(bytes) => r == Ok::<Vec<u8>, Error>(bytes),
                Err(os_error) => r == Err::<Vec<u8>, Error>(Error::Io(os_error)),
            },
    {
        match drained {
            Ok(bytes) => Ok(bytes),
            Err(os_error) => Err(Error::Io(os_error)),
        }
    }
}

/// A poll that found the child still running, its status word untouched,
/// reports no status.
pub proof fn lemma_poll_of_running_child(reply: WaitReply)
    requires
        reply.ret != -1,
        reply.status == status::UNSET,
    ensures
        Child::spec_try_wait(reply) == Ok::<Option<ExitCode>, Error>(None),
{
    status::lemma_unset_has_no_reading();
}

/// On one answer, a blocking wait succeeds exactly when a poll reports a
/// terminal status, and then both report the same status.
pub proof fn lemma_wait_agrees_with_poll(reply: WaitReply, code: ExitCode)
    ensures
        Child::spec_wait(reply) == Ok::<ExitCode, Error>(code) <==> (Child::spec_try_wait(reply)
            == Ok::<Option<ExitCode>, Error>(Some(code)) && code.terminal()),
{
}

/// A call that failed is an I/O error with the reported error number, for
/// the poll and for the blocking wait alike.
pub proof fn lemma_failed_call_is_io_error(reply: WaitReply)
    requires
        reply.ret == -1,
    ensures
        Child::spec_try_wait(reply) == Err::<Option<ExitCode>, Error>(Error::Io(reply.os_error)),
        Child::spec_wait(reply) == Err::<ExitCode, Error>(Error::Io(reply.os_error)),
{
}

/// A blocking wait on a child that exited normally with `code` reports that
/// exit code.
pub proof fn lemma_wait_reports_exit_code(reply: WaitReply, code: i32)
    requires
        reply.ret != -1,
        0 <= code <= 255,
        reply.status == status::exit_word(code),
    ensures
        Child::spec_wait(reply) == Ok::<ExitCode, Error>(
            ExitCode { kind: ExitKind::Exited, code },
        ),
{
    status::lemma_exit_word_reads_back(code);
}

/// A blocking wait that observes a stop fails with an I/O error.
pub proof fn lemma_wait_rejects_stop(reply: WaitReply)
    requires
        reply.ret != -1,
        status::stopped(reply.status),
    ensures
        Child::spec_wait(reply) == Err::<ExitCode, Error>(Error::Io(reply.os_error)),
        Child::spec_try_wait(reply) == Ok::<Option<ExitCode>, Error>(
            Some(ExitCode { kind: ExitKind::Stopped, code: status::stop_signal(reply.status) }),
        ),
{
    status::lemma_readings_exclusive(reply.status);
}

} // verus!

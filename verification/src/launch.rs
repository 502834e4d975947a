//! The launch protocol: which system call to make next, given what the last
//! one answered.
//!
//! The protocol is a machine over plain values. A driver starts it, performs
//! the call it asks for, hands the answer back, and goes on until the machine
//! names an outcome. After `vfork` the machine runs twice: in the parent,
//! which gets the child's process identifier, and in the child, which gets
//! zero and runs in the parent's address space until it replaces its image or
//! exits. In the child the machine asks only for closing a descriptor,
//! duplicating one, replacing the image and exiting at once, and it allocates
//! nothing.

use vstd::prelude::*;

use crate::child::Child;
use crate::child::ExitCode;
use crate::child::ExitKind;
use crate::child::WaitReply;
use crate::command::owned_byte_strings;
use crate::command::Command;
use crate::error::Error;
use crate::status;
use crate::sys;

verus! {

/// The descriptor of standard output.
pub const STDOUT: i32 = 1;

/// The status with which the child exits when it cannot become the program.
pub const EXIT_FAILURE: i32 = 1;

/// Where a launch stands.
#[derive(Debug, Clone, Copy, PartialEq, Eq, Structural)]
pub enum Phase {
    /// A pipe was asked for.
    Piping,
    /// The pipe exists and the child process was asked for.
    Forking { read_fd: i32, write_fd: i32 },
    /// No child came to be: the read end is being closed.
    AbortClosingRead { write_fd: i32, os_error: i32 },
    /// No child came to be: the write end is being closed.
    AbortClosingWrite { os_error: i32 },
    /// In the parent: the write end is being closed.
    ParentClosing { pid: i32, read_fd: i32 },
    /// In the child: the read end is being closed.
    ChildClosing { write_fd: i32 },
    /// In the child: the write end is being duplicated onto standard output.
    ChildRedirecting,
    /// In the child: the image is being replaced.
    ChildExecuting,
    /// In the child: the process was told to exit.
    ChildExit { status: i32 },
    /// The launch gave a child.
    Spawned { pid: i32, output: i32 },
    /// The launch failed.
    Failed { os_error: i32 },
}

/// What the driver is to do next.
#[derive(Debug, Clone, Copy, PartialEq, Eq, Structural)]
pub enum Action {
    /// Create a pipe.
    Pipe,
    /// Create the child process with `vfork`.
    Vfork,
    /// Close a descriptor.
    Close { fd: i32 },
    /// Duplicate the descriptor `src` onto `dst`.
    Dup2 { src: i32, dst: i32 },
    /// Replace the process image with the program, passing the argument
    /// vector.
    Execv,
    /// Exit at once with `status`, running nothing else.
    Exit { status: i32 },
    /// Stop: the child `pid` runs, and its standard output arrives on `output`.
    Spawned { pid: i32, output: i32 },
    /// Stop: the launch failed with an I/O error.
    Failed { os_error: i32 },
}

/// What a system call answered.
#[derive(Debug, Clone, Copy, PartialEq, Eq, Structural)]
pub struct Reply {
    /// The value the call returned.
    pub ret: i32,
    /// The calling thread's error number after the call.
    pub os_error: i32,
    /// The read end that `pipe` gave; of no meaning after another call.
    pub read_fd: i32,
    /// The write end that `pipe` gave; of no meaning after another call.
    pub write_fd: i32,
}

impl Phase {
    /// The phase belongs to the child's side of `vfork`.
    pub open spec fn in_child(self) -> bool {
        self is ChildClosing || self is ChildRedirecting || self is ChildExecuting
            || self is ChildExit
    }

    /// The launch is over: every further step repeats the last action.
    pub open spec fn is_final(self) -> bool {
        self is Spawned || self is Failed || self is ChildExit
    }

    /// The first phase and the first action of every launch.
    pub open spec fn spec_start() -> (Phase, Action) {
        (Phase::Piping, Action::Pipe)
    }

    /// The next phase and the action to take, given the answer to the action
    /// that led to this phase.
    pub open spec fn spec_step(self, reply: Reply) -> (Phase, Action) {
        match self {
            Phase::Piping => if reply.ret == -1 {
                (Phase::Failed { os_error: reply.os_error }, Action::Failed { os_error: reply.os_error })
            } else {
                (
                    Phase::Forking { read_fd: reply.read_fd, write_fd: reply.write_fd },
                    Action::Vfork,
                )
            },
            Phase::Forking { read_fd, write_fd } => if reply.ret == -1 {
                (
                    Phase::AbortClosingRead { write_fd, os_error: reply.os_error },
                    Action::Close { fd: read_fd },
                )
            } else if reply.ret == 0 {
                (Phase::ChildClosing { write_fd }, Action::Close { fd: read_fd })
            } else {
                (Phase::ParentClosing { pid: reply.ret, read_fd }, Action::Close { fd: write_fd })
            },
            Phase::AbortClosingRead { write_fd, os_error } => (
                Phase::AbortClosingWrite { os_error },
                Action::Close { fd: write_fd },
            ),
            Phase::AbortClosingWrite { os_error } => (
                Phase::Failed { os_error },
                Action::Failed { os_error },
            ),
            Phase::ParentClosing { pid, read_fd } => (
                Phase::Spawned { pid, output: read_fd },
                Action::Spawned { pid, output: read_fd },
            ),
            Phase::ChildClosing { write_fd } => (
                Phase::ChildRedirecting,
                Action::Dup2 { src: write_fd, dst: STDOUT },
            ),
            Phase::ChildRedirecting => if reply.ret == -1 {
                (Phase::ChildExit { status: EXIT_FAILURE }, Action::Exit { status: EXIT_FAILURE })
            } else {
                (Phase::ChildExecuting, Action::Execv)
            },
            Phase::ChildExecuting => (
                Phase::ChildExit { status: EXIT_FAILURE },
                Action::Exit { status: EXIT_FAILURE },
            ),
            Phase::ChildExit { status } => (Phase::ChildExit { status }, Action::Exit { status }),
            Phase::Spawned { pid, output } => (
                Phase::Spawned { pid, output },
                Action::Spawned { pid, output },
            ),
            Phase::Failed { os_error } => (Phase::Failed { os_error }, Action::Failed { os_error }),
        }
    }

    /// The phase reached from this one by the answers `replies`, in order.
    pub open spec fn run(self, replies: Seq<Reply>) -> Phase
        decreases replies.len(),
    {
        if replies.len() == 0 {
            self
        } else {
            self.run(replies.drop_last()).spec_step(replies.last()).0
        }
    }

    /// The actions asked for on the way from this phase, one for each of the
    /// answers `replies`.
    pub open spec fn trace(self, replies: Seq<Reply>) -> Seq<Action>
        decreases replies.len(),
    {
        if replies.len() == 0 {
            Seq::empty()
        } else {
            self.trace(replies.drop_last()).push(
                self.run(replies.drop_last()).spec_step(replies.last()).1,
            )
        }
    }

    /// Begins a launch: the first phase, and the first action to take.
    pub fn start() -> (r: (Phase, Action))
        ensures
            r == Self::spec_start(),
    {
        (Phase::Piping, Action::Pipe)
    }

    /// Takes the answer to the last action and gives the next phase with the
    /// next action.
    pub fn step(self, reply: Reply) -> (r: (Phase, Action))
        ensures
            r == self.spec_step(reply),
    {
        match self {
            Phase::Piping => {
                if reply.ret == -1 {
                    (
                        Phase::Failed { os_error: reply.os_error },
                        Action::Failed { os_error: reply.os_error },
                    )
                } else {
                    (
                        Phase::Forking { read_fd: reply.read_fd, write_fd: reply.write_fd },
                        Action::Vfork,
                    )
                }
            },
            Phase::Forking { read_fd, write_fd } => {
                if reply.ret == -1 {
                    (
                        Phase::AbortClosingRead { write_fd, os_error: reply.os_error },
                        Action::Close { fd: read_fd },
                    )
                } else if reply.ret == 0 {
                    (Phase::ChildClosing { write_fd }, Action::Close { fd: read_fd })
                } else {
                    (
                        Phase::ParentClosing { pid: reply.ret, read_fd },
                        Action::Close { fd: write_fd },
                    )
                }
            },
            Phase::AbortClosingRead { write_fd, os_error } => (
                Phase::AbortClosingWrite { os_error },
                Action::Close { fd: write_fd },
            ),
            Phase::AbortClosingWrite { os_error } => (
                Phase::Failed { os_error },
                Action::Failed { os_error },
            ),
            Phase::ParentClosing { pid, read_fd } => (
                Phase::Spawned { pid, output: read_fd },
                Action::Spawned { pid, output: read_fd },
            ),
            Phase::ChildClosing { write_fd } => (
                Phase::ChildRedirecting,
                Action::Dup2 { src: write_fd, dst: sys::stdout_fileno() },
            ),
            Phase::ChildRedirecting => {
                if reply.ret == -1 {
                    (
                        Phase::ChildExit { status: EXIT_FAILURE },
                        Action::Exit { status: EXIT_FAILURE },
                    )
                } else {
                    (Phase::ChildExecuting, Action::Execv)
                }
            },
            Phase::ChildExecuting => (
                Phase::ChildExit { status: EXIT_FAILURE },
                Action::Exit { status: EXIT_FAILURE },
            ),
            Phase::ChildExit { status } => (Phase::ChildExit { status }, Action::Exit { status }),
            Phase::Spawned { pid, output } => (
                Phase::Spawned { pid, output },
                Action::Spawned { pid, output },
            ),
            Phase::Failed { os_error } => (Phase::Failed { os_error }, Action::Failed { os_error }),
        }
    }
}

impl Action {
    /// The action is one of the few that the child may take while it shares
    /// the parent's address space.
    pub open spec fn narrow(self) -> bool {
        self is Close || self is Dup2 || self is Execv || self is Exit
    }

    /// The outcome that the action names, if it names one.
    pub open spec fn spec_outcome(self) -> Option<Result<(i32, i32), Error>> {
        match self {
            Action::Spawned { pid, output } => Some(Ok((pid, output))),
            Action::Failed { os_error } => Some(Err(Error::Io(os_error))),
            _ => None,
        }
    }

    /// The result of the launch, where the action ends it: the handle of the
    /// child, or the I/O error. Nothing where the launch goes on.
    pub fn outcome(&self) -> (r: Option<Result<Child, Error>>)
        ensures
            match self.spec_outcome() {
                Some(Ok((pid, output))) => r matches Some(Ok(child)) && child.pid() == pid
                    && child.output_fd() == output,
                Some(Err(e)) => r matches Some(Err(f)) && f == e,
                None => r is None,
            },
    {
        match self {
            Action::Spawned { pid, output } => Some(Ok(Child::new(*pid, *output))),
            Action::Failed { os_error } => Some(Err(Error::Io(*os_error))),
            _ => None,
        }
    }
}

/// The bytes of a C string: the given bytes and a closing zero byte.
pub open spec fn c_string(bytes: Seq<u8>) -> Seq<u8> {
    bytes.push(0)
}

/// The C strings of the items, in the same order.
pub open spec fn c_strings(items: Seq<Seq<u8>>) -> Seq<Seq<u8>> {
    Seq::new(items.len(), |i: int| c_string(items[i]))
}

/// What a reader of C strings takes from `image`: the bytes before the first
/// zero byte.
pub open spec fn c_read(image: Seq<u8>) -> Seq<u8>
    decreases image.len(),
{
    if image.len() == 0 || image[0] == 0 {
        Seq::empty()
    } else {
        seq![image[0]] + c_read(image.drop_first())
    }
}

/// What a launch hands to the image replacement, made ready before the child
/// exists: the path of the program and the argument vector, each as a C
/// string.
pub struct Launch {
    path: Vec<u8>,
    argv: Vec<Vec<u8>>,
}

impl Launch {
    /// The path of the program, as a C string.
    pub closed spec fn spec_path(&self) -> Seq<u8> {
        self.path@
    }

    /// The argument vector, each entry as a C string.
    pub closed spec fn spec_argv(&self) -> Seq<Seq<u8>> {
        owned_byte_strings(self.argv@)
    }

    /// The path of the program, as a C string.
    pub fn path(&self) -> (r: &Vec<u8>)
        ensures
            r@ == self.spec_path(),
    {
        &self.path
    }

    /// The argument vector, each entry as a C string.
    pub fn argv(&self) -> (r: &Vec<Vec<u8>>)
        ensures
            owned_byte_strings(r@) == self.spec_argv(),
    {
        &self.argv
    }
}

impl Command {
    /// Makes the launch ready, before any process exists: the path is the
    /// program, and the argument vector is the program followed by the
    /// arguments, each as a C string. A driver then runs the protocol from
    /// `Phase::start`.
    pub fn spawn(&self) -> (launch: Launch)
        ensures
            launch.spec_path() == c_string(self@.program),
            launch.spec_argv() == c_strings(self@.argv()),
    {
        let path = terminated(self.program());
        let mut argv: Vec<Vec<u8>> = Vec::new();
        argv.push(terminated(self.program()));
        let args = self.arguments();
        let mut i: usize = 0;
        while i < args.len()
            invariant
                0 <= i <= args.len(),
                argv@.len() == i + 1,
                argv@[0]@ == c_string(self@.program),
                forall|j: int| 0 <= j < i ==> (#[trigger] argv@[j + 1])@ == c_string(args@[j]@),
            decreases args.len() - i,
        {
            argv.push(terminated(&args[i]));
            i += 1;
        }
        let launch = Launch { path, argv };
        proof {
            let items = self@.argv();
            assert(items.len() == args@.len() + 1);
            assert forall|k: int| 0 <= k < items.len() implies launch.spec_argv()[k] == c_string(
                items[k],
            ) by {
                if k > 0 {
                    assert(argv@[(k - 1) + 1]@ == c_string(args@[k - 1]@));
                    assert(items[k] == self@.args[k - 1]);
                    assert(owned_byte_strings(args@)[k - 1] == args@[k - 1]@);
                }
            }
            assert(launch.spec_argv() =~= c_strings(items));
        }
        launch
    }
}

/// A copy of `bytes` with a closing zero byte.
fn terminated(bytes: &Vec<u8>) -> (r: Vec<u8>)
    ensures
        r@ == c_string(bytes@),
{
    let mut r: Vec<u8> = Vec::new();
    let mut i: usize = 0;
    while i < bytes.len()
        invariant
            0 <= i <= bytes.len(),
            r@ == bytes@.take(i as int),
        decreases bytes.len() - i,
    {
        r.push(bytes[i]);
        assert(bytes@.take(i + 1) =~= bytes@.take(i as int).push(bytes@[i as int]));
        i += 1;
    }
    assert(bytes@.take(bytes@.len() as int) =~= bytes@);
    r.push(0);
    r
}

/// A byte string without a zero byte is read back whole from its C string.
pub proof fn lemma_c_string_reads_back(bytes: Seq<u8>)
    requires
        forall|i: int| 0 <= i < bytes.len() ==> bytes[i] != 0,
    ensures
        c_read(c_string(bytes)) == bytes,
    decreases bytes.len(),
{
    if bytes.len() == 0 {
        assert(c_string(bytes)[0] == 0);
        assert(c_read(c_string(bytes)) =~= bytes);
    } else {
        let rest = bytes.drop_first();
        lemma_c_string_reads_back(rest);
        assert(c_string(bytes)[0] == bytes[0]);
        assert(c_string(bytes).drop_first() =~= c_string(rest));
        assert(seq![bytes[0]] + rest =~= bytes);
    }
}

/// One more answer takes the run one step further and adds one action to the
/// trace.
pub proof fn lemma_run_push(phase: Phase, replies: Seq<Reply>, reply: Reply)
    ensures
        phase.run(replies.push(reply)) == phase.run(replies).spec_step(reply).0,
        phase.trace(replies.push(reply)) == phase.trace(replies).push(
            phase.run(replies).spec_step(reply).1,
        ),
{
    assert(replies.push(reply).drop_last() =~= replies);
}

/// On the child's side of `vfork`, whatever the system calls answer, the
/// launch stays on that side and asks only for closing, duplicating,
/// replacing the image and exiting.
pub proof fn lemma_child_stays_narrow(phase: Phase, replies: Seq<Reply>)
    requires
        phase.in_child(),
    ensures
        phase.run(replies).in_child(),
        phase.trace(replies).len() == replies.len(),
        forall|i: int| 0 <= i < replies.len() ==> (#[trigger] phase.trace(replies)[i]).narrow(),
    decreases replies.len(),
{
    if replies.len() > 0 {
        lemma_child_stays_narrow(phase, replies.drop_last());
    }
}

/// The child's script. It duplicates the write end onto standard output. If
/// that fails it exits with a failure status. Else it replaces its image,
/// and if that call returns at all, it exits with a failure status.
pub proof fn lemma_child_script(write_fd: i32, closed: Reply, dup: Reply, exec: Reply)
    ensures
        (Phase::ChildClosing { write_fd }).trace(seq![closed, dup, exec]) == seq![
            Action::Dup2 { src: write_fd, dst: STDOUT },
            if dup.ret == -1 {
                Action::Exit { status: EXIT_FAILURE }
            } else {
                Action::Execv
            },
            Action::Exit { status: EXIT_FAILURE },
        ],
        (Phase::ChildClosing { write_fd }).run(seq![closed, dup, exec]) == (Phase::ChildExit {
            status: EXIT_FAILURE,
        }),
{
    let start = Phase::ChildClosing { write_fd };
    let none = Seq::<Reply>::empty();
    lemma_run_push(start, none, closed);
    lemma_run_push(start, none.push(closed), dup);
    lemma_run_push(start, none.push(closed).push(dup), exec);
    assert(none.push(closed).push(dup).push(exec) =~= seq![closed, dup, exec]);
    assert(start.trace(seq![closed, dup, exec]) =~= seq![
        Action::Dup2 { src: write_fd, dst: STDOUT },
        if dup.ret == -1 {
            Action::Exit { status: EXIT_FAILURE }
        } else {
            Action::Execv
        },
        Action::Exit { status: EXIT_FAILURE },
    ]);
}

/// Where no pipe can be had, the launch fails at once with the error number
/// of that call, and asks for nothing more: no process is created.
pub proof fn lemma_pipe_failure_ends_launch(pipe: Reply, later: Seq<Reply>)
    requires
        pipe.ret == -1,
    ensures
        Phase::spec_start().0.spec_step(pipe) == (
            Phase::Failed { os_error: pipe.os_error },
            Action::Failed { os_error: pipe.os_error },
        ),
        (Phase::Failed { os_error: pipe.os_error }).run(later) == (Phase::Failed {
            os_error: pipe.os_error,
        }),
        forall|i: int|
            0 <= i < later.len() ==> (#[trigger] (Phase::Failed { os_error: pipe.os_error }).trace(
                later,
            )[i]) == (Action::Failed { os_error: pipe.os_error }),
{
    lemma_final_repeats(Phase::Failed { os_error: pipe.os_error }, later);
}

/// Where `vfork` fails, both ends of the pipe are closed, the read end
/// first, and the launch fails with the error number of `vfork`, whatever
/// the two closing calls answer.
pub proof fn lemma_fork_failure_closes_both(
    read_fd: i32,
    write_fd: i32,
    fork: Reply,
    closed_read: Reply,
    closed_write: Reply,
)
    requires
        fork.ret == -1,
    ensures
        (Phase::Forking { read_fd, write_fd }).trace(seq![fork, closed_read, closed_write]) == seq![
            Action::Close { fd: read_fd },
            Action::Close { fd: write_fd },
            Action::Failed { os_error: fork.os_error },
        ],
{
    let start = Phase::Forking { read_fd, write_fd };
    let none = Seq::<Reply>::empty();
    lemma_run_push(start, none, fork);
    lemma_run_push(start, none.push(fork), closed_read);
    lemma_run_push(start, none.push(fork).push(closed_read), closed_write);
    assert(none.push(fork).push(closed_read).push(closed_write) =~= seq![
        fork,
        closed_read,
        closed_write,
    ]);
    assert(start.trace(seq![fork, closed_read, closed_write]) =~= seq![
        Action::Close { fd: read_fd },
        Action::Close { fd: write_fd },
        Action::Failed { os_error: fork.os_error },
    ]);
}

/// In the parent, the write end is closed and the launch gives the child
/// that `vfork` named, with the read end as its output, whatever the closing
/// call answers.
pub proof fn lemma_parent_gets_handle(read_fd: i32, write_fd: i32, fork: Reply, closed: Reply)
    requires
        fork.ret != -1,
        fork.ret != 0,
    ensures
        (Phase::Forking { read_fd, write_fd }).trace(seq![fork, closed]) == seq![
            Action::Close { fd: write_fd },
            Action::Spawned { pid: fork.ret, output: read_fd },
        ],
{
    let start = Phase::Forking { read_fd, write_fd };
    let none = Seq::<Reply>::empty();
    lemma_run_push(start, none, fork);
    lemma_run_push(start, none.push(fork), closed);
    assert(none.push(fork).push(closed) =~= seq![fork, closed]);
    assert(start.trace(seq![fork, closed]) =~= seq![
        Action::Close { fd: write_fd },
        Action::Spawned { pid: fork.ret, output: read_fd },
    ]);
}

/// A launch in which every call succeeds asks, in the parent, for the pipe,
/// for the child, and for the closing of the pipe's write end, and then
/// gives the child that `vfork` named with the pipe's read end as its output.
pub proof fn lemma_launch_gives_child(pipe: Reply, fork: Reply, closed: Reply)
    requires
        pipe.ret != -1,
        fork.ret != -1,
        fork.ret != 0,
    ensures
        Phase::spec_start() == (Phase::Piping, Action::Pipe),
        Phase::Piping.trace(seq![pipe, fork, closed]) == seq![
            Action::Vfork,
            Action::Close { fd: pipe.write_fd },
            Action::Spawned { pid: fork.ret, output: pipe.read_fd },
        ],
{
    let start = Phase::Piping;
    let none = Seq::<Reply>::empty();
    lemma_run_push(start, none, pipe);
    lemma_run_push(start, none.push(pipe), fork);
    lemma_run_push(start, none.push(pipe).push(fork), closed);
    assert(none.push(pipe).push(fork).push(closed) =~= seq![pipe, fork, closed]);
    assert(start.trace(seq![pipe, fork, closed]) =~= seq![
        Action::Vfork,
        Action::Close { fd: pipe.write_fd },
        Action::Spawned { pid: fork.ret, output: pipe.read_fd },
    ]);
}

/// On the child's side a step reads nothing of an answer but the value the
/// call returned.
pub proof fn lemma_child_reads_only_ret(phase: Phase, one: Reply, other: Reply)
    requires
        phase.in_child(),
        one.ret == other.ret,
    ensures
        phase.spec_step(one) == phase.spec_step(other),
{
}

/// In the child, the read end is closed first, and the launch goes on with
/// the child's script.
pub proof fn lemma_child_begins_by_closing_read(read_fd: i32, write_fd: i32, fork: Reply)
    requires
        fork.ret == 0,
    ensures
        (Phase::Forking { read_fd, write_fd }).spec_step(fork) == (
            Phase::ChildClosing { write_fd },
            Action::Close { fd: read_fd },
        ),
{
}

/// Once the launch is over, every further step leaves the phase as it is and
/// names the same outcome.
pub proof fn lemma_final_repeats(phase: Phase, replies: Seq<Reply>)
    requires
        phase.is_final(),
    ensures
        phase.run(replies) == phase,
        phase.trace(replies).len() == replies.len(),
        forall|i: int, j: int|
            0 <= i < replies.len() && 0 <= j < replies.len() ==> #[trigger] phase.trace(replies)[i]
                == #[trigger] phase.trace(replies)[j],
        forall|i: int|
            0 <= i < replies.len() ==> (#[trigger] phase.trace(replies)[i]) == phase.spec_step(
                replies[i],
            ).1,
    decreases replies.len(),
{
    if replies.len() > 0 {
        lemma_final_repeats(phase, replies.drop_last());
    }
}

/// A child is named only by a `vfork` that returned its identifier; the
/// launch never names a child on the child's side, nor before the pipe and
/// the process exist.
pub proof fn lemma_spawned_only_in_parent(phase: Phase, reply: Reply)
    requires
        phase.spec_step(reply).1 is Spawned,
    ensures
        phase is ParentClosing || phase is Spawned,
        !phase.in_child(),
{
}

/// A program that cannot be run does not fail the launch. The parent gets
/// the handle as for any child. The child, once the image replacement has
/// returned, exits with the failure status, and a blocking wait on that
/// exit reports a normal exit whose code is not zero.
pub proof fn lemma_unrunnable_program_exits_nonzero(
    read_fd: i32,
    write_fd: i32,
    fork: Reply,
    closed: Reply,
    dup: Reply,
    exec: Reply,
    waited: WaitReply,
)
    requires
        fork.ret != -1,
        fork.ret != 0,
        dup.ret != -1,
        waited.ret != -1,
        waited.status == status::exit_word(EXIT_FAILURE),
    ensures
        (Phase::Forking { read_fd, write_fd }).trace(seq![fork, closed]).last() == (Action::Spawned {
            pid: fork.ret,
            output: read_fd,
        }),
        (Phase::ChildClosing { write_fd }).trace(seq![closed, dup, exec]).last() == (Action::Exit {
            status: EXIT_FAILURE,
        }),
        Child::spec_wait(waited) == Ok::<ExitCode, Error>(
            ExitCode { kind: ExitKind::Exited, code: EXIT_FAILURE },
        ),
        EXIT_FAILURE != 0,
{
    lemma_parent_gets_handle(read_fd, write_fd, fork, closed);
    lemma_child_script(write_fd, closed, dup, exec);
    crate::child::lemma_wait_reports_exit_code(waited, EXIT_FAILURE);
}

} // verus!

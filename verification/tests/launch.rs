use vfork::launch::{Action, Phase, Reply, EXIT_FAILURE, STDOUT};
use vfork::Error;

fn plain(ret: i32) -> Reply {
    Reply { ret, os_error: 0, read_fd: 0, write_fd: 0 }
}

fn failed(os_error: i32) -> Reply {
    Reply { ret: -1, os_error, read_fd: 0, write_fd: 0 }
}

fn piped(read_fd: i32, write_fd: i32) -> Reply {
    Reply { ret: 0, os_error: 0, read_fd, write_fd }
}

#[test]
fn launch_begins_with_a_pipe() {
    assert_eq!(Phase::start(), (Phase::Piping, Action::Pipe));
}

#[test]
fn pipe_failure_ends_the_launch_before_any_process() {
    let (phase, action) = Phase::start();
    assert_eq!(action, Action::Pipe);
    let (phase, action) = phase.step(failed(libc::EMFILE));
    assert_eq!(phase, Phase::Failed { os_error: libc::EMFILE });
    assert_eq!(action, Action::Failed { os_error: libc::EMFILE });
    assert_eq!(action.outcome().map(|r| r.map(|c| c.pid())), Some(Err(Error::Io(libc::EMFILE))));
}

#[test]
fn pipe_success_asks_for_vfork() {
    let (phase, _) = Phase::start();
    let (phase, action) = phase.step(piped(3, 4));
    assert_eq!(phase, Phase::Forking { read_fd: 3, write_fd: 4 });
    assert_eq!(action, Action::Vfork);
}

#[test]
fn vfork_failure_closes_both_ends_and_keeps_its_error() {
    let phase = Phase::Forking { read_fd: 3, write_fd: 4 };
    let (phase, action) = phase.step(failed(libc::EAGAIN));
    assert_eq!(action, Action::Close { fd: 3 });
    let (phase, action) = phase.step(failed(libc::EBADF));
    assert_eq!(action, Action::Close { fd: 4 });
    let (phase, action) = phase.step(failed(libc::EIO));
    assert_eq!(action, Action::Failed { os_error: libc::EAGAIN });
    assert_eq!(phase, Phase::Failed { os_error: libc::EAGAIN });
    assert!(matches!(action.outcome(), Some(Err(Error::Io(libc::EAGAIN)))));
}

#[test]
fn parent_closes_write_end_and_gets_the_handle() {
    let phase = Phase::Forking { read_fd: 3, write_fd: 4 };
    let (phase, action) = phase.step(plain(1234));
    assert_eq!(phase, Phase::ParentClosing { pid: 1234, read_fd: 3 });
    assert_eq!(action, Action::Close { fd: 4 });
    let (phase, action) = phase.step(failed(libc::EBADF));
    assert_eq!(phase, Phase::Spawned { pid: 1234, output: 3 });
    assert_eq!(action, Action::Spawned { pid: 1234, output: 3 });
    let child = action.outcome().expect("the launch is over").expect("failed to execute process");
    assert_eq!(child.pid(), 1234);
    assert_eq!(child.output_fd(), 3);
}

#[test]
fn child_closes_read_end_then_redirects_then_replaces_its_image() {
    let phase = Phase::Forking { read_fd: 3, write_fd: 4 };
    let (phase, action) = phase.step(plain(0));
    assert_eq!(phase, Phase::ChildClosing { write_fd: 4 });
    assert_eq!(action, Action::Close { fd: 3 });
    let (phase, action) = phase.step(plain(0));
    assert_eq!(action, Action::Dup2 { src: 4, dst: libc::STDOUT_FILENO });
    assert_eq!(action, Action::Dup2 { src: 4, dst: STDOUT });
    let (phase, action) = phase.step(plain(libc::STDOUT_FILENO));
    assert_eq!(phase, Phase::ChildExecuting);
    assert_eq!(action, Action::Execv);
    let (phase, action) = phase.step(failed(libc::ENOENT));
    assert_eq!(action, Action::Exit { status: 1 });
    assert_eq!(phase, Phase::ChildExit { status: EXIT_FAILURE });
}

#[test]
fn child_exits_at_once_when_redirecting_fails() {
    let phase = Phase::ChildClosing { write_fd: 4 };
    let (phase, action) = phase.step(plain(0));
    assert_eq!(action, Action::Dup2 { src: 4, dst: 1 });
    let (phase, action) = phase.step(failed(libc::EBADF));
    assert_eq!(action, Action::Exit { status: 1 });
    assert_eq!(phase, Phase::ChildExit { status: 1 });
}

#[test]
fn child_side_never_asks_for_more_than_the_narrow_calls() {
    let starts = [
        Phase::ChildClosing { write_fd: 4 },
        Phase::ChildRedirecting,
        Phase::ChildExecuting,
        Phase::ChildExit { status: 1 },
    ];
    let replies = [plain(0), plain(1), plain(77), failed(libc::EINTR), piped(8, 9)];
    for start in starts {
        for first in replies {
            for second in replies {
                let mut phase = start;
                for reply in [first, second, first, second] {
                    let (next, action) = phase.step(reply);
                    assert!(matches!(
                        action,
                        Action::Close { .. } | Action::Dup2 { .. } | Action::Execv | Action::Exit { .. }
                    ));
                    assert!(action.outcome().is_none());
                    phase = next;
                }
                assert_eq!(phase, Phase::ChildExit { status: 1 });
            }
        }
    }
}

#[test]
fn a_finished_launch_repeats_its_outcome() {
    let done = Phase::Spawned { pid: 10, output: 3 };
    assert_eq!(done.step(failed(5)), (done, Action::Spawned { pid: 10, output: 3 }));
    assert_eq!(done.step(plain(0)), (done, Action::Spawned { pid: 10, output: 3 }));
    let lost = Phase::Failed { os_error: 24 };
    assert_eq!(lost.step(plain(99)), (lost, Action::Failed { os_error: 24 }));
    let gone = Phase::ChildExit { status: 1 };
    assert_eq!(gone.step(plain(0)), (gone, Action::Exit { status: 1 }));
}

#[test]
fn only_the_final_actions_name_an_outcome() {
    assert!(Action::Pipe.outcome().is_none());
    assert!(Action::Vfork.outcome().is_none());
    assert!(Action::Close { fd: 3 }.outcome().is_none());
    assert!(Action::Dup2 { src: 4, dst: 1 }.outcome().is_none());
    assert!(Action::Execv.outcome().is_none());
    assert!(Action::Exit { status: 1 }.outcome().is_none());
    assert!(matches!(Action::Failed { os_error: 12 }.outcome(), Some(Err(Error::Io(12)))));
    assert!(matches!(Action::Spawned { pid: 2, output: 3 }.outcome(), Some(Ok(_))));
}

#[test]
fn negative_identifier_other_than_minus_one_goes_the_parents_way() {
    let phase = Phase::Forking { read_fd: 3, write_fd: 4 };
    let (phase, action) = phase.step(plain(-2));
    assert_eq!(phase, Phase::ParentClosing { pid: -2, read_fd: 3 });
    assert_eq!(action, Action::Close { fd: 4 });
}

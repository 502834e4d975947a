use vfork::child::{Child, ExitCode, ExitKind, WaitCall, WaitReply};
use vfork::status::UNSET;
use vfork::Error;

fn answered(status: i32) -> WaitReply {
    WaitReply { ret: 4242, status, os_error: 0 }
}

#[test]
fn normal_exit_decodes_to_its_code() {
    assert_eq!(
        ExitCode::from_status(0),
        Some(ExitCode { kind: ExitKind::Exited, code: 0 })
    );
    assert_eq!(
        ExitCode::from_status(0x0700),
        Some(ExitCode { kind: ExitKind::Exited, code: 7 })
    );
    assert_eq!(
        ExitCode::from_status(0xff00),
        Some(ExitCode { kind: ExitKind::Exited, code: 255 })
    );
}

#[test]
fn terminating_signal_decodes_to_its_number() {
    assert_eq!(
        ExitCode::from_status(9),
        Some(ExitCode { kind: ExitKind::Signaled, code: 9 })
    );
    assert_eq!(
        ExitCode::from_status(0x8b),
        Some(ExitCode { kind: ExitKind::Signaled, code: 11 })
    );
    assert_eq!(
        ExitCode::from_status(0x7e),
        Some(ExitCode { kind: ExitKind::Signaled, code: 126 })
    );
}

#[test]
fn stop_decodes_to_the_stop_signal() {
    assert_eq!(
        ExitCode::from_status(0x137f),
        Some(ExitCode { kind: ExitKind::Stopped, code: 19 })
    );
    assert_eq!(
        ExitCode::from_status(0x007f),
        Some(ExitCode { kind: ExitKind::Stopped, code: 0 })
    );
}

#[test]
fn words_without_a_reading_decode_to_nothing() {
    assert_eq!(ExitCode::from_status(UNSET), None);
    assert_eq!(ExitCode::from_status(-1), None);
    assert_eq!(ExitCode::from_status(0xffff), None);
    assert_eq!(ExitCode::from_status(0x00ff), None);
}

#[test]
fn decoding_agrees_with_the_platform_on_every_low_word() {
    let mut word: i32 = -2048;
    while word < 0x20000 {
        let expected = if libc::WIFEXITED(word) {
            Some(ExitCode { kind: ExitKind::Exited, code: libc::WEXITSTATUS(word) })
        } else if libc::WIFSIGNALED(word) {
            Some(ExitCode { kind: ExitKind::Signaled, code: libc::WTERMSIG(word) })
        } else if libc::WIFSTOPPED(word) {
            Some(ExitCode { kind: ExitKind::Stopped, code: libc::WSTOPSIG(word) })
        } else {
            None
        };
        assert_eq!(ExitCode::from_status(word), expected);
        word += 1;
    }
}

#[test]
fn decoded_numbers_are_in_range() {
    let mut word: i32 = -70000;
    while word < 70000 {
        match ExitCode::from_status(word) {
            Some(ExitCode { kind: ExitKind::Exited, code }) => {
                assert!((0..=255).contains(&code));
                assert_eq!(word & 0x7f, 0);
            }
            Some(ExitCode { kind: ExitKind::Signaled, code }) => {
                assert!((1..=126).contains(&code));
            }
            Some(ExitCode { kind: ExitKind::Stopped, code }) => {
                assert!((0..=255).contains(&code));
                assert_eq!(word & 0xff, 0x7f);
            }
            None => {}
        }
        word += 7;
    }
}

#[test]
fn exit_code_getters() {
    let code = ExitCode { kind: ExitKind::Signaled, code: 15 };
    assert_eq!(code.code(), 15);
    assert_eq!(code.kind(), ExitKind::Signaled);
}

#[test]
fn poll_call_does_not_block() {
    let child = Child::new(4242, 5);
    assert_eq!(
        child.poll_call(),
        WaitCall { pid: 4242, status: -1, options: libc::WNOHANG }
    );
    assert_eq!(child.poll_call().options, 1);
}

#[test]
fn wait_call_blocks() {
    let child = Child::new(4242, 5);
    assert_eq!(child.wait_call(), WaitCall { pid: 4242, status: -1, options: 0 });
}

#[test]
fn handle_keeps_pid_and_descriptor() {
    let child = Child::new(31337, 9);
    assert_eq!(child.pid(), 31337);
    assert_eq!(child.output_fd(), 9);
}

#[test]
fn poll_before_termination_reports_still_running() {
    let child = Child::new(4242, 5);
    let call = child.poll_call();
    let reply = WaitReply { ret: 0, status: call.status, os_error: 0 };
    assert_eq!(child.try_wait(reply), Ok(None));
    assert_eq!(child.try_wait(reply), Ok(None));
}

#[test]
fn poll_after_exit_reports_the_code() {
    let child = Child::new(4242, 5);
    assert_eq!(
        child.try_wait(answered(0x0300)),
        Ok(Some(ExitCode { kind: ExitKind::Exited, code: 3 }))
    );
}

#[test]
fn poll_reports_signal_and_stop() {
    let child = Child::new(4242, 5);
    assert_eq!(
        child.try_wait(answered(15)),
        Ok(Some(ExitCode { kind: ExitKind::Signaled, code: 15 }))
    );
    assert_eq!(
        child.try_wait(answered(0x137f)),
        Ok(Some(ExitCode { kind: ExitKind::Stopped, code: 19 }))
    );
}

#[test]
fn failed_poll_is_an_io_error() {
    let child = Child::new(4242, 5);
    let reply = WaitReply { ret: -1, status: -1, os_error: libc::ECHILD };
    assert_eq!(child.try_wait(reply), Err(Error::Io(libc::ECHILD)));
    let reply = WaitReply { ret: -1, status: 0, os_error: libc::EINVAL };
    assert_eq!(child.try_wait(reply), Err(Error::Io(libc::EINVAL)));
}

#[test]
fn failed_wait_is_an_io_error() {
    let child = Child::new(4242, 5);
    let reply = WaitReply { ret: -1, status: 0x0700, os_error: libc::ECHILD };
    assert_eq!(child.wait(reply), Err(Error::Io(libc::ECHILD)));
}

#[test]
fn wait_reports_exit_code_seven() {
    let child = Child::new(4242, 5);
    let status = child.wait(answered(7 << 8)).expect("failed to wait process");
    assert_eq!(status.kind(), ExitKind::Exited);
    assert_eq!(status.code(), 7);
}

#[test]
fn wait_reports_terminating_signal() {
    let child = Child::new(4242, 5);
    assert_eq!(
        child.wait(answered(9)),
        Ok(ExitCode { kind: ExitKind::Signaled, code: 9 })
    );
}

#[test]
fn wait_treats_a_stop_as_an_io_error() {
    let child = Child::new(4242, 5);
    let reply = WaitReply { ret: 4242, status: 0x137f, os_error: 11 };
    assert_eq!(child.wait(reply), Err(Error::Io(11)));
}

#[test]
fn wait_treats_an_unreadable_word_as_an_io_error() {
    let child = Child::new(4242, 5);
    let reply = WaitReply { ret: 4242, status: 0xffff, os_error: 0 };
    assert_eq!(child.wait(reply), Err(Error::Io(0)));
}

#[test]
fn wait_after_polls_agrees_with_a_late_poll() {
    let child = Child::new(4242, 5);
    let running = WaitReply { ret: 0, status: UNSET, os_error: 0 };
    assert_eq!(child.try_wait(running), Ok(None));
    assert_eq!(child.try_wait(running), Ok(None));
    let mut code: i32 = 0;
    while code < 256 {
        let ended = answered(code << 8);
        let polled = child.try_wait(ended).unwrap();
        let waited = child.wait(ended).unwrap();
        assert_eq!(polled, Some(waited));
        assert_eq!(waited, ExitCode { kind: ExitKind::Exited, code });
        code += 1;
    }
    let mut signal: i32 = 1;
    while signal < 127 {
        let ended = answered(signal);
        assert_eq!(child.try_wait(ended).unwrap(), Some(child.wait(ended).unwrap()));
        signal += 1;
    }
}

#[test]
fn output_returns_exactly_the_bytes_read() {
    let mut child = Child::new(4242, 5);
    assert_eq!(
        child.output(Ok(b"Hello, world!\n".to_vec())),
        Ok(b"Hello, world!\n".to_vec())
    );
    assert_eq!(child.output(Ok(Vec::new())), Ok(Vec::new()));
    let raw: Vec<u8> = vec![0, 255, 10, 13, 0, 128];
    assert_eq!(child.output(Ok(raw.clone())), Ok(raw));
    assert_eq!(child.pid(), 4242);
    assert_eq!(child.output_fd(), 5);
}

#[test]
fn failed_read_is_an_io_error() {
    let mut child = Child::new(4242, 5);
    assert_eq!(child.output(Err(libc::EBADF)), Err(Error::Io(libc::EBADF)));
    assert_eq!(child.output(Err(libc::EIO)), Err(Error::Io(libc::EIO)));
}

#[test]
fn error_gives_back_the_error_number() {
    assert_eq!(Error::Io(libc::ENOENT).raw_os_error(), libc::ENOENT);
    assert_ne!(Error::Io(1), Error::Io(2));
}

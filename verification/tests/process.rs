use kitt::error::Error;
use kitt::process::{
    pipe_reading, read_from_pipe, ControlSignal, DebugProcess, IsAttached, Process, ProcessState,
    StopCause, StopReason, Syscall, WaitStatus,
};
use std::io::Write;

fn launched(child: i32, debug_process: DebugProcess) -> Process {
    let mut process = Process::spawned(child, debug_process);
    assert_eq!(process.launch(""), Ok(debug_process == DebugProcess::YES));
    process
}

const ESRCH: i32 = nix::libc::ESRCH;
const SIGTRAP: i32 = nix::libc::SIGTRAP;
const SIGSTOP: i32 = nix::libc::SIGSTOP;
const SIGKILL: i32 = nix::libc::SIGKILL;

#[test]
fn process_exists_when_launched() {
    // The child of a launch of `yes` that started: its channel closed empty.
    let mut process = Process::spawned(4242, DebugProcess::YES);
    let started = process.launch("");
    assert!(started.is_ok());

    assert_eq!(process.pid(), 4242);
    assert_eq!(process.state(), ProcessState::Stopped);
    assert!(process.is_traced());
    assert!(process.owns_lifetime());
}

#[test]
fn failure_when_launching_imaginary_program() {
    // What the child of a launch of `this-program-198533233-never-was` writes.
    let mut process = Process::spawned(4242, DebugProcess::YES);
    let started = process.launch("ENOENT: No such file or directory");
    assert!(started.is_err_and(|err| err.to_string().contains("child failed to launch")));
    assert_eq!(process.state(), ProcessState::FailedToLaunch);
    assert!(process.cleanup().is_empty());
}

#[test]
fn launch_failure_carries_the_reason() {
    let mut process = Process::spawned(7, DebugProcess::NO);
    let error = process.launch("EACCES: Permission denied").err().unwrap();
    assert_eq!(error, Error::LaunchFailure(String::from("EACCES: Permission denied")));
    assert_eq!(error.to_string(), "child failed to launch: EACCES: Permission denied");
}

#[test]
fn safe_to_drop_exited_process() {
    let mut process = launched(4242, DebugProcess::YES);
    process.wait_on_signal(Ok(WaitStatus::Stopped(4242, SIGTRAP))).unwrap();

    process.resume(Ok(())).unwrap();
    let wait_res = process.wait_on_signal(Ok(WaitStatus::Exited(4242, 0))).unwrap();

    assert!(matches!(wait_res.process_state(), ProcessState::Exited));
    assert_eq!(process.state(), ProcessState::Exited);

    assert!(process.cleanup().is_empty());
}

#[test]
fn attach_success() {
    let attached = Process::attach(4242);
    assert!(attached.is_ok());

    let mut attached = attached.unwrap();
    assert!(attached.is_traced());
    assert!(!attached.owns_lifetime());
    let reason = attached.wait_on_signal(Ok(WaitStatus::Stopped(4242, SIGSTOP))).unwrap();
    assert_eq!(reason.process_state(), ProcessState::Stopped);
    assert_eq!(attached.state(), ProcessState::Stopped);
}

#[test]
fn attach_to_invalid_pid() {
    let attached = Process::attach(0);
    assert!(matches!(attached, Err(Error::InvalidTarget)));
    assert!(matches!(Process::attach(-1), Err(Error::InvalidTarget)));
    assert!(matches!(Process::attach(i32::MIN), Err(Error::InvalidTarget)));
    assert!(Process::attach(1).is_ok());
}

#[test]
fn resumed_process_is_in_appropriate_state() {
    for debugging in [DebugProcess::YES, DebugProcess::NO] {
        let p = launched(4242, debugging);
        let mut p = if debugging == DebugProcess::YES {
            p
        } else {
            let p = Process::attach(p.pid());
            assert!(p.is_ok());
            p.unwrap()
        };

        p.resume(Ok(())).unwrap();
        assert_eq!(p.state(), ProcessState::Running);
    }
}

#[test]
fn finished_program_cannot_resume() {
    let mut p = launched(4242, DebugProcess::YES);
    assert!(p.resume(Ok(())).is_ok());
    assert!(p.wait_on_signal(Ok(WaitStatus::Exited(4242, 0))).is_ok());
    let again = p.resume(Err(ESRCH));
    assert_eq!(again, Err(Error::TracingSyscallFailure(ESRCH)));
    assert!(again.is_err_and(|err| err.to_string().contains("ESRCH")));
    assert_eq!(p.state(), ProcessState::Exited);
}

#[test]
fn syscall_failure_reads_as_the_system_says() {
    let error = Error::TracingSyscallFailure(ESRCH);
    assert_eq!(error.to_string(), "ESRCH: No such process");
    assert_eq!(error.render("anything"), "anything");
}

#[test]
fn every_error_has_its_message() {
    assert_eq!(Error::InvalidTarget.to_string(), "invalid process id");
    assert_eq!(Error::UnknownRegister.to_string(), "unknown register");
    assert_eq!(Error::SizeMismatch.to_string(), "value size does not match the register");
    assert_eq!(Error::DecodeFailure(16).to_string(), "unexpected size of register: 16");
    let failure = Error::LaunchFailure(String::from("why"));
    assert_eq!(failure.to_string(), "child failed to launch: why");
}

#[test]
fn failed_wait_changes_nothing() {
    let mut p = Process::attach(10).unwrap();
    p.resume(Ok(())).unwrap();
    let failed = p.wait_on_signal(Err(nix::libc::ECHILD));
    assert!(matches!(failed, Err(Error::TracingSyscallFailure(e)) if e == nix::libc::ECHILD));
    assert_eq!(p.state(), ProcessState::Running);
}

#[test]
fn ended_process_stays_ended() {
    let mut exited = launched(4242, DebugProcess::YES);
    exited.wait_on_signal(Ok(WaitStatus::Exited(4242, 0))).unwrap();
    assert!(exited.resume(Ok(())).is_ok());
    assert_eq!(exited.state(), ProcessState::Exited);
    let reason = exited.wait_on_signal(Ok(WaitStatus::Stopped(4242, SIGTRAP))).unwrap();
    assert_eq!(reason.process_state(), ProcessState::Stopped);
    assert_eq!(exited.state(), ProcessState::Exited);
    assert!(exited.launch("too late").is_err());
    assert_eq!(exited.state(), ProcessState::Exited);

    let mut failed = Process::spawned(7, DebugProcess::YES);
    assert!(failed.launch("ENOEXEC: Exec format error").is_err());
    assert!(failed.resume(Ok(())).is_ok());
    assert_eq!(failed.state(), ProcessState::FailedToLaunch);
}

#[test]
fn stopped_process_runs_and_stops_again() {
    let mut process = launched(4242, DebugProcess::YES);
    process.wait_on_signal(Ok(WaitStatus::Stopped(4242, SIGTRAP))).unwrap();
    assert_eq!(process.state(), ProcessState::Stopped);
    process.resume(Ok(())).unwrap();
    assert_eq!(process.state(), ProcessState::Running);
    let reason = process.wait_on_signal(Ok(WaitStatus::Stopped(4242, SIGTRAP))).unwrap();
    assert_eq!(reason.process_state(), ProcessState::Stopped);
    assert_eq!(process.state(), ProcessState::Stopped);
    process.resume(Ok(())).unwrap();
    let reason = process.wait_on_signal(Ok(WaitStatus::Exited(4242, 2))).unwrap();
    assert_eq!(reason.process_state(), ProcessState::Exited);
    assert_eq!(reason.stop_cause(), StopCause::Code(2));
    assert_eq!(process.state(), ProcessState::Exited);
    assert_eq!(process.pid(), 4242);
}

#[test]
fn stop_reason_reads_each_status() {
    let stopped = StopReason::new(WaitStatus::Stopped(1, SIGTRAP));
    assert_eq!(stopped.process_state(), ProcessState::Stopped);
    assert_eq!(stopped.stop_cause(), StopCause::Signal(SIGTRAP));

    let exited = StopReason::new(WaitStatus::Exited(1, 3));
    assert_eq!(exited.process_state(), ProcessState::Exited);
    assert_eq!(exited.stop_cause(), StopCause::Code(3));

    let killed = StopReason::new(WaitStatus::Signaled(1, SIGKILL, false));
    assert_eq!(killed.process_state(), ProcessState::Terminated);
    assert_eq!(killed.stop_cause(), StopCause::Signal(SIGKILL));
}

#[test]
fn only_three_statuses_report_a_change() {
    assert!(WaitStatus::Exited(1, 0).is_change());
    assert!(WaitStatus::Signaled(1, 9, true).is_change());
    assert!(WaitStatus::Stopped(1, 19).is_change());
    assert!(!WaitStatus::PtraceEvent(1, 5, 1).is_change());
    assert!(!WaitStatus::PtraceSyscall(1).is_change());
    assert!(!WaitStatus::Continued(1).is_change());
    assert!(!WaitStatus::StillAlive.is_change());
}

#[test]
fn stop_reason_renders_as_text() {
    let stopped = StopReason::new(WaitStatus::Stopped(1, SIGTRAP));
    assert_eq!(stopped.to_string(), "stopped with cause signal SIGTRAP");
    let killed = StopReason::new(WaitStatus::Signaled(1, SIGKILL, false));
    assert_eq!(killed.to_string(), "terminated with signal SIGKILL");
    let exited = StopReason::new(WaitStatus::Exited(1, 0));
    assert_eq!(exited.to_string(), "terminated with exit code 0");
    let failed = StopReason::new(WaitStatus::Exited(1, -7));
    assert_eq!(failed.to_string(), "terminated with exit code -7");
}

#[test]
fn stop_reason_renders_with_a_given_name() {
    let stopped = StopReason::new(WaitStatus::Stopped(1, SIGTRAP));
    assert_eq!(stopped.render(Some(String::from("TRAP"))), "stopped with cause signal TRAP");
    assert_eq!(stopped.render(None), "stopped with cause signal 5");
    let exited = StopReason::new(WaitStatus::Exited(1, 12));
    assert_eq!(exited.render(Some(String::from("unused"))), "terminated with exit code 12");
}

#[test]
fn signal_without_a_name_is_written_as_its_number() {
    assert_eq!(StopCause::Signal(0).to_string(), "signal 0");
    assert_eq!(StopCause::Signal(-3).to_string(), "signal -3");
    assert_eq!(StopCause::Signal(SIGSTOP).to_string(), "signal SIGSTOP");
    assert_eq!(StopCause::Code(255).to_string(), "exit code 255");
}

#[test]
fn is_attached_follows_debug_process() {
    assert_eq!(IsAttached::from(DebugProcess::YES), IsAttached::YES);
    assert_eq!(IsAttached::from(DebugProcess::NO), IsAttached::NO);
}

#[test]
fn launch_says_whether_the_first_stop_is_awaited() {
    assert_eq!(Process::spawned(9, DebugProcess::YES).launch(""), Ok(true));
    assert_eq!(Process::spawned(9, DebugProcess::NO).launch(""), Ok(false));
}

#[test]
fn spawned_child_is_cleaned_up_before_the_launch_is_concluded() {
    let process = Process::spawned(9, DebugProcess::NO);
    assert_eq!(
        process.cleanup(),
        vec![Syscall::Signal(9, ControlSignal::Kill), Syscall::Wait(9)]
    );
}

#[test]
fn untraced_launch_is_not_traced() {
    let process = launched(9, DebugProcess::NO);
    assert!(!process.is_traced());
    assert!(process.owns_lifetime());
    assert_eq!(process.state(), ProcessState::Stopped);
}

#[test]
fn cleanup_of_a_stopped_traced_child() {
    let process = launched(9, DebugProcess::YES);
    assert_eq!(
        process.cleanup(),
        vec![
            Syscall::Detach(9),
            Syscall::Signal(9, ControlSignal::Continue),
            Syscall::Signal(9, ControlSignal::Kill),
            Syscall::Wait(9),
        ]
    );
}

#[test]
fn cleanup_halts_a_running_process_first() {
    let mut process = launched(9, DebugProcess::YES);
    process.resume(Ok(())).unwrap();
    assert_eq!(
        process.cleanup(),
        vec![
            Syscall::Signal(9, ControlSignal::Stop),
            Syscall::Wait(9),
            Syscall::Detach(9),
            Syscall::Signal(9, ControlSignal::Continue),
            Syscall::Signal(9, ControlSignal::Kill),
            Syscall::Wait(9),
        ]
    );
}

#[test]
fn cleanup_of_an_attached_process_leaves_it_alive() {
    let process = Process::attach(9).unwrap();
    assert_eq!(
        process.cleanup(),
        vec![Syscall::Detach(9), Syscall::Signal(9, ControlSignal::Continue)]
    );
}

#[test]
fn cleanup_of_an_untraced_child_kills_it() {
    let process = launched(9, DebugProcess::NO);
    assert_eq!(
        process.cleanup(),
        vec![Syscall::Signal(9, ControlSignal::Kill), Syscall::Wait(9)]
    );
}

#[test]
fn cleanup_does_nothing_once_the_process_is_gone() {
    let mut exited = Process::attach(9).unwrap();
    exited.wait_on_signal(Ok(WaitStatus::Exited(9, 1))).unwrap();
    assert!(exited.cleanup().is_empty());

    let mut killed = launched(9, DebugProcess::YES);
    killed.wait_on_signal(Ok(WaitStatus::Signaled(9, SIGKILL, false))).unwrap();
    assert_eq!(killed.state(), ProcessState::Terminated);
    assert!(killed.cleanup().is_empty());
}

#[test]
fn cleanup_does_nothing_without_a_process() {
    let process = launched(0, DebugProcess::YES);
    assert!(process.cleanup().is_empty());
}

#[test]
fn successful_read_gives_the_text() {
    assert_eq!(pipe_reading(String::from("ENOENT"), Ok(6)), Ok(String::from("ENOENT")));
    assert_eq!(pipe_reading(String::new(), Ok(0)), Ok(String::new()));
}

#[test]
fn failed_read_hands_the_error_number_on() {
    let failed = pipe_reading(String::from("partial"), Err(Some(nix::libc::EIO)));
    assert_eq!(failed, Err(Error::TracingSyscallFailure(nix::libc::EIO)));
    assert_eq!(pipe_reading(String::new(), Err(None)), Err(Error::TracingSyscallFailure(0)));
}

#[test]
fn pipe_is_read_to_its_end() {
    let (reader, mut writer) = std::io::pipe().unwrap();
    writer.write_all(b"ENOENT: No such file or directory").unwrap();
    drop(writer);
    assert_eq!(read_from_pipe(reader), Ok(String::from("ENOENT: No such file or directory")));
}

#[test]
fn closed_pipe_reads_empty() {
    let (reader, writer) = std::io::pipe().unwrap();
    drop(writer);
    assert_eq!(read_from_pipe(reader), Ok(String::new()));
}

#[test]
fn pipe_with_bytes_that_are_no_text_fails() {
    let (reader, mut writer) = std::io::pipe().unwrap();
    writer.write_all(&[0xff, 0xfe]).unwrap();
    drop(writer);
    assert_eq!(read_from_pipe(reader), Err(Error::TracingSyscallFailure(0)));
}

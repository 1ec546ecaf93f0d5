//! The controller of one traced process: how it comes to be, how it moves
//! between running and stopped, and what has to be done when it is let go.
//!
//! The controller issues no request itself. The host performs the tracing
//! request that an operation stands for and hands the outcome in: `Ok` with
//! what the operating system reported, or `Err` with its error number.

use crate::error::Error;
use crate::text::{signal_name, signal_name_of, signed_decimal, signed_decimal_text};
use vstd::prelude::*;
use vstd::string::StringExecFns;

verus! {

/// Where a traced process stands.
#[derive(Copy, Clone, Eq, PartialEq, Debug, Structural)]
pub enum ProcessState {
    /// Halted under the tracer: the state after every successful creation.
    Stopped,
    /// Let run, until the next wait says otherwise.
    Running,
    /// Ended by itself.
    Exited,
    /// Ended by a signal.
    Terminated,
    /// Never started: the program could not be executed.
    FailedToLaunch,
}

/// Whether a launched program is to be traced.
#[derive(Copy, Clone, Eq, PartialEq, Debug, Structural)]
pub enum DebugProcess {
    YES,
    NO,
}

/// Whether the process is to be killed when its controller is let go.
#[derive(Copy, Clone, Eq, PartialEq, Debug, Structural)]
pub enum TerminateOnEnd {
    YES,
    NO,
}

/// Whether the process is under trace control.
#[derive(Copy, Clone, Eq, PartialEq, Debug, Structural)]
pub enum IsAttached {
    YES,
    NO,
}

impl From<DebugProcess> for IsAttached {
    fn from(value: DebugProcess) -> (attached: Self) {
        match value {
            DebugProcess::YES => IsAttached::YES,
            DebugProcess::NO => IsAttached::NO,
        }
    }
}

impl vstd::std_specs::convert::FromSpecImpl<DebugProcess> for IsAttached {
    open spec fn obeys_from_spec() -> bool {
        true
    }

    open spec fn from_spec(value: DebugProcess) -> Self {
        match value {
            DebugProcess::YES => IsAttached::YES,
            DebugProcess::NO => IsAttached::NO,
        }
    }
}

/// Why a wait returned: the number of a signal, or an exit code.
#[derive(Copy, Clone, Eq, PartialEq, Debug, Structural)]
pub enum StopCause {
    Signal(i32),
    Code(i32),
}

/// What the operating system reports when a wait for a process returns. The
/// fields are, in this order: the process identifier; then the exit code, or
/// the number of the signal; then whether a core was dumped, or the number of
/// the trace event.
#[derive(Copy, Clone, Eq, PartialEq, Debug, Structural)]
pub enum WaitStatus {
    /// The process ended by itself.
    Exited(i32, i32),
    /// A signal ended the process.
    Signaled(i32, i32, bool),
    /// A signal halted the process.
    Stopped(i32, i32),
    /// A trace event halted the process.
    PtraceEvent(i32, i32, i32),
    /// The process halted at a system call.
    PtraceSyscall(i32),
    /// The process went on after a halt.
    Continued(i32),
    /// Nothing has changed.
    StillAlive,
}

impl WaitStatus {
    /// Whether the status says that the process was halted by a signal, ended
    /// by itself, or was ended by a signal; only such a status comes out of
    /// a plain blocking wait.
    pub open spec fn reports_change(self) -> bool {
        self is Exited || self is Signaled || self is Stopped
    }

    /// Whether the status says that the process was halted by a signal, ended
    /// by itself, or was ended by a signal.
    pub fn is_change(&self) -> (change: bool)
        ensures
            change == self.reports_change(),
    {
        match self {
            WaitStatus::Exited(_, _) | WaitStatus::Signaled(_, _, _) | WaitStatus::Stopped(
                _,
                _,
            ) => true,
            _ => false,
        }
    }

    /// The state that the status puts the process in, for a status that
    /// reports a change.
    pub open spec fn state(self) -> ProcessState {
        match self {
            WaitStatus::Exited(_, _) => ProcessState::Exited,
            WaitStatus::Signaled(_, _, _) => ProcessState::Terminated,
            _ => ProcessState::Stopped,
        }
    }

    /// The cause that the status gives, for a status that reports a change.
    pub open spec fn cause(self) -> StopCause {
        match self {
            WaitStatus::Exited(_, code) => StopCause::Code(code),
            WaitStatus::Signaled(_, signal, _) => StopCause::Signal(signal),
            WaitStatus::Stopped(_, signal) => StopCause::Signal(signal),
            _ => StopCause::Signal(0),
        }
    }
}

/// The text of a cause, where `name` is the name of the signal, if it has
/// one. A signal without a name is written as its number.
pub open spec fn cause_text(cause: StopCause, name: Option<Seq<char>>) -> Seq<char> {
    match cause {
        StopCause::Signal(signal) => "signal "@ + (match name {
            Some(text) => text,
            None => signed_decimal(signal as int),
        }),
        StopCause::Code(code) => "exit code "@ + signed_decimal(code as int),
    }
}

/// The text of a stop reason, where `name` is the name of the signal, if it
/// has one.
pub open spec fn reason_text(
    state: ProcessState,
    cause: StopCause,
    name: Option<Seq<char>>,
) -> Seq<char> {
    if state == ProcessState::Stopped {
        "stopped with cause "@ + cause_text(cause, name)
    } else {
        "terminated with "@ + cause_text(cause, name)
    }
}

/// The name of the signal of a cause, as far as it has one.
pub open spec fn cause_signal_name(cause: StopCause) -> Option<Seq<char>> {
    match cause {
        StopCause::Signal(signal) => signal_name(signal as int),
        StopCause::Code(_) => None,
    }
}

/// The views of an optional text.
pub open spec fn text_view(text: Option<String>) -> Option<Seq<char>> {
    match text {
        Some(t) => Some(t@),
        None => None,
    }
}

impl StopCause {
    /// Writes the cause, given the name of the signal, if it has one.
    pub fn render(&self, name: Option<String>) -> (text: String)
        ensures
            text@ == cause_text(*self, text_view(name)),
    {
        match self {
            StopCause::Signal(signal) => {
                let mut text = String::from_str("signal ");
                match name {
                    Some(known) => text.append(known.as_str()),
                    None => {
                        let number = signed_decimal_text(*signal);
                        text.append(number.as_str());
                    },
                }
                text
            },
            StopCause::Code(code) => {
                let mut text = String::from_str("exit code ");
                let number = signed_decimal_text(*code);
                text.append(number.as_str());
                text
            },
        }
    }

    /// The name of the signal of the cause, as far as it has one.
    pub fn known_signal_name(&self) -> (name: Option<String>)
        ensures
            text_view(name) == cause_signal_name(*self),
    {
        match self {
            StopCause::Signal(signal) => signal_name_of(*signal),
            StopCause::Code(_) => None,
        }
    }

    /// Writes the cause: `signal` and the signal's name, or `exit code` and
    /// the code.
    pub fn to_string(&self) -> (text: String)
        ensures
            text@ == cause_text(*self, cause_signal_name(*self)),
    {
        self.render(self.known_signal_name())
    }
}

/// What a wait found: the state that the process is in now, and why.
#[derive(Copy, Clone, Eq, PartialEq, Debug)]
pub struct StopReason {
    process_state: ProcessState,
    stop_cause: StopCause,
}

impl StopReason {
    /// A process that was halted or killed gives a signal as its cause, one
    /// that ended by itself its exit code; no other state is a reason.
    #[verifier::type_invariant]
    spec fn consistent(self) -> bool {
        match self.process_state {
            ProcessState::Stopped | ProcessState::Terminated => self.stop_cause is Signal,
            ProcessState::Exited => self.stop_cause is Code,
            _ => false,
        }
    }

    /// The state that the process is in after the wait.
    pub closed spec fn state(self) -> ProcessState {
        self.process_state
    }

    /// Why the wait returned.
    pub closed spec fn cause(self) -> StopCause {
        self.stop_cause
    }

    /// Reads what a wait reported.
    pub fn new(wait_status: WaitStatus) -> (reason: Self)
        requires
            wait_status.reports_change(),
        ensures
            reason.state() == wait_status.state(),
            reason.cause() == wait_status.cause(),
    {
        match wait_status {
            WaitStatus::Exited(_, code) => Self {
                process_state: ProcessState::Exited,
                stop_cause: StopCause::Code(code),
            },
            WaitStatus::Signaled(_, signal, _) => Self {
                process_state: ProcessState::Terminated,
                stop_cause: StopCause::Signal(signal),
            },
            WaitStatus::Stopped(_, signal) => Self {
                process_state: ProcessState::Stopped,
                stop_cause: StopCause::Signal(signal),
            },
            _ => unreached(),
        }
    }

    /// The state that the process is in after the wait.
    pub fn process_state(&self) -> (state: ProcessState)
        ensures
            state == self.state(),
            state == ProcessState::Stopped || state == ProcessState::Exited || state
                == ProcessState::Terminated,
    {
        proof {
            use_type_invariant(self);
        }
        self.process_state
    }

    /// Why the wait returned.
    pub fn stop_cause(&self) -> (cause: StopCause)
        ensures
            cause == self.cause(),
            self.state() == ProcessState::Exited <==> cause is Code,
    {
        proof {
            use_type_invariant(self);
        }
        self.stop_cause
    }

    /// Writes the reason, given the name of the signal, if it has one.
    pub fn render(&self, name: Option<String>) -> (text: String)
        ensures
            text@ == reason_text(self.state(), self.cause(), text_view(name)),
    {
        let cause = self.stop_cause.render(name);
        let mut text = if self.process_state == ProcessState::Stopped {
            String::from_str("stopped with cause ")
        } else {
            String::from_str("terminated with ")
        };
        text.append(cause.as_str());
        text
    }

    /// Writes the reason: `stopped with cause signal` and the signal's name,
    /// `terminated with signal` and the signal's name, or `terminated with
    /// exit code` and the code.
    pub fn to_string(&self) -> (text: String)
        ensures
            text@ == reason_text(self.state(), self.cause(), cause_signal_name(self.cause())),
    {
        self.render(self.stop_cause.known_signal_name())
    }
}

/// The signals that the controller has the host send when a process is let
/// go.
#[derive(Copy, Clone, Eq, PartialEq, Debug, Structural)]
pub enum ControlSignal {
    /// Halts the process (SIGSTOP).
    Stop,
    /// Lets a halted process run (SIGCONT).
    Continue,
    /// Ends the process (SIGKILL).
    Kill,
}

/// A request to the operating system that the host performs for the
/// controller. The first field is the process that the request is about.
#[derive(Copy, Clone, Eq, PartialEq, Debug, Structural)]
pub enum Syscall {
    /// Send a signal to the process.
    Signal(i32, ControlSignal),
    /// Block until the state of the process changes.
    Wait(i32),
    /// Give up trace control of the process.
    Detach(i32),
}

/// What the contracts say of a controller.
pub struct ProcessView {
    /// The identifier of the process.
    pub pid: i32,
    /// Where the process stands.
    pub state: ProcessState,
    /// Whether the controller spawned the process, and has to end it.
    pub owns_lifetime: bool,
    /// Whether the process is under trace control.
    pub is_traced: bool,
}

/// Whether `pid` can be the identifier of a process.
pub open spec fn valid_pid(pid: i32) -> bool {
    pid > 0
}

impl ProcessView {
    /// Whether nothing is left to manage: the process has ended, or never
    /// was.
    pub open spec fn is_over(self) -> bool {
        self.state == ProcessState::Exited || self.state == ProcessState::Terminated || self.state
            == ProcessState::FailedToLaunch
    }

    /// The controller in the state `state`, unless nothing is left to manage:
    /// a process that has ended, or never was, stays as it is.
    pub open spec fn moved_to(self, state: ProcessState) -> ProcessView {
        if self.is_over() {
            self
        } else {
            ProcessView { state, ..self }
        }
    }

    /// The controller after a continue request that succeeded.
    pub open spec fn resumed(self) -> ProcessView {
        self.moved_to(ProcessState::Running)
    }

    /// The controller after a wait that reported `status`.
    pub open spec fn waited(self, status: WaitStatus) -> ProcessView {
        self.moved_to(status.state())
    }

    /// The requests that let the process go, in the order in which they are
    /// to be performed.
    ///
    /// Nothing is done for a process that has ended or never was. A running
    /// process is halted first, since a tracer cannot detach from a running
    /// process. A traced process is detached and let run. A process that the
    /// controller spawned is killed and reaped.
    pub open spec fn cleanup(self) -> Seq<Syscall> {
        let pid = self.pid;
        if !valid_pid(self.pid) || self.is_over() {
            Seq::<Syscall>::empty()
        } else {
            (if self.state == ProcessState::Running {
                seq![Syscall::Signal(pid, ControlSignal::Stop), Syscall::Wait(pid)]
            } else {
                Seq::<Syscall>::empty()
            }) + (if self.is_traced {
                seq![Syscall::Detach(pid), Syscall::Signal(pid, ControlSignal::Continue)]
            } else {
                Seq::<Syscall>::empty()
            }) + (if self.owns_lifetime {
                seq![Syscall::Signal(pid, ControlSignal::Kill), Syscall::Wait(pid)]
            } else {
                Seq::<Syscall>::empty()
            })
        }
    }
}

/// The reading end of an anonymous pipe, as the standard library has it.
#[verifier::external_type_specification]
#[verifier::external_body]
pub struct ExPipeReader(std::io::PipeReader);

/// The standard library's input and output error.
#[verifier::external_type_specification]
#[verifier::external_body]
pub struct ExIoError(std::io::Error);

/// Calls `std::io::Read::read_to_string` on the pipe: reads until the pipe
/// is closed and appends what was read to `buffer`. What arrives depends on
/// the writer, so the contract says only that the buffer keeps what it held.
#[verifier::external_body]
fn read_pipe_to_end(reader: &mut std::io::PipeReader, buffer: &mut String) -> (result: Result<
    usize,
    std::io::Error,
>)
    ensures
        old(buffer)@.is_prefix_of(final(buffer)@),
{
    std::io::Read::read_to_string(reader, buffer)
}

/// Calls `std::io::Error::raw_os_error`: the operating system's error number
/// behind the error, if it has one. Nothing is claimed of it.
#[verifier::external_body]
fn os_error_number(error: &std::io::Error) -> (number: Option<i32>) {
    error.raw_os_error()
}

/// Reads everything that comes through the pipe `r` until its writers have
/// closed it.
///
/// What arrives is the writers' to decide, and whether the read succeeds the
/// operating system's: `pipe_reading` says what each outcome comes to.
pub fn read_from_pipe(r: std::io::PipeReader) -> (result: Result<String, Error>)
    ensures
        result matches Err(error) ==> error is TracingSyscallFailure,
{
    let mut reader = r;
    let mut buf = String::new();
    let outcome = match read_pipe_to_end(&mut reader, &mut buf) {
        Ok(count) => Ok(count),
        Err(error) => Err(os_error_number(&error)),
    };
    pipe_reading(buf, outcome)
}

/// The error number that a failed read is reported with: the operating
/// system's, and 0 where it gave none, as for bytes that are no text.
pub open spec fn reported_number(number: Option<i32>) -> i32 {
    match number {
        Some(errno) => errno,
        None => 0,
    }
}

/// What a read of a pipe comes to, where `text` is what the read left in its
/// buffer and `outcome` is how it ended: `Ok` with the number of bytes read,
/// or `Err` with the operating system's error number, if it gave one.
///
/// A read that succeeded gives the text. A read that failed fails with
/// `TracingSyscallFailure`, and the text is dropped.
pub fn pipe_reading(text: String, outcome: Result<usize, Option<i32>>) -> (result: Result<
    String,
    Error,
>)
    ensures
        outcome is Ok ==> result == Ok::<String, Error>(text),
        outcome matches Err(number) ==> result == Err::<String, Error>(
            Error::TracingSyscallFailure(reported_number(number)),
        ),
{
    match outcome {
        Ok(_) => Ok(text),
        Err(Some(errno)) => Err(Error::TracingSyscallFailure(errno)),
        Err(None) => Err(Error::TracingSyscallFailure(0)),
    }
}

/// The controller of one process.
pub struct Process {
    pid: i32,
    state: ProcessState,
    terminate_on_end: TerminateOnEnd,
    is_attached: IsAttached,
}

impl View for Process {
    type V = ProcessView;

    closed spec fn view(&self) -> ProcessView {
        ProcessView {
            pid: self.pid,
            state: self.state,
            owns_lifetime: self.terminate_on_end == TerminateOnEnd::YES,
            is_traced: self.is_attached == IsAttached::YES,
        }
    }
}

impl Process {
    fn new(pid: i32, terminate_on_end: TerminateOnEnd, is_attached: IsAttached) -> (process: Self)
        ensures
            process@ == (ProcessView {
                pid,
                state: ProcessState::Stopped,
                owns_lifetime: terminate_on_end == TerminateOnEnd::YES,
                is_traced: is_attached == IsAttached::YES,
            }),
    {
        Self { pid, state: ProcessState::Stopped, terminate_on_end, is_attached }
    }

    /// Puts the process in the state `state`, unless nothing is left to
    /// manage.
    fn move_to(&mut self, state: ProcessState)
        ensures
            final(self)@ == old(self)@.moved_to(state),
    {
        if self.state == ProcessState::Exited || self.state == ProcessState::Terminated
            || self.state == ProcessState::FailedToLaunch {
            return;
        }
        self.state = state;
    }

    /// The controller of the child `child`, which the host has just spawned
    /// to execute a program, traced or not as `debug_process` says. The
    /// controller owns the child: letting go of it ends the child.
    pub fn spawned(child: i32, debug_process: DebugProcess) -> (process: Self)
        ensures
            process@ == (ProcessView {
                pid: child,
                state: ProcessState::Stopped,
                owns_lifetime: true,
                is_traced: debug_process == DebugProcess::YES,
            }),
    {
        Process::new(child, TerminateOnEnd::YES, IsAttached::from(debug_process))
    }

    /// Concludes the launch of a spawned child. `message` is what the child
    /// wrote into the channel to its parent before the channel closed:
    /// nothing if the program started, else why it could not.
    ///
    /// A child that reported a failure never comes to be: the launch fails
    /// with `LaunchFailure`, which carries the message, and the controller
    /// is left in the state `FailedToLaunch`, in which nothing is done for
    /// the child any more. Where the program started, the result says
    /// whether the child is traced and so halts before its first
    /// instruction: the host then waits for it next and hands the outcome to
    /// `wait_on_signal`.
    pub fn launch(&mut self, message: &str) -> (result: Result<bool, Error>)
        ensures
            message@.len() == 0 ==> result == Ok::<bool, Error>(old(self)@.is_traced)
                && final(self)@ == old(self)@,
            message@.len() != 0 ==> (result matches Err(Error::LaunchFailure(reason)) && reason@
                == message@) && final(self)@ == old(self)@.moved_to(ProcessState::FailedToLaunch),
    {
        if !message.is_empty() {
            self.move_to(ProcessState::FailedToLaunch);
            return Err(Error::LaunchFailure(String::from_str(message)));
        }
        Ok(self.is_attached == IsAttached::YES)
    }

    /// The controller of the process `pid`, which runs already and which the
    /// host is about to attach to. Fails with `InvalidTarget`, before any
    /// request is made, where `pid` is not the identifier of a process.
    ///
    /// The host then makes the attach request, waits for the process and
    /// hands the outcome to `wait_on_signal`.
    pub fn attach(pid: i32) -> (result: Result<Self, Error>)
        ensures
            valid_pid(pid) ==> (result matches Ok(process) && process@ == (ProcessView {
                pid,
                state: ProcessState::Stopped,
                owns_lifetime: false,
                is_traced: true,
            })),
            !valid_pid(pid) ==> result matches Err(Error::InvalidTarget),
    {
        if pid <= 0 {
            return Err(Error::InvalidTarget);
        }
        Ok(Process::new(pid, TerminateOnEnd::NO, IsAttached::YES))
    }

    /// Takes the outcome of the continue request that the host made for the
    /// process. After a request that succeeded the process is running, unless
    /// it had ended. A request that failed changes nothing, and its error
    /// number is handed on.
    pub fn resume(&mut self, outcome: Result<(), i32>) -> (result: Result<(), Error>)
        ensures
            outcome is Ok ==> result is Ok && final(self)@ == old(self)@.resumed(),
            outcome matches Err(errno) ==> result == Err::<(), Error>(
                Error::TracingSyscallFailure(errno),
            ) && final(self)@ == old(self)@,
    {
        match outcome {
            Ok(()) => {
                self.move_to(ProcessState::Running);
                Ok(())
            },
            Err(errno) => Err(Error::TracingSyscallFailure(errno)),
        }
    }

    /// Takes the outcome of the blocking wait that the host made for the
    /// process. The process is then in the state that the wait reported,
    /// unless it had ended, and the reason says what the wait reported. A
    /// wait that failed changes nothing, and its error number is handed on.
    pub fn wait_on_signal(&mut self, outcome: Result<WaitStatus, i32>) -> (result: Result<
        StopReason,
        Error,
    >)
        requires
            outcome matches Ok(status) ==> status.reports_change(),
        ensures
            outcome matches Ok(status) ==> (result matches Ok(reason) && reason.state()
                == status.state() && reason.cause() == status.cause()) && final(self)@
                == old(self)@.waited(status),
            outcome matches Err(errno) ==> (result matches Err(Error::TracingSyscallFailure(e))
                && e == errno) && final(self)@ == old(self)@,
    {
        match outcome {
            Ok(wait_status) => {
                let stop_reason = StopReason::new(wait_status);
                self.move_to(stop_reason.process_state());
                Ok(stop_reason)
            },
            Err(errno) => Err(Error::TracingSyscallFailure(errno)),
        }
    }

    /// The requests that the host performs, in this order, when the
    /// controller is let go. Each of them has to succeed.
    pub fn cleanup(&self) -> (plan: Vec<Syscall>)
        ensures
            plan@ == self@.cleanup(),
    {
        let mut plan: Vec<Syscall> = Vec::new();
        if self.pid <= 0 {
            return plan;
        }
        if self.state == ProcessState::Exited || self.state == ProcessState::Terminated
            || self.state == ProcessState::FailedToLaunch {
            return plan;
        }
        if self.state == ProcessState::Running {
            plan.push(Syscall::Signal(self.pid, ControlSignal::Stop));
            plan.push(Syscall::Wait(self.pid));
        }
        if self.is_attached == IsAttached::YES {
            plan.push(Syscall::Detach(self.pid));
            plan.push(Syscall::Signal(self.pid, ControlSignal::Continue));
        }
        if self.terminate_on_end == TerminateOnEnd::YES {
            plan.push(Syscall::Signal(self.pid, ControlSignal::Kill));
            plan.push(Syscall::Wait(self.pid));
        }
        assert(plan@ =~= self@.cleanup());
        plan
    }

    /// The identifier of the process.
    pub fn pid(&self) -> (pid: i32)
        ensures
            pid == self@.pid,
    {
        self.pid
    }

    /// Where the process stands.
    pub fn state(&self) -> (state: ProcessState)
        ensures
            state == self@.state,
    {
        self.state
    }

    /// Whether the process is under trace control.
    pub fn is_traced(&self) -> (traced: bool)
        ensures
            traced == self@.is_traced,
    {
        self.is_attached == IsAttached::YES
    }

    /// Whether the controller spawned the process, and has to end it.
    pub fn owns_lifetime(&self) -> (owns: bool)
        ensures
            owns == self@.owns_lifetime,
    {
        self.terminate_on_end == TerminateOnEnd::YES
    }
}

/// A stopped process that is resumed is running; a wait that then reports an
/// exit leaves it exited, and a wait that reports a stop leaves it stopped
/// again, with a reason that says the same.
pub proof fn lemma_resume_then_wait(process: ProcessView, status: WaitStatus)
    requires
        process.state == ProcessState::Stopped,
    ensures
        process.resumed().state == ProcessState::Running,
        status is Exited ==> process.resumed().waited(status).state == ProcessState::Exited
            && status.cause() is Code,
        status is Stopped ==> process.resumed().waited(status).state == ProcessState::Stopped
            && status.cause() is Signal,
        status is Signaled ==> process.resumed().waited(status).state
            == ProcessState::Terminated && status.cause() is Signal,
        process.resumed().waited(status).pid == process.pid,
        process.resumed().waited(status).owns_lifetime == process.owns_lifetime,
        process.resumed().waited(status).is_traced == process.is_traced,
{
}

/// A process that has exited, was terminated or failed to launch stays in
/// that state, whatever the operating system reports of it afterwards.
pub proof fn lemma_ended_process_stays_ended(
    process: ProcessView,
    state: ProcessState,
    status: WaitStatus,
)
    requires
        process.is_over(),
    ensures
        process.moved_to(state) == process,
        process.resumed() == process,
        process.waited(status) == process,
{
}

/// Letting go of a process that has ended, or never was, asks nothing of the
/// operating system.
pub proof fn lemma_nothing_to_clean_when_over(process: ProcessView)
    requires
        process.is_over() || !valid_pid(process.pid),
    ensures
        process.cleanup() == Seq::<Syscall>::empty(),
{
}

/// What is done when a controller is let go never touches another process,
/// halts a running process before anything else, and ends with the reaping
/// of a process that the controller spawned.
pub proof fn lemma_cleanup_shape(process: ProcessView)
    requires
        valid_pid(process.pid),
        !process.is_over(),
    ensures
        forall|i: int|
            0 <= i < process.cleanup().len() ==> match #[trigger] process.cleanup()[i] {
                Syscall::Signal(pid, _) => pid == process.pid,
                Syscall::Wait(pid) => pid == process.pid,
                Syscall::Detach(pid) => pid == process.pid,
            },
        process.state == ProcessState::Running ==> process.cleanup().len() >= 2
            && process.cleanup()[0] == Syscall::Signal(process.pid, ControlSignal::Stop)
            && process.cleanup()[1] == Syscall::Wait(process.pid),
        process.owns_lifetime ==> process.cleanup().len() >= 2 && process.cleanup()[
            process.cleanup().len() - 2
        ] == Syscall::Signal(process.pid, ControlSignal::Kill) && process.cleanup().last()
            == Syscall::Wait(process.pid),
        process.is_traced <==> process.cleanup().contains(Syscall::Detach(process.pid)),
{
    let plan = process.cleanup();
    if process.is_traced {
        let at = if process.state == ProcessState::Running {
            2int
        } else {
            0int
        };
        assert(plan[at] == Syscall::Detach(process.pid));
    }
}

} // verus!

//! Exit coordination: from the child's termination and the end of both
//! forwarding loops to the outcome of the invocation and the exit code that
//! the caller reports.

use vstd::prelude::*;
use crate::forward::{StreamFault, StreamId, StreamIoError};
use crate::text::{decimal, decimal_of};

verus! {

/// Exit code that stands for a child that ended without one.
pub const ABNORMAL_EXIT_CODE: i32 = 1;

/// Exit code that the caller reports for a fault of its own.
pub const FAULT_EXIT_CODE: i32 = 1;

/// How the child ended.
#[derive(Clone, Copy, Debug, PartialEq, Eq, Structural)]
pub enum ChildStatus {
    /// It exited with this code.
    Exited(i32),
    /// It was ended from outside, by a signal, and has no exit code.
    Signaled,
}

/// Why the child could not be started, as the operating system reported it.
#[derive(Debug)]
pub struct SpawnFault {
    pub os_error: Option<i32>,
    pub detail: String,
}

/// The result of an invocation that ran to its end.
#[derive(Debug)]
pub struct ExecutionOutcome {
    pub exit_code: i32,
    pub forwarding_errors: Vec<StreamIoError>,
}

/// Why an invocation did not succeed.
#[derive(Debug)]
pub enum RunError {
    /// The working directory does not resolve to an existing path.
    PathResolution { path: String },
    /// The executable is missing or could not be started.
    Spawn { executable: String, os_error: Option<i32>, detail: String },
    /// The child ran and ended with a status other than success.
    CommandFailed { code: i32, forwarding_errors: Vec<StreamIoError> },
}

/// Something that the coordinator waits for has happened.
#[derive(Clone, Copy, Debug)]
pub enum ExitEvent {
    /// The child has ended.
    ChildExited(ChildStatus),
    /// The forwarding loop of a stream has ended, cleanly or with a fault.
    ForwarderFinished(StreamId, Option<StreamFault>),
}

/// What has been reported so far of the three things that end an invocation.
#[derive(Clone, Copy, Debug)]
pub struct Coordinator {
    pub status: Option<ChildStatus>,
    pub stdout: Option<Option<StreamFault>>,
    pub stderr: Option<Option<StreamFault>>,
}

/// The exit code that stands for `status`.
pub open spec fn exit_code_of(status: ChildStatus) -> i32 {
    match status {
        ChildStatus::Exited(code) => code,
        ChildStatus::Signaled => ABNORMAL_EXIT_CODE,
    }
}

/// The error, if any, with which the loop of `stream` ended.
pub open spec fn error_of(stream: StreamId, end: Option<Option<StreamFault>>) -> Seq<
    StreamIoError,
> {
    match end {
        Some(Some(fault)) => seq![StreamIoError { stream, fault }],
        _ => Seq::empty(),
    }
}

impl Coordinator {
    /// Nothing has been reported.
    pub open spec fn start() -> Coordinator {
        Coordinator { status: None, stdout: None, stderr: None }
    }

    /// The coordinator after `event`. Of each of the three, the first report
    /// stands.
    pub open spec fn after(self, event: ExitEvent) -> Coordinator {
        match event {
            ExitEvent::ChildExited(status) => if self.status is None {
                Coordinator { status: Some(status), ..self }
            } else {
                self
            },
            ExitEvent::ForwarderFinished(StreamId::Stdout, end) => if self.stdout is None {
                Coordinator { stdout: Some(end), ..self }
            } else {
                self
            },
            ExitEvent::ForwarderFinished(StreamId::Stderr, end) => if self.stderr is None {
                Coordinator { stderr: Some(end), ..self }
            } else {
                self
            },
        }
    }

    /// Whether the child has ended and both forwarding loops have ended.
    pub open spec fn complete(self) -> bool {
        self.status is Some && self.stdout is Some && self.stderr is Some
    }

    /// The exit code of the invocation: that of the child.
    pub open spec fn final_code(self) -> i32 {
        exit_code_of(self.status.unwrap())
    }

    /// The forwarding errors of the invocation: that of stdout before that of
    /// stderr, whichever came first.
    pub open spec fn final_errors(self) -> Seq<StreamIoError> {
        error_of(StreamId::Stdout, self.stdout) + error_of(StreamId::Stderr, self.stderr)
    }

    /// A coordinator to which nothing has been reported.
    pub fn new() -> (out: Coordinator)
        ensures
            out == Coordinator::start(),
    {
        Coordinator { status: None, stdout: None, stderr: None }
    }

    /// Takes a report.
    pub fn record(self, event: ExitEvent) -> (out: Coordinator)
        ensures
            out == self.after(event),
    {
        match event {
            ExitEvent::ChildExited(status) => if self.status.is_none() {
                Coordinator { status: Some(status), stdout: self.stdout, stderr: self.stderr }
            } else {
                self
            },
            ExitEvent::ForwarderFinished(StreamId::Stdout, end) => if self.stdout.is_none() {
                Coordinator { status: self.status, stdout: Some(end), stderr: self.stderr }
            } else {
                self
            },
            ExitEvent::ForwarderFinished(StreamId::Stderr, end) => if self.stderr.is_none() {
                Coordinator { status: self.status, stdout: self.stdout, stderr: Some(end) }
            } else {
                self
            },
        }
    }

    /// Whether the child has ended and both forwarding loops have ended.
    pub fn is_complete(&self) -> (out: bool)
        ensures
            out == self.complete(),
    {
        self.status.is_some() && self.stdout.is_some() && self.stderr.is_some()
    }

    /// The outcome of the invocation, once the child and both forwarding loops
    /// have ended, and not before.
    pub fn finalize(&self) -> (out: Option<ExecutionOutcome>)
        ensures
            out is Some <==> self.complete(),
            out matches Some(outcome) ==> outcome.exit_code == self.final_code()
                && outcome.forwarding_errors@ == self.final_errors(),
    {
        match (self.status, self.stdout, self.stderr) {
            (Some(status), Some(out_end), Some(err_end)) => {
                let mut errors: Vec<StreamIoError> = Vec::new();
                if let Some(fault) = out_end {
                    errors.push(StreamIoError { stream: StreamId::Stdout, fault });
                }
                if let Some(fault) = err_end {
                    errors.push(StreamIoError { stream: StreamId::Stderr, fault });
                }
                assert(errors@ =~= self.final_errors());
                Some(ExecutionOutcome { exit_code: final_exit_code(status), forwarding_errors: errors })
            },
            _ => None,
        }
    }
}

/// What is said of an error to the person who ran the command: which
/// directory does not exist, which executable did not start and why, or with
/// which code the command failed.
pub open spec fn message_of(error: RunError) -> Seq<char> {
    match error {
        RunError::PathResolution { path } => "working directory does not exist: "@ + path@,
        RunError::Spawn { executable, detail, .. } => "cannot start "@ + executable@ + ": "@
            + detail@,
        RunError::CommandFailed { code, .. } => "command failed with exit code: "@ + decimal_of(
            code as int,
        ),
    }
}

impl RunError {
    /// What is said of the error to the person who ran the command.
    pub fn message(&self) -> (out: String)
        ensures
            out@ == message_of(*self),
    {
        match self {
            RunError::PathResolution { path } => {
                let mut out = String::from_str("working directory does not exist: ");
                out.append(path.as_str());
                out
            },
            RunError::Spawn { executable, detail, .. } => {
                let mut out = String::from_str("cannot start ");
                out.append(executable.as_str());
                out.append(": ");
                out.append(detail.as_str());
                out
            },
            RunError::CommandFailed { code, .. } => {
                let mut out = String::from_str("command failed with exit code: ");
                out.append(decimal(*code).as_str());
                out
            },
        }
    }
}

/// The exit code that the caller reports for the result of an invocation:
/// that of the child where it ran, and the fixed code of a fault where it did
/// not.
pub open spec fn reported_exit_code(result: Result<ExecutionOutcome, RunError>) -> i32 {
    match result {
        Ok(outcome) => outcome.exit_code,
        Err(RunError::CommandFailed { code, .. }) => code,
        Err(_) => FAULT_EXIT_CODE,
    }
}

/// The exit code that stands for `status`.
pub fn final_exit_code(status: ChildStatus) -> (out: i32)
    ensures
        out == exit_code_of(status),
{
    match status {
        ChildStatus::Exited(code) => code,
        ChildStatus::Signaled => ABNORMAL_EXIT_CODE,
    }
}

/// Tells success from failure: an outcome with exit code 0 is the result, any
/// other becomes the error that carries the code.
pub fn conclude(outcome: ExecutionOutcome) -> (out: Result<ExecutionOutcome, RunError>)
    ensures
        outcome.exit_code == 0 ==> out == Ok::<ExecutionOutcome, RunError>(outcome),
        outcome.exit_code != 0 ==> out == Err::<ExecutionOutcome, RunError>(
            RunError::CommandFailed {
                code: outcome.exit_code,
                forwarding_errors: outcome.forwarding_errors,
            },
        ),
        reported_exit_code(out) == outcome.exit_code,
{
    if outcome.exit_code == 0 {
        Ok(outcome)
    } else {
        Err(
            RunError::CommandFailed {
                code: outcome.exit_code,
                forwarding_errors: outcome.forwarding_errors,
            },
        )
    }
}

/// The exit code that the caller reports for the result of an invocation.
pub fn exit_code_for(result: &Result<ExecutionOutcome, RunError>) -> (out: i32)
    ensures
        out == reported_exit_code(*result),
{
    match result {
        Ok(outcome) => outcome.exit_code,
        Err(RunError::CommandFailed { code, .. }) => *code,
        Err(_) => FAULT_EXIT_CODE,
    }
}

/// The exit code of an invocation is the exit code of its child, whatever
/// happened to the forwarding loops and whatever is reported afterwards.
pub proof fn lemma_exit_code_is_the_childs(c: Coordinator, code: i32)
    requires
        c.status == Some(ChildStatus::Exited(code)),
    ensures
        c.final_code() == code,
        forall|event: ExitEvent| #[trigger] c.after(event).final_code() == code,
{
}

/// A child that ended without an exit code is never reported as a success,
/// and neither is a fault of the caller's own.
pub proof fn lemma_failures_are_not_successes(error: RunError)
    ensures
        exit_code_of(ChildStatus::Signaled) != 0,
        !(error is CommandFailed) ==> reported_exit_code(
            Err::<ExecutionOutcome, RunError>(error),
        ) != 0,
{
}

/// What a report is about: 0 for the child, 1 for stdout, 2 for stderr.
pub open spec fn concerns(event: ExitEvent) -> int {
    match event {
        ExitEvent::ChildExited(_) => 0,
        ExitEvent::ForwarderFinished(StreamId::Stdout, _) => 1,
        ExitEvent::ForwarderFinished(StreamId::Stderr, _) => 2,
    }
}

/// Reports about different things can come in either order.
pub proof fn lemma_reports_commute(c: Coordinator, first: ExitEvent, second: ExitEvent)
    requires
        concerns(first) != concerns(second),
    ensures
        c.after(first).after(second) == c.after(second).after(first),
{
}

/// Two invocations whose child ends with the same status and whose forwarding
/// loops end in the same way reach the same outcome, in whatever order the
/// three reports arrive.
pub proof fn lemma_outcome_is_repeatable(
    status: ChildStatus,
    stdout_end: Option<StreamFault>,
    stderr_end: Option<StreamFault>,
)
    ensures
        ({
            let exited = ExitEvent::ChildExited(status);
            let out = ExitEvent::ForwarderFinished(StreamId::Stdout, stdout_end);
            let err = ExitEvent::ForwarderFinished(StreamId::Stderr, stderr_end);
            let end = Coordinator { status: Some(status), stdout: Some(stdout_end), stderr: Some(stderr_end) };
            let s = Coordinator::start();
            &&& s.after(exited).after(out).after(err) == end
            &&& s.after(exited).after(err).after(out) == end
            &&& s.after(out).after(exited).after(err) == end
            &&& s.after(out).after(err).after(exited) == end
            &&& s.after(err).after(exited).after(out) == end
            &&& s.after(err).after(out).after(exited) == end
            &&& end.complete()
            &&& end.final_code() == exit_code_of(status)
            &&& end.final_errors() == error_of(StreamId::Stdout, Some(stdout_end)) + error_of(
                StreamId::Stderr,
                Some(stderr_end),
            )
        }),
{
}

} // verus!

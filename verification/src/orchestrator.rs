use vstd::prelude::*;
use std::time::Duration;

verus! {

/// The name under which a test session knows one of its targets.
#[derive(Debug, Clone, Copy, PartialEq, Eq, Structural)]
pub struct ConfiguredTargetHandle(pub u64);

/// How a test ended.
#[derive(Debug, Clone, Copy, PartialEq, Eq, Structural)]
#[allow(non_camel_case_types)]
pub enum TestStatus {
    PASS,
    FAIL,
    SKIP,
    OMITTED,
    FATAL,
    TIMEOUT,
    UNKNOWN,
    RERUN,
    LISTING_SUCCESS,
    LISTING_FAILED,
}

/// The result of one test.
#[derive(Debug, Clone, PartialEq, Eq)]
pub struct TestResult {
    pub target: ConfiguredTargetHandle,
    pub status: TestStatus,
    pub msg: Option<String>,
    pub name: String,
    pub duration: Option<Duration>,
    pub details: String,
}

/// What the executor of the tests reports while it runs: results, and at the
/// end its exit code.
#[derive(Debug, Eq, PartialEq)]
pub enum TestResultOrExitCode {
    TestResult(TestResult),
    ExitCode(i32),
}

/// Why a call of the orchestrator failed.
#[derive(Debug, Clone, Copy, PartialEq, Eq, Structural)]
pub enum OrchestratorError {
    /// A test result came after the end of the results was announced.
    ResultAfterEnd,
    /// The end of the results was announced a second time.
    EndReceivedTwice,
    /// The command was cancelled.
    Cancelled,
}

/// What is handed to the reader of the results: a report, or the notice that
/// the stream of reports broke off.
#[derive(Debug, Eq, PartialEq)]
pub enum Report {
    Item(TestResultOrExitCode),
    /// The orchestrator went away before the end of the results.
    Incomplete,
}

/// The sending side of the stream of reports. Once closed it takes no more.
pub struct ResultsChannel {
    sent: Vec<Report>,
    closed: bool,
}

impl ResultsChannel {
    /// What was sent, oldest first.
    pub closed spec fn sent(&self) -> Seq<Report> {
        self.sent@
    }

    /// Whether the channel was closed.
    pub closed spec fn closed(&self) -> bool {
        self.closed
    }

    /// An open channel on which nothing was sent.
    pub fn new() -> (channel: Self)
        ensures
            channel.sent() == Seq::<Report>::empty(),
            !channel.closed(),
    {
        ResultsChannel { sent: Vec::new(), closed: false }
    }

    /// Sends `report`, unless the channel is closed: then the report comes
    /// back.
    pub fn unbounded_send(&mut self, report: Report) -> (r: Result<(), Report>)
        ensures
            final(self).closed() == old(self).closed(),
            match r {
                Ok(()) => !old(self).closed() && final(self).sent() == old(self).sent().push(
                    report,
                ),
                Err(back) => old(self).closed() && back == report && final(self).sent() == old(self).sent(),
            },
    {
        if self.closed {
            Err(report)
        } else {
            self.sent.push(report);
            Ok(())
        }
    }

    /// Closes the channel. What was sent stays.
    pub fn close_channel(&mut self)
        ensures
            final(self).closed(),
            final(self).sent() == old(self).sent(),
    {
        self.closed = true;
    }

    pub fn is_closed(&self) -> (b: bool)
        ensures
            b == self.closed(),
    {
        self.closed
    }

    /// What was sent, oldest first.
    pub fn reports(&self) -> (reports: &Vec<Report>)
        ensures
            reports@ == self.sent(),
    {
        &self.sent
    }
}

/// Where a command should run.
#[derive(Debug, Clone, Copy, PartialEq, Eq, Structural)]
pub enum ExecutorPreference {
    Default,
    LocalPreferred,
    LocalRequired,
}

/// The preference for running a test: remote execution is ruled out if the
/// test does not support it, and only avoided if the session does not allow
/// it, so that an override can still choose it.
pub open spec fn preference_for(allow_re: bool, test_supports_re: bool) -> ExecutorPreference {
    if !test_supports_re {
        ExecutorPreference::LocalRequired
    } else if !allow_re {
        ExecutorPreference::LocalPreferred
    } else {
        ExecutorPreference::Default
    }
}

/// The part of a test run that decides: what goes to the reader of the
/// results, and where tests may run.
pub struct BuckTestOrchestrator {
    allow_re: bool,
    results_channel: ResultsChannel,
}

impl BuckTestOrchestrator {
    /// Whether the session allows remote execution.
    pub closed spec fn allows_re(&self) -> bool {
        self.allow_re
    }

    /// What was sent to the reader of the results, oldest first.
    pub closed spec fn sent(&self) -> Seq<Report> {
        self.results_channel.sent()
    }

    /// Whether the stream of results was closed.
    pub closed spec fn closed(&self) -> bool {
        self.results_channel.closed()
    }

    pub fn new(allow_re: bool, results_channel: ResultsChannel) -> (orchestrator: Self)
        ensures
            orchestrator.allows_re() == allow_re,
            orchestrator.sent() == results_channel.sent(),
            orchestrator.closed() == results_channel.closed(),
    {
        BuckTestOrchestrator { allow_re, results_channel }
    }

    /// Hands a test result to the reader. After the end of the results this
    /// fails, and nothing is sent.
    pub fn report_test_result(&mut self, r: TestResult) -> (done: Result<(), OrchestratorError>)
        ensures
            final(self).allows_re() == old(self).allows_re(),
            final(self).closed() == old(self).closed(),
            match done {
                Ok(()) => !old(self).closed() && final(self).sent() == old(self).sent().push(
                    Report::Item(TestResultOrExitCode::TestResult(r)),
                ),
                Err(e) => e == OrchestratorError::ResultAfterEnd && old(self).closed() && final(self).sent() == old(self).sent(),
            },
    {
        match self.results_channel.unbounded_send(
            Report::Item(TestResultOrExitCode::TestResult(r)),
        ) {
            Ok(()) => Ok(()),
            Err(_) => Err(OrchestratorError::ResultAfterEnd),
        }
    }

    /// Announces the end of the results with the executor's exit code, and
    /// closes the stream. A second announcement fails.
    pub fn end_of_test_results(&mut self, exit_code: i32) -> (done: Result<(), OrchestratorError>)
        ensures
            final(self).allows_re() == old(self).allows_re(),
            final(self).closed(),
            match done {
                Ok(()) => !old(self).closed() && final(self).sent() == old(self).sent().push(
                    Report::Item(TestResultOrExitCode::ExitCode(exit_code)),
                ),
                Err(e) => e == OrchestratorError::EndReceivedTwice && old(self).closed() && final(self).sent() == old(self).sent(),
            },
    {
        match self.results_channel.unbounded_send(
            Report::Item(TestResultOrExitCode::ExitCode(exit_code)),
        ) {
            Ok(()) => {
                self.results_channel.close_channel();
                Ok(())
            },
            Err(_) => Err(OrchestratorError::EndReceivedTwice),
        }
    }

    /// Ends the orchestrator and hands back the channel. If the end of the
    /// results was not announced, the reader is told that the stream is
    /// incomplete.
    pub fn finish(self) -> (channel: ResultsChannel)
        ensures
            channel.closed() == self.closed(),
            channel.sent() == if self.closed() {
                self.sent()
            } else {
                self.sent().push(Report::Incomplete)
            },
    {
        let mut channel = self.results_channel;
        let _ignored = channel.unbounded_send(Report::Incomplete);
        channel
    }

    /// Where a test may run, given whether it supports remote execution.
    pub fn executor_preference(&self, test_supports_re: bool) -> (preference: ExecutorPreference)
        ensures
            preference == preference_for(self.allows_re(), test_supports_re),
    {
        let mut executor_preference = ExecutorPreference::Default;
        if !self.allow_re {
            executor_preference = ExecutorPreference::LocalPreferred;
        }
        if !test_supports_re {
            executor_preference = ExecutorPreference::LocalRequired;
        }
        executor_preference
    }
}

/// How the execution of a command ended.
pub enum CommandExecutionStatus {
    Success,
    Failure,
    TimedOut { duration: Duration },
    /// The command could not be run; `error` is the text of the error.
    Error { error: Vec<u8> },
    Cancelled,
}

/// What a test executor is told of how a command ended.
#[derive(Debug, PartialEq, Eq)]
pub enum ExecutionStatus {
    Finished { exitcode: i32 },
    TimedOut { duration: Duration },
}

/// An output stream of a command.
#[derive(Debug, Clone, PartialEq, Eq)]
pub enum ExecutionStream {
    Inline(Vec<u8>),
}

/// The exit code `exit_code` if there is one, else `default`.
pub open spec fn code_or(exit_code: Option<i32>, default: i32) -> i32 {
    match exit_code {
        Some(code) => code,
        None => default,
    }
}

/// What is reported of a command that ended with `status`: its two streams
/// and how it finished. A command without an exit code counts as 0 if it
/// succeeded and as 1 if not. Of a command that could not be run, the text of
/// the error stands for its error stream. A cancelled command has no report.
pub fn execution_outcome(
    status: CommandExecutionStatus,
    exit_code: Option<i32>,
    stdout: Vec<u8>,
    stderr: Vec<u8>,
) -> (r: Result<(ExecutionStream, ExecutionStream, ExecutionStatus), OrchestratorError>)
    ensures
        match status {
            CommandExecutionStatus::Success => r == Ok::<_, OrchestratorError>(
                (
                    ExecutionStream::Inline(stdout),
                    ExecutionStream::Inline(stderr),
                    ExecutionStatus::Finished { exitcode: code_or(exit_code, 0) },
                ),
            ),
            CommandExecutionStatus::Failure => r == Ok::<_, OrchestratorError>(
                (
                    ExecutionStream::Inline(stdout),
                    ExecutionStream::Inline(stderr),
                    ExecutionStatus::Finished { exitcode: code_or(exit_code, 1) },
                ),
            ),
            CommandExecutionStatus::TimedOut { duration } => r == Ok::<_, OrchestratorError>(
                (
                    ExecutionStream::Inline(stdout),
                    ExecutionStream::Inline(stderr),
                    ExecutionStatus::TimedOut { duration },
                ),
            ),
            CommandExecutionStatus::Error { error } => r matches Ok((out, err, finished))
                && out matches ExecutionStream::Inline(bytes) && bytes@ == Seq::<u8>::empty()
                && err == ExecutionStream::Inline(error) && finished
                == (ExecutionStatus::Finished { exitcode: code_or(exit_code, 1) }),
            CommandExecutionStatus::Cancelled => r == Err::<
                (ExecutionStream, ExecutionStream, ExecutionStatus),
                _,
            >(OrchestratorError::Cancelled),
        },
{
    match status {
        CommandExecutionStatus::Success => Ok(
            (
                ExecutionStream::Inline(stdout),
                ExecutionStream::Inline(stderr),
                ExecutionStatus::Finished {
                    exitcode: match exit_code {
                        Some(code) => code,
                        None => 0,
                    },
                },
            ),
        ),
        CommandExecutionStatus::Failure => Ok(
            (
                ExecutionStream::Inline(stdout),
                ExecutionStream::Inline(stderr),
                ExecutionStatus::Finished {
                    exitcode: match exit_code {
                        Some(code) => code,
                        None => 1,
                    },
                },
            ),
        ),
        CommandExecutionStatus::TimedOut { duration } => Ok(
            (
                ExecutionStream::Inline(stdout),
                ExecutionStream::Inline(stderr),
                ExecutionStatus::TimedOut { duration },
            ),
        ),
        CommandExecutionStatus::Error { error } => Ok(
            (
                ExecutionStream::Inline(Vec::new()),
                ExecutionStream::Inline(error),
                ExecutionStatus::Finished {
                    exitcode: match exit_code {
                        Some(code) => code,
                        None => 1,
                    },
                },
            ),
        ),
        CommandExecutionStatus::Cancelled => Err(OrchestratorError::Cancelled),
    }
}

/// What a test asks of the place where it runs, and what the session forces.
#[derive(Debug, Clone, Copy, PartialEq, Eq, Structural)]
pub struct ExecutionLayout {
    pub run_from_project_root: bool,
    pub use_project_relative_paths: bool,
    pub force_run_from_project_root: bool,
    pub force_use_project_relative_paths: bool,
}

impl ExecutionLayout {
    /// Whether the test runs from the root of the project, and not from the
    /// root of its cell.
    pub open spec fn from_project_root(&self) -> bool {
        self.run_from_project_root || self.force_run_from_project_root
    }

    /// Whether paths on the command line are relative to the project, and not
    /// absolute.
    pub open spec fn project_relative(&self) -> bool {
        self.use_project_relative_paths || self.force_use_project_relative_paths
    }

    /// Decides where the test runs and how its paths are written. Returns
    /// whether it runs from the project root, whether its paths are relative
    /// to the project, and whether it can run remotely: only if both hold.
    pub fn decide(&self) -> (r: (bool, bool, bool))
        ensures
            r.0 == self.from_project_root(),
            r.1 == self.project_relative(),
            r.2 == (self.from_project_root() && self.project_relative()),
    {
        let mut supports_re = true;
        let from_project_root = if self.run_from_project_root
            || self.force_run_from_project_root {
            true
        } else {
            supports_re = false;
            false
        };
        let project_relative = if self.use_project_relative_paths
            || self.force_use_project_relative_paths {
            true
        } else {
            supports_re = false;
            false
        };
        (from_project_root, project_relative, supports_re)
    }
}

} // verus!

use std::time::Duration;

use dice::expand::declare_pre_created;
use dice::expand::join_with_spaces;
use dice::expand::no_declared_outputs;
use dice::expand::ArgValue;
use dice::expand::ArgValueContent;
use dice::expand::DeclaredOutput;
use dice::expand::Execute2RequestExpander;
use dice::expand::ExpandError;
use dice::expand::ExternalRunnerSpecValue;
use dice::expand::Lookup;
use dice::orchestrator::execution_outcome;
use dice::orchestrator::BuckTestOrchestrator;
use dice::orchestrator::CommandExecutionStatus;
use dice::orchestrator::ConfiguredTargetHandle;
use dice::orchestrator::ExecutionLayout;
use dice::orchestrator::ExecutionStatus;
use dice::orchestrator::ExecutionStream;
use dice::orchestrator::ExecutorPreference;
use dice::orchestrator::OrchestratorError;
use dice::orchestrator::Report;
use dice::orchestrator::ResultsChannel;
use dice::orchestrator::TestResult;
use dice::orchestrator::TestResultOrExitCode;
use dice::orchestrator::TestStatus;
use indexmap::IndexMap;
use sorted_vector_map::SortedVectorMap;

fn make() -> BuckTestOrchestrator {
    BuckTestOrchestrator::new(true, ResultsChannel::new())
}

#[test]
fn orchestrator_results() {
    let mut orchestrator = make();
    let target = ConfiguredTargetHandle(7);

    orchestrator
        .report_test_result(TestResult {
            target,
            status: TestStatus::PASS,
            msg: None,
            name: "First - test".to_owned(),
            duration: Some(Duration::from_micros(1)),
            details: "1".to_owned(),
        })
        .unwrap();

    orchestrator
        .report_test_result(TestResult {
            target,
            status: TestStatus::FAIL,
            msg: None,
            name: "Second - test".to_owned(),
            duration: Some(Duration::from_micros(2)),
            details: "2".to_owned(),
        })
        .unwrap();

    orchestrator.end_of_test_results(0).unwrap();

    let channel = orchestrator.finish();
    let results = channel.reports();

    assert_eq!(
        results,
        &vec![
            Report::Item(TestResultOrExitCode::TestResult(TestResult {
                target,

                status: TestStatus::PASS,
                msg: None,
                name: "First - test".to_owned(),
                duration: Some(Duration::from_micros(1)),
                details: "1".to_owned(),
            })),
            Report::Item(TestResultOrExitCode::TestResult(TestResult {
                target,

                status: TestStatus::FAIL,
                msg: None,
                name: "Second - test".to_owned(),
                duration: Some(Duration::from_micros(2)),
                details: "2".to_owned(),
            })),
            Report::Item(TestResultOrExitCode::ExitCode(0)),
        ]
    );
}

#[test]
fn test_orchestrator_channel_drop() {
    let orchestrator = make();
    let channel = orchestrator.finish();

    let res = channel.reports();
    assert!(res.contains(&Report::Incomplete));
    assert_eq!(res, &vec![Report::Incomplete]);
}

#[test]
fn test_orchestrator_closes_channel() {
    let mut orchestrator = make();
    orchestrator.end_of_test_results(1).unwrap();

    let channel = orchestrator.finish();
    assert!(channel.is_closed());
    assert_eq!(
        channel.reports(),
        &vec![Report::Item(TestResultOrExitCode::ExitCode(1))]
    );
}

fn result(name: &str) -> TestResult {
    TestResult {
        target: ConfiguredTargetHandle(1),
        status: TestStatus::SKIP,
        msg: Some("m".to_owned()),
        name: name.to_owned(),
        duration: None,
        details: String::new(),
    }
}

#[test]
fn nothing_is_taken_after_the_end() {
    let mut orchestrator = make();
    assert_eq!(orchestrator.report_test_result(result("a")), Ok(()));
    assert_eq!(orchestrator.end_of_test_results(3), Ok(()));
    assert_eq!(
        orchestrator.report_test_result(result("late")),
        Err(OrchestratorError::ResultAfterEnd)
    );
    assert_eq!(
        orchestrator.end_of_test_results(4),
        Err(OrchestratorError::EndReceivedTwice)
    );
    let channel = orchestrator.finish();
    assert_eq!(
        channel.reports(),
        &vec![
            Report::Item(TestResultOrExitCode::TestResult(result("a"))),
            Report::Item(TestResultOrExitCode::ExitCode(3)),
        ]
    );
}

#[test]
fn results_channel() {
    let mut channel = ResultsChannel::new();
    assert!(!channel.is_closed());
    assert_eq!(channel.unbounded_send(Report::Incomplete), Ok(()));
    channel.close_channel();
    assert!(channel.is_closed());
    assert_eq!(
        channel.unbounded_send(Report::Item(TestResultOrExitCode::ExitCode(2))),
        Err(Report::Item(TestResultOrExitCode::ExitCode(2)))
    );
    assert_eq!(channel.reports(), &vec![Report::Incomplete]);

    // An orchestrator on a closed channel cannot report.
    let mut orchestrator = BuckTestOrchestrator::new(true, channel);
    assert_eq!(
        orchestrator.report_test_result(result("x")),
        Err(OrchestratorError::ResultAfterEnd)
    );
}

#[test]
fn executor_preference_table() {
    let allowed = BuckTestOrchestrator::new(true, ResultsChannel::new());
    let not_allowed = BuckTestOrchestrator::new(false, ResultsChannel::new());
    assert_eq!(allowed.executor_preference(true), ExecutorPreference::Default);
    assert_eq!(
        allowed.executor_preference(false),
        ExecutorPreference::LocalRequired
    );
    assert_eq!(
        not_allowed.executor_preference(true),
        ExecutorPreference::LocalPreferred
    );
    assert_eq!(
        not_allowed.executor_preference(false),
        ExecutorPreference::LocalRequired
    );
}

#[test]
fn execution_outcomes() {
    let out = b"out".to_vec();
    let err = b"err".to_vec();
    let streams = || {
        (
            ExecutionStream::Inline(b"out".to_vec()),
            ExecutionStream::Inline(b"err".to_vec()),
        )
    };
    assert_eq!(
        execution_outcome(
            CommandExecutionStatus::Success,
            None,
            out.clone(),
            err.clone()
        ),
        Ok((
            streams().0,
            streams().1,
            ExecutionStatus::Finished { exitcode: 0 }
        ))
    );
    assert_eq!(
        execution_outcome(
            CommandExecutionStatus::Success,
            Some(5),
            out.clone(),
            err.clone()
        ),
        Ok((
            streams().0,
            streams().1,
            ExecutionStatus::Finished { exitcode: 5 }
        ))
    );
    assert_eq!(
        execution_outcome(
            CommandExecutionStatus::Failure,
            None,
            out.clone(),
            err.clone()
        ),
        Ok((
            streams().0,
            streams().1,
            ExecutionStatus::Finished { exitcode: 1 }
        ))
    );
    assert_eq!(
        execution_outcome(
            CommandExecutionStatus::Failure,
            Some(-9),
            out.clone(),
            err.clone()
        ),
        Ok((
            streams().0,
            streams().1,
            ExecutionStatus::Finished { exitcode: -9 }
        ))
    );
    assert_eq!(
        execution_outcome(
            CommandExecutionStatus::TimedOut {
                duration: Duration::from_secs(30)
            },
            Some(1),
            out.clone(),
            err.clone()
        ),
        Ok((
            streams().0,
            streams().1,
            ExecutionStatus::TimedOut {
                duration: Duration::from_secs(30)
            }
        ))
    );
    assert_eq!(
        execution_outcome(
            CommandExecutionStatus::Error {
                error: b"no executor".to_vec()
            },
            None,
            out.clone(),
            err.clone()
        ),
        Ok((
            ExecutionStream::Inline(vec![]),
            ExecutionStream::Inline(b"no executor".to_vec()),
            ExecutionStatus::Finished { exitcode: 1 }
        ))
    );
    assert_eq!(
        execution_outcome(CommandExecutionStatus::Cancelled, Some(0), out, err),
        Err(OrchestratorError::Cancelled)
    );
}

#[test]
fn execution_layout() {
    let mut layout = ExecutionLayout {
        run_from_project_root: true,
        use_project_relative_paths: true,
        force_run_from_project_root: false,
        force_use_project_relative_paths: false,
    };
    assert_eq!(layout.decide(), (true, true, true));
    layout.run_from_project_root = false;
    assert_eq!(layout.decide(), (false, true, false));
    layout.force_run_from_project_root = true;
    assert_eq!(layout.decide(), (true, true, true));
    layout.use_project_relative_paths = false;
    assert_eq!(layout.decide(), (true, false, false));
    layout.force_use_project_relative_paths = true;
    assert_eq!(layout.decide(), (true, true, true));
}

fn verbatim(s: &str) -> ArgValueContent {
    ArgValueContent::ExternalRunnerSpecValue(ExternalRunnerSpecValue::Verbatim(s.to_owned()))
}

fn arg(handle: usize) -> ArgValueContent {
    ArgValueContent::ExternalRunnerSpecValue(ExternalRunnerSpecValue::ArgHandle(handle))
}

fn env(name: &str) -> ArgValueContent {
    ArgValueContent::ExternalRunnerSpecValue(ExternalRunnerSpecValue::EnvHandle(name.to_owned()))
}

fn output(name: &str, path: &str) -> ArgValueContent {
    ArgValueContent::DeclaredOutput(DeclaredOutput {
        name: name.to_owned(),
        path: path.to_owned(),
    })
}

fn plain(content: ArgValueContent) -> ArgValue {
    ArgValue {
        content,
        format: None,
    }
}

fn formatted(content: ArgValueContent, format: &str) -> ArgValue {
    ArgValue {
        content,
        format: Some(format.to_owned()),
    }
}

fn strings(words: &[&str]) -> Vec<String> {
    words.iter().map(|w| w.to_string()).collect()
}

fn pairs(
    expanded: Result<(Vec<String>, SortedVectorMap<String, String>), ExpandError>,
) -> Result<(Vec<String>, Vec<(String, String)>), ExpandError> {
    expanded.map(|(cmd, env)| (cmd, env.into_iter().collect()))
}

fn expander(cmd: Vec<ArgValue>, env: Vec<(String, ArgValue)>) -> Execute2RequestExpander {
    Execute2RequestExpander {
        cli_args_for_interpolation: vec![strings(&["bin/test"]), strings(&["--jobs", "4"])],
        env_for_interpolation: vec![
            ("HOME".to_owned(), strings(&["/old"])),
            ("FLAGS".to_owned(), strings(&["-a", "-b"])),
            ("HOME".to_owned(), strings(&["/home/me"])),
        ],
        cmd,
        env,
    }
}

#[test]
fn expand_command_and_environment() {
    let mut declared: IndexMap<String, bool> = no_declared_outputs();
    assert!(declared.is_empty());
    let expanded = expander(
        vec![
            plain(arg(0)),
            plain(verbatim("run")),
            formatted(arg(1), "[{}]"),
            formatted(output("report", "buck-out/report"), "--out={}"),
            formatted(env("HOME"), "{}/{}"),
            formatted(verbatim("x"), "no placeholder"),
            formatted(verbatim("}{"), "{{}}{}{"),
        ],
        vec![
            ("A".to_owned(), plain(env("FLAGS"))),
            ("B".to_owned(), formatted(arg(1), "<{}>")),
            ("C".to_owned(), plain(output("log", "buck-out/log"))),
            ("D".to_owned(), plain(verbatim(""))),
        ],
    )
    .expand(&mut declared);
    assert_eq!(
        pairs(expanded),
        Ok((
            strings(&[
                "bin/test",
                "run",
                "[--jobs]",
                "[4]",
                "--out=buck-out/report",
                "/home/me//home/me",
                "no placeholder",
                "{}{}}{{",
            ]),
            vec![
                ("A".to_owned(), "-a -b".to_owned()),
                ("B".to_owned(), "<--jobs> <4>".to_owned()),
                ("C".to_owned(), "buck-out/log".to_owned()),
                ("D".to_owned(), "".to_owned()),
            ]
        ))
    );
    assert_eq!(
        declared.iter().collect::<Vec<_>>(),
        vec![(&"report".to_owned(), &false), (&"log".to_owned(), &false)]
    );

    // Directories to create: a known output keeps its place.
    declare_pre_created(&mut declared, &strings(&["tmp", "report", "tmp"]));
    assert_eq!(
        declared.iter().collect::<Vec<_>>(),
        vec![
            (&"report".to_owned(), &true),
            (&"log".to_owned(), &false),
            (&"tmp".to_owned(), &true)
        ]
    );
    // An argument that announces it again needs only its directory.
    let again = expander(vec![plain(output("report", "p"))], vec![]).expand(&mut declared);
    assert_eq!(pairs(again), Ok((strings(&["p"]), vec![])));
    assert_eq!(declared.get_index(0), Some((&"report".to_owned(), &false)));
    assert_eq!(declared.len(), 3);
}

#[test]
fn expand_fails_on_unknown_handles() {
    let mut declared: IndexMap<String, bool> = IndexMap::new();
    let failed = expander(
        vec![
            plain(output("first", "a")),
            plain(arg(2)),
            plain(output("second", "b")),
        ],
        vec![("A".to_owned(), plain(env("NOPE")))],
    )
    .expand(&mut declared);
    assert_eq!(pairs(failed), Err(ExpandError::InvalidArgHandle(2)));
    assert_eq!(
        declared.iter().collect::<Vec<_>>(),
        vec![(&"first".to_owned(), &false)]
    );

    let mut declared: IndexMap<String, bool> = IndexMap::new();
    let failed = expander(
        vec![plain(output("first", "a"))],
        vec![
            ("A".to_owned(), plain(output("second", "b"))),
            ("B".to_owned(), plain(env("NOPE"))),
            ("C".to_owned(), plain(output("third", "c"))),
        ],
    )
    .expand(&mut declared);
    assert_eq!(
        pairs(failed),
        Err(ExpandError::InvalidEnvHandle("NOPE".to_owned()))
    );
    assert_eq!(
        declared.iter().collect::<Vec<_>>(),
        vec![(&"first".to_owned(), &false), (&"second".to_owned(), &false)]
    );

    let mut declared: IndexMap<String, bool> = IndexMap::new();
    let empty = expander(vec![], vec![]).expand(&mut declared);
    assert_eq!(pairs(empty), Ok((vec![], vec![])));
}

#[test]
fn joining_words() {
    assert_eq!(join_with_spaces(&vec![]), "");
    assert_eq!(join_with_spaces(&strings(&["a"])), "a");
    assert_eq!(join_with_spaces(&strings(&["a", "", "b c"])), "a  b c");
}

#[test]
fn expanded_variables_are_sorted_by_name() {
    let mut declared: IndexMap<String, bool> = IndexMap::new();
    let expanded = expander(
        vec![],
        vec![
            ("ZED".to_owned(), plain(verbatim("last"))),
            ("ALPHA".to_owned(), plain(verbatim("first"))),
            ("MID".to_owned(), plain(arg(1))),
            ("ALPHA".to_owned(), plain(verbatim("again"))),
        ],
    )
    .expand(&mut declared);
    assert_eq!(
        pairs(expanded),
        Ok((
            vec![],
            vec![
                ("ALPHA".to_owned(), "again".to_owned()),
                ("MID".to_owned(), "--jobs 4".to_owned()),
                ("ZED".to_owned(), "last".to_owned()),
            ]
        ))
    );
}

#[test]
fn lookups_stop_at_the_first_unknown_handle() {
    let all = expander(
        vec![
            plain(arg(1)),
            plain(verbatim("x")),
            plain(output("o", "p")),
        ],
        vec![
            ("A".to_owned(), plain(env("HOME"))),
            ("B".to_owned(), plain(env("FLAGS"))),
        ],
    );
    assert_eq!(
        all.lookups(),
        vec![
            Lookup::Arg(1),
            Lookup::Verbatim,
            Lookup::Output,
            Lookup::Env(2),
            Lookup::Env(1),
        ]
    );
    let stops_in_cmd = expander(
        vec![plain(arg(0)), plain(arg(2)), plain(arg(1))],
        vec![("A".to_owned(), plain(env("HOME")))],
    );
    assert_eq!(stops_in_cmd.lookups(), vec![Lookup::Arg(0)]);
    let stops_in_env = expander(
        vec![plain(arg(0))],
        vec![
            ("A".to_owned(), plain(env("HOME"))),
            ("B".to_owned(), plain(env("home"))),
            ("C".to_owned(), plain(env("HOME"))),
        ],
    );
    assert_eq!(
        stops_in_env.lookups(),
        vec![Lookup::Arg(0), Lookup::Env(2)]
    );
    assert_eq!(expander(vec![], vec![]).lookups(), vec![]);
}

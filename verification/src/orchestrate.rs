//! The order of work for each command, and when to stop.
//!
//! A command is laid out as a plan of steps. The caller runs one step at a
//! time and reports how it ended; the first step that does not end well
//! ends the command with that step's code, and no later step is issued.

use vstd::prelude::*;
use crate::pipeline::{
    colcon, ctest_invocation, ninja_build_target, ninja_invocation, single_ctest,
    ColconInvocation, Invocation, InvocationView,
};
use crate::profile::{
    BuildOutput, Config, ConfigView, EventHandlers, TestConfiguration, TestResultConfig, What,
    WhatView,
};
use crate::tokens::{
    build_tokens, configure_tokens, log_tokens, selection_tokens, test_result_tokens,
    test_tokens,
};

verus! {

/// The exit code reserved for every failure that has no code of its own:
/// a process that could not be launched or that a signal ended, and the
/// fatal conditions that this program finds itself.
pub const FAILURE_EXIT_CODE: i32 = -1;

/// How an external process ended.
#[derive(Clone, Copy, Debug, PartialEq, Eq, Structural)]
pub enum ProcessStatus {
    /// It ran and exited with this code.
    Exited(i32),
    /// It ran and was ended without leaving a code.
    Terminated,
    /// Its executable could not be found or started.
    NotLaunched,
}

/// The code with which the command must end after a process ended with
/// `status`, or `None` if the command may go on.
pub open spec fn exit_code_after(status: ProcessStatus) -> Option<i32> {
    match status {
        ProcessStatus::Exited(code) => if code == 0 {
            None
        } else {
            Some(code)
        },
        ProcessStatus::Terminated => Some(FAILURE_EXIT_CODE),
        ProcessStatus::NotLaunched => Some(FAILURE_EXIT_CODE),
    }
}

/// Decides whether a process that ended with `status` ends the command:
/// `Some` holds the code to exit with, `None` lets the command go on.
pub fn exit_on_error(status: ProcessStatus) -> (code: Option<i32>)
    ensures
        code == exit_code_after(status),
{
    match status {
        ProcessStatus::Exited(code) => {
            if code == 0 {
                None
            } else {
                Some(code)
            }
        },
        ProcessStatus::Terminated => Some(FAILURE_EXIT_CODE),
        ProcessStatus::NotLaunched => Some(FAILURE_EXIT_CODE),
    }
}

/// What the user asked for.
#[derive(Debug, PartialEq, Eq)]
pub enum Command {
    /// Build a package, by default after what it depends on.
    Build { package: String, skip_dependencies: bool },
    /// Test a package: all of its tests, or the one named by `test`.
    Test { package: String, test: Option<String>, skip_rebuild: bool, rebuild_dependencies: bool },
}

/// The mathematical content of a [`Command`].
pub enum CommandView {
    Build { package: Seq<char>, skip_dependencies: bool },
    Test {
        package: Seq<char>,
        test: Option<Seq<char>>,
        skip_rebuild: bool,
        rebuild_dependencies: bool,
    },
}

impl View for Command {
    type V = CommandView;

    open spec fn view(&self) -> CommandView {
        match self {
            Command::Build { package, skip_dependencies } => CommandView::Build {
                package: package@,
                skip_dependencies: *skip_dependencies,
            },
            Command::Test {
                package,
                test,
                skip_rebuild,
                rebuild_dependencies,
            } => CommandView::Test {
                package: package@,
                test: test.deep_view(),
                skip_rebuild: *skip_rebuild,
                rebuild_dependencies: *rebuild_dependencies,
            },
        }
    }
}

impl CommandView {
    /// The package the command works on.
    pub open spec fn package(self) -> Seq<char> {
        match self {
            CommandView::Build { package, .. } => package,
            CommandView::Test { package, .. } => package,
        }
    }
}

/// One external invocation within a command.
#[derive(Debug, PartialEq, Eq)]
pub enum Step {
    /// Build everything the package depends on, the package left out.
    BuildDependencies,
    /// Build the package itself.
    BuildPackage,
    /// Build the one target that holds the named test.
    BuildTest(String),
    /// Run the test of exactly this name.
    RunTest(String),
    /// Run all tests of the package.
    RunTests,
    /// Report the results that the last test run recorded.
    ReportResults,
}

/// The mathematical content of a [`Step`].
pub enum StepView {
    BuildDependencies,
    BuildPackage,
    BuildTest(Seq<char>),
    RunTest(Seq<char>),
    RunTests,
    ReportResults,
}

impl View for Step {
    type V = StepView;

    open spec fn view(&self) -> StepView {
        match self {
            Step::BuildDependencies => StepView::BuildDependencies,
            Step::BuildPackage => StepView::BuildPackage,
            Step::BuildTest(test) => StepView::BuildTest(test@),
            Step::RunTest(test) => StepView::RunTest(test@),
            Step::RunTests => StepView::RunTests,
            Step::ReportResults => StepView::ReportResults,
        }
    }
}

impl DeepView for Step {
    type V = StepView;

    open spec fn deep_view(&self) -> StepView {
        self@
    }
}

/// The steps of a build: the dependencies unless they are skipped, then
/// the package.
pub open spec fn build_plan(skip_dependencies: bool) -> Seq<StepView> {
    (if skip_dependencies {
        Seq::empty()
    } else {
        seq![StepView::BuildDependencies]
    }) + seq![StepView::BuildPackage]
}

/// The steps of a test command, in three parts. Dependencies are built
/// only on request and only where rebuilding is not skipped. Unless
/// rebuilding is skipped, what is to be tested is rebuilt: the target of
/// the named test, or without a name the whole package. Then the named
/// test is run, or without a name all tests, followed by the report.
pub open spec fn test_plan(
    test: Option<Seq<char>>,
    skip_rebuild: bool,
    rebuild_dependencies: bool,
) -> Seq<StepView> {
    (if rebuild_dependencies && !skip_rebuild {
        seq![StepView::BuildDependencies]
    } else {
        Seq::empty()
    }) + (if skip_rebuild {
        Seq::empty()
    } else {
        match test {
            Some(name) => seq![StepView::BuildTest(name)],
            None => seq![StepView::BuildPackage],
        }
    }) + (match test {
        Some(name) => seq![StepView::RunTest(name)],
        None => seq![StepView::RunTests, StepView::ReportResults],
    })
}

/// The steps of a command, in the order in which they are issued.
pub open spec fn plan_of(command: CommandView) -> Seq<StepView> {
    match command {
        CommandView::Build { skip_dependencies, .. } => build_plan(skip_dependencies),
        CommandView::Test { test, skip_rebuild, rebuild_dependencies, .. } => test_plan(
            test,
            skip_rebuild,
            rebuild_dependencies,
        ),
    }
}

/// Lays out the steps of `command`.
pub fn plan(command: &Command) -> (steps: Vec<Step>)
    ensures
        steps.deep_view() == plan_of(command@),
{
    let mut steps: Vec<Step> = Vec::new();
    match command {
        Command::Build { package: _, skip_dependencies } => {
            if !*skip_dependencies {
                steps.push(Step::BuildDependencies);
            }
            steps.push(Step::BuildPackage);
        },
        Command::Test { package: _, test, skip_rebuild, rebuild_dependencies } => {
            if *rebuild_dependencies && !*skip_rebuild {
                steps.push(Step::BuildDependencies);
            }
            if !*skip_rebuild {
                match test {
                    Some(name) => steps.push(Step::BuildTest(name.clone())),
                    None => steps.push(Step::BuildPackage),
                }
            }
            match test {
                Some(name) => steps.push(Step::RunTest(name.clone())),
                None => {
                    steps.push(Step::RunTests);
                    steps.push(Step::ReportResults);
                },
            }
        },
    }
    assert(steps.deep_view() =~= plan_of(command@));
    steps
}

/// A run of the workspace build tool in `workspace` with `args`.
pub open spec fn colcon_invocation(workspace: Seq<char>, args: Seq<Seq<char>>) -> InvocationView {
    InvocationView { program: colcon(), args, directory: Some(workspace) }
}

/// The invocation that carries out `step` for `package` in `workspace`.
///
/// Dependencies are built with the upstream profile and the package with
/// its own, in both cases without a log and with a plain install. A
/// package that is rebuilt on the way to its tests is built exactly like
/// one that is built for its own sake: the profile's event handlers stay
/// as they are stored. The test run itself is silent and keeps a log; the
/// report is verbose and covers all results.
pub open spec fn step_invocation(
    step: StepView,
    workspace: Seq<char>,
    package: Seq<char>,
    config: ConfigView,
) -> InvocationView {
    match step {
        StepView::BuildDependencies => colcon_invocation(
            workspace,
            log_tokens(false) + build_tokens(BuildOutput { symlink: false, merge: false })
                + configure_tokens(config.upstream) + selection_tokens(
                WhatView::DependenciesFor(package),
            ),
        ),
        StepView::BuildPackage => colcon_invocation(
            workspace,
            log_tokens(false) + build_tokens(BuildOutput { symlink: false, merge: false })
                + configure_tokens(config.package) + selection_tokens(
                WhatView::ThisPackage(package),
            ),
        ),
        StepView::BuildTest(test) => ninja_invocation(workspace, package, test),
        StepView::RunTest(test) => ctest_invocation(workspace, package, test),
        StepView::RunTests => colcon_invocation(
            workspace,
            log_tokens(true) + test_tokens(package, EventHandlers::silent_preset()),
        ),
        StepView::ReportResults => colcon_invocation(
            workspace,
            log_tokens(false) + test_result_tokens(package, true, true),
        ),
    }
}

impl Step {
    /// Assembles the invocation for this step.
    pub fn invocation(&self, workspace: &str, package: &str, config: &Config) -> (invocation:
        Invocation)
        ensures
            invocation@ == step_invocation(self@, workspace@, package@, config@),
    {
        match self {
            Step::BuildDependencies => {
                let what = What::DependenciesFor(package.to_owned());
                ColconInvocation::new(workspace, false).build(&BuildOutput::default()).configure(
                    &config.upstream,
                ).select(&what)
            },
            Step::BuildPackage => {
                let what = What::ThisPackage(package.to_owned());
                ColconInvocation::new(workspace, false).build(&BuildOutput::default()).configure(
                    &config.package,
                ).select(&what)
            },
            Step::BuildTest(test) => ninja_build_target(workspace, package, test.as_str()),
            Step::RunTest(test) => single_ctest(workspace, package, test.as_str()),
            Step::RunTests => {
                let test = TestConfiguration {
                    package: package.to_owned(),
                    event_handlers: EventHandlers::silent(),
                };
                ColconInvocation::new(workspace, true).test(&test).finish()
            },
            Step::ReportResults => {
                let report = TestResultConfig {
                    package: package.to_owned(),
                    verbose: true,
                    all: true,
                };
                ColconInvocation::new(workspace, false).test_result(&report).finish()
            },
        }
    }
}

/// The line that announces `step` for `package` before it runs.
pub open spec fn step_title(step: StepView, package: Seq<char>) -> Seq<char> {
    match step {
        StepView::BuildDependencies => "Building dependencies for '"@ + package + "'"@,
        StepView::BuildPackage => "Building '"@ + package + "'"@,
        StepView::BuildTest(test) => "Building test '"@ + test + "' in '"@ + package + "'"@,
        StepView::RunTest(test) => "Running test '"@ + test + "' in '"@ + package + "'"@,
        StepView::RunTests => "Running tests for '"@ + package + "'"@,
        StepView::ReportResults => "Test results for '"@ + package + "'"@,
    }
}

impl Step {
    /// Writes the line that announces this step.
    pub fn title(&self, package: &str) -> (title: String)
        ensures
            title@ == step_title(self@, package@),
    {
        match self {
            Step::BuildDependencies => String::from_str("Building dependencies for '").concat(
                package,
            ).concat("'"),
            Step::BuildPackage => String::from_str("Building '").concat(package).concat("'"),
            Step::BuildTest(test) => String::from_str("Building test '").concat(
                test.as_str(),
            ).concat("' in '").concat(package).concat("'"),
            Step::RunTest(test) => String::from_str("Running test '").concat(
                test.as_str(),
            ).concat("' in '").concat(package).concat("'"),
            Step::RunTests => String::from_str("Running tests for '").concat(package).concat("'"),
            Step::ReportResults => String::from_str("Test results for '").concat(package).concat(
                "'",
            ),
        }
    }
}

/// What the user is told when `program` could not be launched.
pub open spec fn launch_failure(program: Seq<char>) -> Seq<char> {
    "'"@ + program + "' not found"@
}

/// Writes the message that names the executable that could not be
/// launched.
pub fn launch_failure_message(program: &str) -> (message: String)
    ensures
        message@ == launch_failure(program@),
{
    String::from_str("'").concat(program).concat("' not found")
}

/// What the caller is to do next.
#[derive(Clone, Copy, Debug, PartialEq, Eq, Structural)]
pub enum Progress {
    /// Run the step at this position of the plan, then report how it ended.
    Issue(usize),
    /// End the command with this exit code.
    Exit(i32),
}

/// The first thing to do for a plan of `len` steps.
pub open spec fn first_progress(len: usize) -> Progress {
    if len == 0 {
        Progress::Exit(0)
    } else {
        Progress::Issue(0)
    }
}

/// What to do after the step at position `current` of a plan of `len`
/// steps ended with `status`: stop with its code if it did not end well,
/// else issue the next step, and after the last one stop with success.
pub open spec fn next_progress(len: usize, current: usize, status: ProcessStatus) -> Progress {
    match exit_code_after(status) {
        Some(code) => Progress::Exit(code),
        None => if current + 1 < len {
            Progress::Issue((current + 1) as usize)
        } else {
            Progress::Exit(0)
        },
    }
}

/// Starts a plan.
pub fn begin(plan: &Vec<Step>) -> (progress: Progress)
    ensures
        progress == first_progress(plan.len()),
        progress matches Progress::Issue(i) ==> i < plan.len(),
{
    if plan.len() == 0 {
        Progress::Exit(0)
    } else {
        Progress::Issue(0)
    }
}

/// Moves a plan on after the step at position `current` ended with
/// `status`.
pub fn proceed(plan: &Vec<Step>, current: usize, status: ProcessStatus) -> (progress: Progress)
    ensures
        progress == next_progress(plan.len(), current, status),
        progress matches Progress::Issue(i) ==> i < plan.len(),
{
    match exit_on_error(status) {
        Some(code) => Progress::Exit(code),
        None => {
            if current < plan.len() && current + 1 < plan.len() {
                Progress::Issue(current + 1)
            } else {
                Progress::Exit(0)
            }
        },
    }
}

/// How a whole command went: how many steps of its plan were issued, the
/// first ones without a gap, and the code the command ended with.
pub struct Run {
    pub issued: nat,
    pub exit_code: i32,
}

/// The code that a process leaves to the command: its own, or the
/// reserved one where it has none.
pub open spec fn code_of(status: ProcessStatus) -> i32 {
    match status {
        ProcessStatus::Exited(code) => code,
        ProcessStatus::Terminated => FAILURE_EXIT_CODE,
        ProcessStatus::NotLaunched => FAILURE_EXIT_CODE,
    }
}

/// Whether a process ended well, so that the command may go on.
pub open spec fn ended_well(status: ProcessStatus) -> bool {
    exit_code_after(status) is None
}

/// The rest of a run, from the moment the step at position `current` is
/// issued. `statuses` tells how each step ends if it is run.
pub open spec fn run_from(len: usize, current: usize, statuses: spec_fn(int) -> ProcessStatus) -> Run
    decreases len - current,
{
    match next_progress(len, current, statuses(current as int)) {
        Progress::Issue(next) => run_from(len, next, statuses),
        Progress::Exit(code) => Run { issued: (current + 1) as nat, exit_code: code },
    }
}

/// The run of a plan of `len` steps: [`begin`], then [`proceed`] after
/// each step, until the command ends.
pub open spec fn run(len: usize, statuses: spec_fn(int) -> ProcessStatus) -> Run {
    match first_progress(len) {
        Progress::Issue(first) => run_from(len, first, statuses),
        Progress::Exit(code) => Run { issued: 0, exit_code: code },
    }
}

proof fn lemma_run_from_shape(len: usize, current: usize, statuses: spec_fn(int) -> ProcessStatus)
    requires
        current < len,
    ensures
        ({
            let r = run_from(len, current, statuses);
            &&& current < r.issued <= len
            &&& r.exit_code == code_of(statuses(r.issued - 1))
            &&& forall|j: int| current <= j < r.issued - 1 ==> ended_well(#[trigger] statuses(j))
            &&& r.issued < len ==> !ended_well(statuses(r.issued - 1))
        }),
    decreases len - current,
{
    match next_progress(len, current, statuses(current as int)) {
        Progress::Issue(next) => {
            lemma_run_from_shape(len, next, statuses);
        },
        Progress::Exit(code) => {},
    }
}

/// Every command fails fast. Of a plan that is not empty at least one step
/// is issued. Every issued step but the last ended well. If steps are
/// left over, the last issued one did not end well. The command's exit
/// code is the code of the last issued step, so it is zero exactly if that
/// step exited with zero.
pub proof fn lemma_run_is_fail_fast(len: usize, statuses: spec_fn(int) -> ProcessStatus)
    requires
        len > 0,
    ensures
        ({
            let r = run(len, statuses);
            &&& 1 <= r.issued <= len
            &&& r.exit_code == code_of(statuses(r.issued - 1))
            &&& forall|j: int| 0 <= j < r.issued - 1 ==> ended_well(#[trigger] statuses(j))
            &&& r.issued < len ==> !ended_well(statuses(r.issued - 1))
        }),
{
    lemma_run_from_shape(len, 0, statuses);
}

/// A step that does not end well ends the command on the spot: if the
/// step at position `k` is the first such step, exactly the steps up to
/// and including `k` are issued, and the command exits with its code.
pub proof fn lemma_run_stops_at_first_failure(
    len: usize,
    statuses: spec_fn(int) -> ProcessStatus,
    k: int,
)
    requires
        0 <= k < len,
        forall|j: int| 0 <= j < k ==> ended_well(#[trigger] statuses(j)),
        !ended_well(statuses(k)),
    ensures
        run(len, statuses) == (Run { issued: (k + 1) as nat, exit_code: code_of(statuses(k)) }),
{
    lemma_run_is_fail_fast(len, statuses);
    let r = run(len, statuses);
    if r.issued - 1 < k {
        assert(ended_well(statuses(r.issued - 1)));
    }
    if r.issued - 1 > k {
        assert(ended_well(statuses(k)));
    }
}

/// Where every step ends well, the whole plan is issued and the command
/// exits with zero.
pub proof fn lemma_run_completes(len: usize, statuses: spec_fn(int) -> ProcessStatus)
    requires
        forall|j: int| 0 <= j < len ==> ended_well(#[trigger] statuses(j)),
    ensures
        run(len, statuses) == (Run { issued: len as nat, exit_code: 0 }),
{
    if len > 0 {
        lemma_run_is_fail_fast(len, statuses);
        let r = run(len, statuses);
        assert(ended_well(statuses(r.issued - 1)));
    }
}

/// A build that does not skip the dependencies issues their build first.
/// If that does not end well, it stays the only step issued: the package
/// build is never issued, and the command exits with the code of the
/// dependency build.
pub proof fn lemma_failed_dependencies_end_build(
    package: Seq<char>,
    statuses: spec_fn(int) -> ProcessStatus,
)
    requires
        !ended_well(statuses(0)),
    ensures
        ({
            let steps = plan_of(CommandView::Build { package, skip_dependencies: false });
            let r = run(steps.len() as usize, statuses);
            &&& steps == seq![StepView::BuildDependencies, StepView::BuildPackage]
            &&& r.issued == 1
            &&& !steps.take(r.issued as int).contains(StepView::BuildPackage)
            &&& r.exit_code == code_of(statuses(0))
        }),
{
    let steps = plan_of(CommandView::Build { package, skip_dependencies: false });
    assert(steps =~= seq![StepView::BuildDependencies, StepView::BuildPackage]);
    lemma_run_stops_at_first_failure(2, statuses, 0);
    assert(steps.take(1) =~= seq![StepView::BuildDependencies]);
}

/// A build that skips the dependencies consists of one invocation, which
/// selects exactly the package; nothing is issued for the dependencies,
/// and the command exits with the code of that one invocation.
pub proof fn lemma_build_without_dependencies(
    package: Seq<char>,
    workspace: Seq<char>,
    config: ConfigView,
    statuses: spec_fn(int) -> ProcessStatus,
)
    ensures
        ({
            let steps = plan_of(CommandView::Build { package, skip_dependencies: true });
            let r = run(steps.len() as usize, statuses);
            let args = step_invocation(steps[0], workspace, package, config).args;
            &&& steps == seq![StepView::BuildPackage]
            &&& r.issued == 1
            &&& r.exit_code == code_of(statuses(0))
            &&& args.subrange(args.len() - 2, args.len() as int) == seq![
                "--packages-select"@,
                package,
            ]
        }),
{
    let steps = plan_of(CommandView::Build { package, skip_dependencies: true });
    assert(steps =~= seq![StepView::BuildPackage]);
    lemma_run_is_fail_fast(1, statuses);
    let args = step_invocation(steps[0], workspace, package, config).args;
    assert(args.subrange(args.len() - 2, args.len() as int) =~= seq![
        "--packages-select"@,
        package,
    ]);
}

/// Testing one named test without skipping the rebuild: the plan holds
/// exactly one step that rebuilds for the test, it builds the target of
/// that name and never the whole package, and the plan ends with the run
/// of the test. The build names the target as its last argument. The run
/// selects the test by a pattern that consists of `^`, the name and `$`,
/// so that the name is matched from its first to its last character and
/// a longer name does not match.
pub proof fn lemma_single_test_is_rebuilt_and_run_alone(
    package: Seq<char>,
    test: Seq<char>,
    rebuild_dependencies: bool,
    workspace: Seq<char>,
    config: ConfigView,
)
    ensures
        ({
            let steps = plan_of(
                CommandView::Test {
                    package,
                    test: Some(test),
                    skip_rebuild: false,
                    rebuild_dependencies,
                },
            );
            let at: int = if rebuild_dependencies {
                1
            } else {
                0
            };
            let build = step_invocation(StepView::BuildTest(test), workspace, package, config);
            let test_run = step_invocation(StepView::RunTest(test), workspace, package, config);
            let pattern = test_run.args.last();
            &&& steps.len() == at + 2
            &&& steps[at] == StepView::BuildTest(test)
            &&& steps[at + 1] == StepView::RunTest(test)
            &&& forall|i: int|
                0 <= i < steps.len() && i != at ==> !(#[trigger] steps[i] is BuildTest)
            &&& !steps.contains(StepView::BuildPackage)
            &&& build.args.last() == test
            &&& test_run.args[test_run.args.len() - 2] == "-R"@
            &&& pattern.len() == test.len() + 2
            &&& pattern.first() == '^'
            &&& pattern.last() == '$'
            &&& pattern.subrange(1, pattern.len() - 1) == test
        }),
{
    reveal_strlit("^");
    reveal_strlit("$");
    let steps = plan_of(
        CommandView::Test { package, test: Some(test), skip_rebuild: false, rebuild_dependencies },
    );
    let test_run = step_invocation(StepView::RunTest(test), workspace, package, config);
    let pattern = test_run.args.last();
    assert(pattern =~= seq!['^'] + test + seq!['$']);
    assert(pattern.subrange(1, pattern.len() - 1) =~= test);
}

} // verus!

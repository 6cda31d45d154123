use colb::orchestrate::{
    begin, exit_on_error, launch_failure_message, plan, proceed, Command, ProcessStatus,
    Progress, Step, FAILURE_EXIT_CODE,
};
use colb::pipeline::Invocation;
use colb::profile::Config;

fn build(package: &str, skip_dependencies: bool) -> Command {
    Command::Build { package: package.to_string(), skip_dependencies }
}

fn test(package: &str, name: Option<&str>, skip_rebuild: bool, rebuild_dependencies: bool) -> Command {
    Command::Test {
        package: package.to_string(),
        test: name.map(|n| n.to_string()),
        skip_rebuild,
        rebuild_dependencies,
    }
}

fn args_of(invocation: &Invocation) -> Vec<&str> {
    invocation.args().iter().map(|t| t.as_str()).collect()
}

/// Runs a command to its end. The i-th invocation issued ends with the
/// i-th status. Returns the invocations issued and the exit code.
fn run(command: &Command, package: &str, statuses: &[ProcessStatus]) -> (Vec<Invocation>, i32) {
    let config = Config::default();
    let steps = plan(command);
    let mut issued = Vec::new();
    let mut progress = begin(&steps);
    loop {
        match progress {
            Progress::Issue(i) => {
                issued.push(steps[i].invocation("/ws", package, &config));
                progress = proceed(&steps, i, statuses[issued.len() - 1]);
            }
            Progress::Exit(code) => return (issued, code),
        }
    }
}

#[test]
fn zero_exit_lets_the_command_go_on() {
    assert_eq!(exit_on_error(ProcessStatus::Exited(0)), None);
}

#[test]
fn non_zero_exit_ends_the_command_with_that_code() {
    assert_eq!(exit_on_error(ProcessStatus::Exited(1)), Some(1));
    assert_eq!(exit_on_error(ProcessStatus::Exited(2)), Some(2));
    assert_eq!(exit_on_error(ProcessStatus::Exited(-7)), Some(-7));
    assert_eq!(exit_on_error(ProcessStatus::Exited(i32::MAX)), Some(i32::MAX));
}

#[test]
fn process_without_code_ends_with_the_reserved_code() {
    assert_eq!(FAILURE_EXIT_CODE, -1);
    assert_eq!(exit_on_error(ProcessStatus::Terminated), Some(-1));
}

#[test]
fn launch_failure_ends_with_the_reserved_code() {
    assert_eq!(exit_on_error(ProcessStatus::NotLaunched), Some(-1));
}

#[test]
fn launch_failure_names_the_executable() {
    assert_eq!(launch_failure_message("colcon"), "'colcon' not found");
    assert_eq!(launch_failure_message("ninja"), "'ninja' not found");
}

#[test]
fn build_plan_with_dependencies() {
    assert_eq!(plan(&build("foo", false)), vec![Step::BuildDependencies, Step::BuildPackage]);
}

#[test]
fn build_plan_without_dependencies() {
    assert_eq!(plan(&build("foo", true)), vec![Step::BuildPackage]);
}

#[test]
fn test_plan_for_the_whole_package() {
    assert_eq!(
        plan(&test("foo", None, false, false)),
        vec![Step::BuildPackage, Step::RunTests, Step::ReportResults]
    );
}

#[test]
fn test_plan_with_dependencies() {
    assert_eq!(
        plan(&test("foo", None, false, true)),
        vec![Step::BuildDependencies, Step::BuildPackage, Step::RunTests, Step::ReportResults]
    );
}

#[test]
fn test_plan_without_rebuild() {
    assert_eq!(
        plan(&test("foo", None, true, false)),
        vec![Step::RunTests, Step::ReportResults]
    );
}

#[test]
fn skipping_the_rebuild_skips_the_dependencies_too() {
    assert_eq!(
        plan(&test("foo", None, true, true)),
        vec![Step::RunTests, Step::ReportResults]
    );
    assert_eq!(
        plan(&test("foo", Some("t"), true, true)),
        vec![Step::RunTest("t".to_string())]
    );
}

#[test]
fn single_test_plan() {
    assert_eq!(
        plan(&test("foo", Some("t"), false, false)),
        vec![Step::BuildTest("t".to_string()), Step::RunTest("t".to_string())]
    );
}

#[test]
fn single_test_plan_with_dependencies() {
    assert_eq!(
        plan(&test("foo", Some("t"), false, true)),
        vec![
            Step::BuildDependencies,
            Step::BuildTest("t".to_string()),
            Step::RunTest("t".to_string()),
        ]
    );
}

#[test]
fn single_test_plan_without_rebuild() {
    assert_eq!(plan(&test("foo", Some("t"), true, false)), vec![Step::RunTest("t".to_string())]);
}

#[test]
fn begin_issues_the_first_step() {
    assert_eq!(begin(&vec![Step::BuildPackage]), Progress::Issue(0));
}

#[test]
fn begin_of_an_empty_plan_is_success() {
    assert_eq!(begin(&vec![]), Progress::Exit(0));
}

#[test]
fn proceed_issues_the_next_step_after_success() {
    let steps = vec![Step::BuildDependencies, Step::BuildPackage];
    assert_eq!(proceed(&steps, 0, ProcessStatus::Exited(0)), Progress::Issue(1));
}

#[test]
fn proceed_ends_with_success_after_the_last_step() {
    let steps = vec![Step::BuildDependencies, Step::BuildPackage];
    assert_eq!(proceed(&steps, 1, ProcessStatus::Exited(0)), Progress::Exit(0));
}

#[test]
fn proceed_ends_at_once_on_failure() {
    let steps = vec![Step::BuildDependencies, Step::BuildPackage];
    assert_eq!(proceed(&steps, 0, ProcessStatus::Exited(3)), Progress::Exit(3));
    assert_eq!(proceed(&steps, 0, ProcessStatus::Terminated), Progress::Exit(-1));
    assert_eq!(proceed(&steps, 0, ProcessStatus::NotLaunched), Progress::Exit(-1));
    assert_eq!(proceed(&steps, 1, ProcessStatus::Exited(9)), Progress::Exit(9));
}

#[test]
fn proceed_past_the_end_is_harmless() {
    let steps = vec![Step::BuildPackage];
    assert_eq!(proceed(&steps, 5, ProcessStatus::Exited(0)), Progress::Exit(0));
    assert_eq!(proceed(&steps, usize::MAX, ProcessStatus::Exited(0)), Progress::Exit(0));
    assert_eq!(proceed(&steps, usize::MAX, ProcessStatus::Exited(4)), Progress::Exit(4));
}

#[test]
fn failed_dependency_build_ends_the_build() {
    let (issued, code) = run(&build("foo", false), "foo", &[ProcessStatus::Exited(2)]);
    assert_eq!(code, 2);
    assert_eq!(issued.len(), 1);
    let args = args_of(&issued[0]);
    assert_eq!(&args[args.len() - 4..], &["--packages-up-to", "foo", "--packages-skip", "foo"]);
    assert!(!args.contains(&"--packages-select"));
}

#[test]
fn killed_dependency_build_ends_the_build() {
    let (issued, code) = run(&build("foo", false), "foo", &[ProcessStatus::Terminated]);
    assert_eq!(code, -1);
    assert_eq!(issued.len(), 1);
}

#[test]
fn build_runs_dependencies_then_package() {
    let (issued, code) = run(
        &build("foo", false),
        "foo",
        &[ProcessStatus::Exited(0), ProcessStatus::Exited(0)],
    );
    assert_eq!(code, 0);
    assert_eq!(issued.len(), 2);
    let first = args_of(&issued[0]);
    let second = args_of(&issued[1]);
    assert!(first.contains(&"-DBUILD_TESTING=OFF"));
    assert_eq!(&first[first.len() - 4..], &["--packages-up-to", "foo", "--packages-skip", "foo"]);
    assert!(second.contains(&"-DBUILD_TESTING=ON"));
    assert_eq!(&second[second.len() - 2..], &["--packages-select", "foo"]);
}

#[test]
fn failed_package_build_gives_its_code() {
    let (issued, code) = run(
        &build("foo", false),
        "foo",
        &[ProcessStatus::Exited(0), ProcessStatus::Exited(5)],
    );
    assert_eq!(code, 5);
    assert_eq!(issued.len(), 2);
}

#[test]
fn build_with_skipped_dependencies_is_one_invocation() {
    let (issued, code) = run(&build("foo", true), "foo", &[ProcessStatus::Exited(0)]);
    assert_eq!(code, 0);
    assert_eq!(issued.len(), 1);
    assert_eq!(issued[0].program(), "colcon");
    let args = args_of(&issued[0]);
    assert_eq!(&args[args.len() - 2..], &["--packages-select", "foo"]);
    assert!(!args.contains(&"--packages-up-to"));
    assert!(!args.contains(&"--packages-skip"));
    let (issued, code) = run(&build("foo", true), "foo", &[ProcessStatus::Exited(17)]);
    assert_eq!(code, 17);
    assert_eq!(issued.len(), 1);
}

#[test]
fn single_test_rebuilds_only_its_target() {
    let (issued, code) = run(
        &test("pkg", Some("foo"), false, false),
        "pkg",
        &[ProcessStatus::Exited(0), ProcessStatus::Exited(0)],
    );
    assert_eq!(code, 0);
    assert_eq!(issued.len(), 2);
    assert_eq!(issued[0].program(), "ninja");
    assert_eq!(args_of(&issued[0]), vec!["-C", "/ws/build/pkg", "foo"]);
    assert_eq!(issued[1].program(), "ctest");
    assert_eq!(
        args_of(&issued[1]),
        vec!["--test-dir", "/ws/build/pkg", "--output-on-failure", "-R", "^foo$"]
    );
    assert_eq!(issued.iter().filter(|i| i.program() == "ninja").count(), 1);
    assert_eq!(issued.iter().filter(|i| i.program() == "colcon").count(), 0);
}

#[test]
fn single_test_with_dependencies_still_builds_one_target() {
    let (issued, code) = run(
        &test("pkg", Some("foo"), false, true),
        "pkg",
        &[ProcessStatus::Exited(0), ProcessStatus::Exited(0), ProcessStatus::Exited(0)],
    );
    assert_eq!(code, 0);
    assert_eq!(issued.len(), 3);
    assert_eq!(issued[0].program(), "colcon");
    assert!(args_of(&issued[0]).contains(&"--packages-up-to"));
    assert_eq!(issued[1].program(), "ninja");
    assert_eq!(issued[2].program(), "ctest");
    assert!(issued.iter().all(|i| !args_of(i).contains(&"--packages-select")));
}

#[test]
fn failed_target_build_runs_no_test() {
    let (issued, code) =
        run(&test("pkg", Some("foo"), false, false), "pkg", &[ProcessStatus::Exited(1)]);
    assert_eq!(code, 1);
    assert_eq!(issued.len(), 1);
    assert_eq!(issued[0].program(), "ninja");
}

#[test]
fn failing_single_test_gives_its_code() {
    let (issued, code) = run(
        &test("pkg", Some("foo"), false, false),
        "pkg",
        &[ProcessStatus::Exited(0), ProcessStatus::Exited(8)],
    );
    assert_eq!(code, 8);
    assert_eq!(issued.len(), 2);
}

#[test]
fn whole_suite_builds_tests_and_reports() {
    let (issued, code) = run(
        &test("pkg", None, false, false),
        "pkg",
        &[ProcessStatus::Exited(0), ProcessStatus::Exited(0), ProcessStatus::Exited(0)],
    );
    assert_eq!(code, 0);
    assert_eq!(issued.len(), 3);
    assert_eq!(args_of(&issued[0])[2], "build");
    assert_eq!(
        args_of(&issued[1]),
        vec![
            "--log-base",
            "log",
            "test",
            "--event-handlers",
            "summary-",
            "console_start_end-",
            "console_cohesion-",
            "desktop_notification-",
            "--ctest-args",
            "--output-on-failure",
            "--packages-select",
            "pkg",
        ]
    );
    assert_eq!(
        args_of(&issued[2]),
        vec![
            "--log-base",
            "/dev/null",
            "test-result",
            "--test-result-base",
            "build/pkg",
            "--verbose",
            "--all",
        ]
    );
}

#[test]
fn failing_suite_is_not_reported() {
    let (issued, code) = run(
        &test("pkg", None, false, false),
        "pkg",
        &[ProcessStatus::Exited(0), ProcessStatus::Exited(1)],
    );
    assert_eq!(code, 1);
    assert_eq!(issued.len(), 2);
}

#[test]
fn missing_tool_ends_the_command() {
    let (issued, code) = run(&test("pkg", None, true, false), "pkg", &[ProcessStatus::NotLaunched]);
    assert_eq!(code, -1);
    assert_eq!(issued.len(), 1);
}

#[test]
fn rebuild_for_tests_uses_the_stored_package_profile() {
    let mut config = Config::default();
    config.package.event_handlers.summary = true;
    config.package.cmake_args = vec!["-DX=1".to_string()];
    let for_test = Step::BuildPackage.invocation("/ws", "pkg", &config);
    let args = args_of(&for_test);
    assert!(args.contains(&"summary+"));
    assert!(args.contains(&"console_cohesion+"));
    assert!(args.contains(&"-DX=1"));
}

#[test]
fn dependencies_use_the_upstream_profile() {
    let mut config = Config::default();
    config.upstream.parallel_jobs = Some(3);
    config.package.parallel_jobs = Some(5);
    let deps = Step::BuildDependencies.invocation("/ws", "pkg", &config);
    let own = Step::BuildPackage.invocation("/ws", "pkg", &config);
    assert_eq!(args_of(&deps)[10], "3");
    assert_eq!(args_of(&own)[10], "5");
}

#[test]
fn step_titles() {
    assert_eq!(Step::BuildDependencies.title("foo"), "Building dependencies for 'foo'");
    assert_eq!(Step::BuildPackage.title("foo"), "Building 'foo'");
    assert_eq!(Step::BuildTest("t".to_string()).title("foo"), "Building test 't' in 'foo'");
    assert_eq!(Step::RunTest("t".to_string()).title("foo"), "Running test 't' in 'foo'");
    assert_eq!(Step::RunTests.title("foo"), "Running tests for 'foo'");
    assert_eq!(Step::ReportResults.title("foo"), "Test results for 'foo'");
}

//! The staged builder that turns a configuration into one concrete
//! invocation.
//!
//! Each stage is a type of its own. A stage can only be made by completing
//! the one before it, and advancing consumes it, so tokens cannot end up in
//! an order that the tool would read differently.

use vstd::prelude::*;
use crate::args::ArgStack;
use crate::profile::{
    BuildConfiguration, BuildConfigurationView, BuildOutput, TestConfiguration, TestResultConfig,
    What,
};
use crate::text::{join2, views};
use crate::tokens::{
    build_directory, build_tokens, cmake_arg, cmake_definition, configure_tokens, log_tokens,
    mixin_tokens, output_tokens, parallel_tokens, selection_tokens, test_result_tokens,
    test_tokens, testing_tokens,
};

verus! {

/// A finished command line: the program, its arguments in order, and the
/// directory to run it in (`None`: wherever the caller stands).
pub struct Invocation {
    program: String,
    args: Vec<String>,
    directory: Option<String>,
}

/// The mathematical content of an [`Invocation`].
pub struct InvocationView {
    pub program: Seq<char>,
    pub args: Seq<Seq<char>>,
    pub directory: Option<Seq<char>>,
}

impl View for Invocation {
    type V = InvocationView;

    closed spec fn view(&self) -> InvocationView {
        InvocationView {
            program: self.program@,
            args: views(self.args@),
            directory: match self.directory {
                Some(d) => Some(d@),
                None => None,
            },
        }
    }
}

impl Invocation {
    /// The executable to launch.
    pub fn program(&self) -> (program: &str)
        ensures
            program@ == self@.program,
    {
        self.program.as_str()
    }

    /// The arguments, in the order in which the program receives them.
    pub fn args(&self) -> (args: &Vec<String>)
        ensures
            views(args@) == self@.args,
    {
        &self.args
    }

    /// The working directory, if one is prescribed.
    pub fn directory(&self) -> (directory: Option<&str>)
        ensures
            directory.deep_view() == self@.directory,
    {
        match &self.directory {
            Some(d) => Some(d.as_str()),
            None => None,
        }
    }
}

/// The arguments as one text, a space before each.
pub open spec fn spaced(args: Seq<Seq<char>>) -> Seq<char>
    decreases args.len(),
{
    if args.len() == 0 {
        Seq::empty()
    } else {
        spaced(args.drop_last()) + " "@ + args.last()
    }
}

impl InvocationView {
    /// The command as an operator would type it: the program, then the
    /// arguments in order, separated by single spaces. Nothing is quoted.
    pub open spec fn command_line(self) -> Seq<char> {
        self.program + spaced(self.args)
    }
}

impl Invocation {
    /// Writes the command line, to be shown before the command runs.
    pub fn command_line(&self) -> (line: String)
        ensures
            line@ == self@.command_line(),
    {
        let mut line = self.program.clone();
        let mut i: usize = 0;
        while i < self.args.len()
            invariant
                i <= self.args.len(),
                line@ == self.program@ + spaced(views(self.args@).take(i as int)),
            decreases self.args.len() - i,
        {
            line.append(" ");
            line.append(self.args[i].as_str());
            proof {
                let upto = views(self.args@).take(i + 1);
                assert(upto.drop_last() =~= views(self.args@).take(i as int));
                assert(upto.last() == self.args@[i as int]@);
                assert(line@ =~= self.program@ + spaced(upto));
            }
            i += 1;
        }
        assert(views(self.args@).take(self.args.len() as int) =~= views(self.args@));
        line
    }
}

/// The workspace build tool's executable.
pub open spec fn colcon() -> Seq<char> {
    "colcon"@
}

/// The build tree of `package` as a path through `workspace`.
pub open spec fn package_build_path(workspace: Seq<char>, package: Seq<char>) -> Seq<char> {
    workspace + "/"@ + build_directory(package)
}

/// A test name as a pattern that matches that name and no other: anchored
/// at its start and at its end.
pub open spec fn exact_name_pattern(target: Seq<char>) -> Seq<char> {
    "^"@ + target + "$"@
}

/// The low-level build of one target in the build tree of `package`.
pub open spec fn ninja_invocation(
    workspace: Seq<char>,
    package: Seq<char>,
    target: Seq<char>,
) -> InvocationView {
    InvocationView {
        program: "ninja"@,
        args: seq!["-C"@, package_build_path(workspace, package), target],
        directory: None,
    }
}

/// The run of the one test named `target` from the build tree of
/// `package`, with the output of a failing test shown.
pub open spec fn ctest_invocation(
    workspace: Seq<char>,
    package: Seq<char>,
    target: Seq<char>,
) -> InvocationView {
    InvocationView {
        program: "ctest"@,
        args: seq![
            "--test-dir"@,
            package_build_path(workspace, package),
            "--output-on-failure"@,
            "-R"@,
            exact_name_pattern(target),
        ],
        directory: None,
    }
}

fn build_path(workspace: &str, package: &str) -> (path: String)
    ensures
        path@ == package_build_path(workspace@, package@),
{
    let tree = join2("build/", package);
    String::from_str(workspace).concat("/").concat(tree.as_str())
}

/// The invocation that builds the single target `target` of `package`,
/// without touching the rest of the package.
pub fn ninja_build_target(workspace: &str, package: &str, target: &str) -> (invocation: Invocation)
    ensures
        invocation@ == ninja_invocation(workspace@, package@, target@),
{
    let mut args: Vec<String> = Vec::new();
    args.push("-C".to_owned());
    args.push(build_path(workspace, package));
    args.push(target.to_owned());
    assert(views(args@) =~= ninja_invocation(workspace@, package@, target@).args);
    Invocation { program: "ninja".to_owned(), args, directory: None }
}

/// The invocation that runs the test named exactly `target` of `package`.
pub fn single_ctest(workspace: &str, package: &str, target: &str) -> (invocation: Invocation)
    ensures
        invocation@ == ctest_invocation(workspace@, package@, target@),
{
    let mut args: Vec<String> = Vec::new();
    args.push("--test-dir".to_owned());
    args.push(build_path(workspace, package));
    args.push("--output-on-failure".to_owned());
    args.push("-R".to_owned());
    args.push(String::from_str("^").concat(target).concat("$"));
    assert(views(args@) =~= ctest_invocation(workspace@, package@, target@).args);
    Invocation { program: "ctest".to_owned(), args, directory: None }
}

/// First stage: the log destination is fixed, no verb is chosen yet.
pub struct ColconInvocation {
    args: ArgStack,
    workspace: String,
}

/// The build verb is chosen; the profile is still to be applied.
pub struct BuildVerb {
    args: ArgStack,
    workspace: String,
}

/// A verb that needs no profile; its tokens are complete.
pub struct BasicVerb {
    args: ArgStack,
    workspace: String,
}

/// A build with its profile applied; only the package selection is missing.
pub struct ConfiguredBuild {
    args: ArgStack,
    workspace: String,
}

impl ColconInvocation {
    /// The tokens gathered so far.
    pub closed spec fn tokens(&self) -> Seq<Seq<char>> {
        self.args@
    }

    /// The workspace the invocation will run in.
    pub closed spec fn workspace(&self) -> Seq<char> {
        self.workspace@
    }

    /// Starts an invocation for `workspace`. With `log` the tool keeps its
    /// log in the workspace, without it the log is discarded.
    pub fn new(workspace: &str, log: bool) -> (base: ColconInvocation)
        ensures
            base.tokens() == log_tokens(log),
            base.workspace() == workspace@,
    {
        let mut args = ArgStack::default();
        args.arg("--log-base");
        if log {
            args.arg("log");
        } else {
            args.arg("/dev/null");
        }
        assert(args@ =~= log_tokens(log));
        ColconInvocation { args, workspace: workspace.to_owned() }
    }

    /// Chooses the build verb and fixes where build and install trees go.
    pub fn build(self, base_setup: &BuildOutput) -> (verb: BuildVerb)
        ensures
            verb.tokens() == self.tokens() + build_tokens(*base_setup),
            verb.workspace() == self.workspace(),
    {
        let ghost before = self.args@;
        let mut res = BuildVerb { args: self.args, workspace: self.workspace };
        res.args.arg("build");
        res.args.arg("--build-base").arg("build").arg("--install-base").arg("install");
        if base_setup.symlink {
            res.args.arg("--symlink-install");
        }
        if base_setup.merge {
            res.args.arg("--merge-install");
        }
        assert(res.args@ =~= before + build_tokens(*base_setup));
        res
    }

    /// Chooses the test verb for one package.
    pub fn test(self, config: &TestConfiguration) -> (verb: BasicVerb)
        ensures
            verb.tokens() == self.tokens() + test_tokens(config.package@, config.event_handlers),
            verb.workspace() == self.workspace(),
    {
        let ghost before = self.args@;
        let mut res = BasicVerb { args: self.args, workspace: self.workspace };
        res.args.arg("test");
        config.event_handlers.apply(&mut res.args);
        res.args.arg("--ctest-args").arg("--output-on-failure");
        res.args.arg("--packages-select").arg(config.package.as_str());
        assert(res.args@ =~= before + test_tokens(config.package@, config.event_handlers));
        res
    }

    /// Chooses the verb that reports the recorded test results of one
    /// package. Nothing is run again.
    pub fn test_result(self, config: &TestResultConfig) -> (verb: BasicVerb)
        ensures
            verb.tokens() == self.tokens() + test_result_tokens(
                config.package@,
                config.verbose,
                config.all,
            ),
            verb.workspace() == self.workspace(),
    {
        let ghost before = self.args@;
        let mut res = BasicVerb { args: self.args, workspace: self.workspace };
        res.args.arg("test-result");
        res.args.arg("--test-result-base").arg(join2("build/", config.package.as_str()).as_str());
        if config.verbose {
            res.args.arg("--verbose");
        }
        if config.all {
            res.args.arg("--all");
        }
        assert(res.args@ =~= before + test_result_tokens(
            config.package@,
            config.verbose,
            config.all,
        ));
        res
    }
}

impl BuildVerb {
    /// The tokens gathered so far.
    pub closed spec fn tokens(&self) -> Seq<Seq<char>> {
        self.args@
    }

    /// The workspace the invocation will run in.
    pub closed spec fn workspace(&self) -> Seq<char> {
        self.workspace@
    }

    /// Applies a profile. The groups are appended in the one order in which
    /// the tool reads them as meant, the build type last.
    pub fn configure(self, config: &BuildConfiguration) -> (build: ConfiguredBuild)
        ensures
            build.tokens() == self.tokens() + configure_tokens(config@),
            build.workspace() == self.workspace(),
    {
        let ghost before = self.args@;
        let mut res = ConfiguredBuild { args: self.args, workspace: self.workspace };
        if let Some(n) = config.parallel_jobs {
            let n_arg = crate::text::decimal_string(n);
            res.args.arg("--executor").arg("parallel").arg("--parallel-workers").arg(
                n_arg.as_str(),
            );
        }
        config.event_handlers.apply(&mut res.args);
        if !config.mixins.is_empty() {
            res.args.arg("--mixin").args(config.mixins.as_slice());
        }
        res.args.arg("--cmake-args");
        res.args.arg(
            cmake_arg(
                "BUILD_TESTING",
                if config.build_tests {
                    "ON"
                } else {
                    "OFF"
                },
            ).as_str(),
        );
        res.args.args(config.cmake_args.as_slice());
        res.args.arg(config.build_type.definition_arg().as_str());
        assert(res.args@ =~= before + configure_tokens(config@));
        res
    }
}

impl ConfiguredBuild {
    /// The tokens gathered so far.
    pub closed spec fn tokens(&self) -> Seq<Seq<char>> {
        self.args@
    }

    /// The workspace the invocation will run in.
    pub closed spec fn workspace(&self) -> Seq<char> {
        self.workspace@
    }

    /// Last stage of a build: appends the package filters for `what` and
    /// hands out the finished invocation, to be run in the workspace.
    pub fn select(self, what: &What) -> (invocation: Invocation)
        ensures
            invocation@ == (InvocationView {
                program: colcon(),
                args: self.tokens() + selection_tokens(what@),
                directory: Some(self.workspace()),
            }),
    {
        let ghost before = self.args@;
        let mut args = self.args;
        match what {
            What::DependenciesFor(package) => {
                args.arg("--packages-up-to").arg(package.as_str());
                args.arg("--packages-skip").arg(package.as_str());
            },
            What::ThisPackage(package) => {
                args.arg("--packages-select").arg(package.as_str());
            },
        }
        assert(args@ =~= before + selection_tokens(what@));
        Invocation {
            program: "colcon".to_owned(),
            args: args.into_tokens(),
            directory: Some(self.workspace),
        }
    }
}

impl BasicVerb {
    /// The tokens gathered so far.
    pub closed spec fn tokens(&self) -> Seq<Seq<char>> {
        self.args@
    }

    /// The workspace the invocation will run in.
    pub closed spec fn workspace(&self) -> Seq<char> {
        self.workspace@
    }

    /// Hands out the finished invocation, to be run in the workspace.
    pub fn finish(self) -> (invocation: Invocation)
        ensures
            invocation@ == (InvocationView {
                program: colcon(),
                args: self.tokens(),
                directory: Some(self.workspace()),
            }),
    {
        Invocation {
            program: "colcon".to_owned(),
            args: self.args.into_tokens(),
            directory: Some(self.workspace),
        }
    }
}

/// The order of a configured build. Whatever went through the three
/// stages, base, build verb and profile, holds its tokens in this order:
/// the log destination; the verb; the output locations; the parallelism
/// tokens, present only with a worker count; the handler flag with all
/// four switches; the mixin flag with the mixins, present only with a
/// mixin; the pass-through flag, once, with the test switch; the
/// profile's own pass-through arguments; and the build-type definition
/// last.
pub proof fn lemma_configured_build_order(
    base: ColconInvocation,
    verb: BuildVerb,
    build: ConfiguredBuild,
    log: bool,
    output: BuildOutput,
    profile: BuildConfigurationView,
)
    requires
        base.tokens() == log_tokens(log),
        verb.tokens() == base.tokens() + build_tokens(output),
        build.tokens() == verb.tokens() + configure_tokens(profile),
    ensures
        build.tokens() == log_tokens(log) + seq!["build"@] + output_tokens(output)
            + parallel_tokens(profile.parallel_jobs) + profile.event_handlers.tokens()
            + mixin_tokens(profile.mixins) + testing_tokens(profile.build_tests)
            + profile.cmake_args + seq![profile.build_type.definition()],
        log_tokens(log).len() == 2,
        profile.parallel_jobs is None ==> parallel_tokens(profile.parallel_jobs).len() == 0,
        profile.parallel_jobs is Some ==> parallel_tokens(profile.parallel_jobs).len() == 4,
        profile.event_handlers.tokens().len() == 5,
        profile.mixins.len() == 0 ==> mixin_tokens(profile.mixins).len() == 0,
        profile.mixins.len() > 0 ==> mixin_tokens(profile.mixins) == seq!["--mixin"@]
            + profile.mixins,
        testing_tokens(profile.build_tests).len() == 2,
        build.tokens().last() == cmake_definition(
            "CMAKE_BUILD_TYPE"@,
            profile.build_type.name(),
        ),
{
    let flat = log_tokens(log) + seq!["build"@] + output_tokens(output) + parallel_tokens(
        profile.parallel_jobs,
    ) + profile.event_handlers.tokens() + mixin_tokens(profile.mixins) + testing_tokens(
        profile.build_tests,
    ) + profile.cmake_args + seq![profile.build_type.definition()];
    assert(build.tokens() =~= flat);
}

} // verus!

//! The token grammar of the build tool: which tokens stand for which piece
//! of configuration, and in which order each group is written.
//!
//! The tool reads its arguments by position, so every function here fixes
//! an order, not just a set of tokens.

use vstd::prelude::*;
use crate::args::ArgStack;
use crate::profile::{
    BuildConfigurationView, BuildOutput, BuildType, EventHandlers, WhatView,
};
use crate::text::{decimal, join2};

verus! {

/// A handler switch as the tool reads it: the handler's name, then `+` to
/// enable it or `-` to disable it.
pub open spec fn handler_token(name: Seq<char>, enabled: bool) -> Seq<char> {
    name + if enabled {
        "+"@
    } else {
        "-"@
    }
}

/// A definition for the build system: `-D`, the name, `=`, the value.
pub open spec fn cmake_definition(name: Seq<char>, value: Seq<char>) -> Seq<char> {
    "-D"@ + name + "="@ + value
}

/// Writes the switch for one event handler.
pub fn handler_str(name: &str, enabled: bool) -> (token: String)
    ensures
        token@ == handler_token(name@, enabled),
{
    join2(
        name,
        if enabled {
            "+"
        } else {
            "-"
        },
    )
}

/// Writes one definition for the build system.
pub fn cmake_arg(name: &str, value: &str) -> (token: String)
    ensures
        token@ == cmake_definition(name@, value@),
{
    String::from_str("-D").concat(name).concat("=").concat(value)
}

impl EventHandlers {
    /// The handler flag followed by the four switches, always in the order
    /// summary, start/end lines, compile log, desktop notification.
    pub open spec fn tokens(self) -> Seq<Seq<char>> {
        seq![
            "--event-handlers"@,
            handler_token("summary"@, self.summary),
            handler_token("console_start_end"@, self.console_start_end),
            handler_token("console_cohesion"@, self.console_cohesion),
            handler_token("desktop_notification"@, self.desktop_notification),
        ]
    }

    /// Appends the handler flag and the four switches.
    pub fn apply(&self, args: &mut ArgStack)
        ensures
            final(args)@ == old(args)@ + self.tokens(),
    {
        args.arg("--event-handlers");
        args.arg(handler_str("summary", self.summary).as_str());
        args.arg(handler_str("console_start_end", self.console_start_end).as_str());
        args.arg(handler_str("console_cohesion", self.console_cohesion).as_str());
        args.arg(handler_str("desktop_notification", self.desktop_notification).as_str());
        assert(args@ =~= old(args)@ + self.tokens());
    }
}

impl BuildType {
    /// The build system's name for this mode.
    pub open spec fn name(self) -> Seq<char> {
        match self {
            BuildType::Debug => "Debug"@,
            BuildType::Release => "Release"@,
            BuildType::RelWithDebInfo => "RelWithDebInfo"@,
        }
    }

    /// The definition that sets this mode.
    pub open spec fn definition(self) -> Seq<char> {
        cmake_definition("CMAKE_BUILD_TYPE"@, self.name())
    }

    /// The pass-through flag followed by the build-type definition: what
    /// sets the mode where no pass-through flag stands yet.
    pub open spec fn tokens(self) -> Seq<Seq<char>> {
        seq!["--cmake-args"@, self.definition()]
    }

    /// Writes the build system's name for this mode.
    pub fn label(&self) -> (name: &'static str)
        ensures
            name@ == self.name(),
    {
        match self {
            BuildType::Debug => "Debug",
            BuildType::Release => "Release",
            BuildType::RelWithDebInfo => "RelWithDebInfo",
        }
    }

    /// Writes the definition that sets this mode.
    pub fn definition_arg(&self) -> (token: String)
        ensures
            token@ == self.definition(),
    {
        cmake_arg("CMAKE_BUILD_TYPE", self.label())
    }

    /// Appends the pass-through flag and the build-type definition.
    pub fn apply(&self, cmd: &mut ArgStack)
        ensures
            final(cmd)@ == old(cmd)@ + self.tokens(),
    {
        cmd.arg("--cmake-args");
        cmd.arg(self.definition_arg().as_str());
        assert(cmd@ =~= old(cmd)@ + self.tokens());
    }
}

/// Where the tool writes its log: a directory in the workspace, or nowhere.
pub open spec fn log_tokens(log: bool) -> Seq<Seq<char>> {
    seq![
        "--log-base"@,
        if log {
            "log"@
        } else {
            "/dev/null"@
        },
    ]
}

/// Where the build verb puts its trees, then the install options that are
/// switched on.
pub open spec fn output_tokens(output: BuildOutput) -> Seq<Seq<char>> {
    seq!["--build-base"@, "build"@, "--install-base"@, "install"@] + (if output.symlink {
        seq!["--symlink-install"@]
    } else {
        Seq::empty()
    }) + (if output.merge {
        seq!["--merge-install"@]
    } else {
        Seq::empty()
    })
}

/// The build verb followed by its output locations.
pub open spec fn build_tokens(output: BuildOutput) -> Seq<Seq<char>> {
    seq!["build"@] + output_tokens(output)
}

/// The parallel executor and its worker count, if a count is configured.
pub open spec fn parallel_tokens(jobs: Option<u32>) -> Seq<Seq<char>> {
    match jobs {
        Some(n) => seq!["--executor"@, "parallel"@, "--parallel-workers"@, decimal(n as nat)],
        None => Seq::empty(),
    }
}

/// The mixin flag followed by every mixin, if there is any mixin.
pub open spec fn mixin_tokens(mixins: Seq<Seq<char>>) -> Seq<Seq<char>> {
    if mixins.len() == 0 {
        Seq::empty()
    } else {
        seq!["--mixin"@] + mixins
    }
}

/// The pass-through flag followed by the definition that switches the
/// compilation of tests on or off.
pub open spec fn testing_tokens(build_tests: bool) -> Seq<Seq<char>> {
    seq![
        "--cmake-args"@,
        cmake_definition(
            "BUILD_TESTING"@,
            if build_tests {
                "ON"@
            } else {
                "OFF"@
            },
        ),
    ]
}

/// Everything the configure stage appends for a profile: parallelism,
/// event handlers, mixins, then the pass-through flag, written once, with
/// all that is passed through behind it: the test switch, the profile's
/// own pass-through arguments, and the build-type definition last, where
/// no pass-through argument can follow it.
pub open spec fn configure_tokens(profile: BuildConfigurationView) -> Seq<Seq<char>> {
    parallel_tokens(profile.parallel_jobs) + profile.event_handlers.tokens() + mixin_tokens(
        profile.mixins,
    ) + testing_tokens(profile.build_tests) + profile.cmake_args + seq![
        profile.build_type.definition(),
    ]
}

/// The package filters of a build. For dependencies: everything up to the
/// package, then the package itself skipped. Otherwise the package alone.
pub open spec fn selection_tokens(what: WhatView) -> Seq<Seq<char>> {
    match what {
        WhatView::DependenciesFor(package) => seq![
            "--packages-up-to"@,
            package,
            "--packages-skip"@,
            package,
        ],
        WhatView::ThisPackage(package) => seq!["--packages-select"@, package],
    }
}

/// The test verb, the handler flag with its four switches, the options
/// for the test driver, and the package filter last.
pub open spec fn test_tokens(package: Seq<char>, handlers: EventHandlers) -> Seq<Seq<char>> {
    seq!["test"@] + handlers.tokens() + seq![
        "--ctest-args"@,
        "--output-on-failure"@,
        "--packages-select"@,
        package,
    ]
}

/// The directory below the workspace that holds a package's build tree.
pub open spec fn build_directory(package: Seq<char>) -> Seq<char> {
    "build/"@ + package
}

/// The report verb, the package's recorded results, then the report
/// options that are switched on.
pub open spec fn test_result_tokens(package: Seq<char>, verbose: bool, all: bool) -> Seq<
    Seq<char>,
> {
    seq!["test-result"@, "--test-result-base"@, build_directory(package)] + (if verbose {
        seq!["--verbose"@]
    } else {
        Seq::empty()
    }) + (if all {
        seq!["--all"@]
    } else {
        Seq::empty()
    })
}

} // verus!

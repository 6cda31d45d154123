//! Build and test configuration: what a profile holds, its named presets,
//! and the mathematical view that the token grammar is stated over.

use vstd::prelude::*;
use crate::text::views;

verus! {

/// The compilation mode handed to the build system.
#[derive(Clone, Copy, Debug, PartialEq, Eq, Structural)]
pub enum BuildType {
    Debug,
    Release,
    RelWithDebInfo,
}

/// Four independent switches, one per category of build-tool output.
/// Every combination is valid; the presets are shorthands.
#[derive(Clone, Copy, Debug, PartialEq, Eq, Structural)]
pub struct EventHandlers {
    pub desktop_notification: bool,
    pub console_cohesion: bool,
    pub summary: bool,
    pub console_start_end: bool,
}

impl Default for EventHandlers {
    /// The tool's usual chatter: summary and start/end lines, nothing else.
    fn default() -> (handlers: EventHandlers)
        ensures
            handlers == EventHandlers::default_preset(),
    {
        EventHandlers {
            desktop_notification: false,
            console_cohesion: false,
            summary: true,
            console_start_end: true,
        }
    }
}

impl EventHandlers {
    /// Summary and start/end lines on, the rest off.
    pub open spec fn default_preset() -> EventHandlers {
        EventHandlers {
            desktop_notification: false,
            console_cohesion: false,
            summary: true,
            console_start_end: true,
        }
    }

    /// Every switch off.
    pub open spec fn silent_preset() -> EventHandlers {
        EventHandlers {
            desktop_notification: false,
            console_cohesion: false,
            summary: false,
            console_start_end: false,
        }
    }

    /// Every switch off but the per-package compile log.
    pub open spec fn compile_logs_only_preset() -> EventHandlers {
        EventHandlers { console_cohesion: true, ..EventHandlers::silent_preset() }
    }

    /// Every switch off.
    pub fn silent() -> (handlers: EventHandlers)
        ensures
            handlers == EventHandlers::silent_preset(),
    {
        EventHandlers {
            desktop_notification: false,
            console_cohesion: false,
            summary: false,
            console_start_end: false,
        }
    }

    /// The silent preset with the per-package compile log switched on.
    pub fn compile_logs_only() -> (handlers: EventHandlers)
        ensures
            handlers == EventHandlers::compile_logs_only_preset(),
    {
        let mut res = EventHandlers::silent();
        res.console_cohesion = true;
        res
    }
}

/// Where the build verb puts what it installs.
#[derive(Clone, Copy, Debug, PartialEq, Eq, Structural)]
pub struct BuildOutput {
    pub symlink: bool,
    pub merge: bool,
}

impl Default for BuildOutput {
    /// Plain copies, one install tree per package.
    fn default() -> (output: BuildOutput)
        ensures
            output == (BuildOutput { symlink: false, merge: false }),
    {
        BuildOutput { symlink: false, merge: false }
    }
}

/// One build profile: everything the configure stage turns into tokens.
#[derive(Debug, PartialEq, Eq)]
pub struct BuildConfiguration {
    /// Names of tool extensions, applied in this order.
    pub mixins: Vec<String>,
    /// Arguments passed through to the build system as they are.
    pub cmake_args: Vec<String>,
    pub build_type: BuildType,
    /// Number of parallel workers; `None` leaves the tool's own choice.
    pub parallel_jobs: Option<u32>,
    pub event_handlers: EventHandlers,
    /// Whether the package's tests are compiled as well.
    pub build_tests: bool,
}

/// The mathematical content of a [`BuildConfiguration`].
pub struct BuildConfigurationView {
    pub mixins: Seq<Seq<char>>,
    pub cmake_args: Seq<Seq<char>>,
    pub build_type: BuildType,
    pub parallel_jobs: Option<u32>,
    pub event_handlers: EventHandlers,
    pub build_tests: bool,
}

impl View for BuildConfiguration {
    type V = BuildConfigurationView;

    open spec fn view(&self) -> BuildConfigurationView {
        BuildConfigurationView {
            mixins: views(self.mixins@),
            cmake_args: views(self.cmake_args@),
            build_type: self.build_type,
            parallel_jobs: self.parallel_jobs,
            event_handlers: self.event_handlers,
            build_tests: self.build_tests,
        }
    }
}

/// The mixins that both presets activate, in activation order.
pub open spec fn default_mixins() -> Seq<Seq<char>> {
    seq!["compile-commands"@, "ninja"@, "mold"@, "ccache"@]
}

/// The default mixins are four different names.
pub proof fn lemma_default_mixins_distinct()
    ensures
        default_mixins().len() == 4,
        default_mixins().no_duplicates(),
{
    reveal_strlit("compile-commands");
    reveal_strlit("ninja");
    reveal_strlit("mold");
    reveal_strlit("ccache");
    assert("compile-commands"@.len() == 16);
    assert("ninja"@.len() == 5);
    assert("mold"@.len() == 4);
    assert("ccache"@.len() == 6);
}

fn default_mixin_names() -> (names: Vec<String>)
    ensures
        views(names@) == default_mixins(),
{
    let mut names: Vec<String> = Vec::new();
    names.push("compile-commands".to_owned());
    names.push("ninja".to_owned());
    names.push("mold".to_owned());
    names.push("ccache".to_owned());
    assert(views(names@) =~= default_mixins());
    names
}

impl BuildConfigurationView {
    /// What the data model asks of a profile: no mixin is named twice, and a
    /// configured worker count is positive.
    pub open spec fn well_formed(self) -> bool {
        &&& self.mixins.no_duplicates()
        &&& self.parallel_jobs matches Some(n) ==> n > 0
    }

    /// The preset for building what the active package depends on.
    pub open spec fn upstream() -> BuildConfigurationView {
        BuildConfigurationView {
            mixins: default_mixins(),
            cmake_args: Seq::empty(),
            build_type: BuildType::Debug,
            parallel_jobs: Some(8u32),
            event_handlers: EventHandlers::default_preset(),
            build_tests: false,
        }
    }

    /// The preset for building the active package itself.
    pub open spec fn active() -> BuildConfigurationView {
        BuildConfigurationView {
            mixins: default_mixins(),
            cmake_args: Seq::empty(),
            build_type: BuildType::Debug,
            parallel_jobs: Some(8u32),
            event_handlers: EventHandlers::compile_logs_only_preset(),
            build_tests: true,
        }
    }
}

impl BuildConfiguration {
    /// Checks what the data model asks of a profile. The pipeline accepts
    /// any profile; this is for callers that want to warn about one that
    /// was stored by hand.
    pub fn is_well_formed(&self) -> (ok: bool)
        ensures
            ok == self@.well_formed(),
    {
        if let Some(n) = self.parallel_jobs {
            if n == 0 {
                return false;
            }
        }
        let ghost names = views(self.mixins@);
        let mut i: usize = 0;
        while i < self.mixins.len()
            invariant
                i <= self.mixins.len(),
                names == views(self.mixins@),
                forall|a: int, b: int| 0 <= a < b < i ==> names[a] != names[b],
            decreases self.mixins.len() - i,
        {
            let mut j: usize = 0;
            while j < i
                invariant
                    j <= i < self.mixins.len(),
                    names == views(self.mixins@),
                    forall|a: int| 0 <= a < j ==> names[a] != names[i as int],
                decreases i - j,
            {
                if self.mixins[j] == self.mixins[i] {
                    assert(names[j as int] == names[i as int]);
                    return false;
                }
                j += 1;
            }
            i += 1;
        }
        assert forall|a: int, b: int|
            0 <= a < names.len() && 0 <= b < names.len() && a != b implies names[a]
            != names[b] by {
            if a < b {
                assert(names[a] != names[b]);
            } else {
                assert(names[b] != names[a]);
            }
        }
        true
    }

    /// A fresh profile for upstream packages: tests are not compiled and the
    /// tool reports as it usually does.
    pub fn upstream() -> (profile: BuildConfiguration)
        ensures
            profile@ == BuildConfigurationView::upstream(),
            profile@.well_formed(),
    {
        proof {
            lemma_default_mixins_distinct();
        }
        let profile = BuildConfiguration {
            mixins: default_mixin_names(),
            cmake_args: Vec::new(),
            build_type: BuildType::Debug,
            parallel_jobs: Some(8),
            event_handlers: EventHandlers::default(),
            build_tests: false,
        };
        assert(views(profile.cmake_args@) =~= Seq::<Seq<char>>::empty());
        profile
    }

    /// A fresh profile for the active package: tests are compiled and only
    /// the compile log reaches the console.
    pub fn active() -> (profile: BuildConfiguration)
        ensures
            profile@ == BuildConfigurationView::active(),
            profile@.well_formed(),
    {
        proof {
            lemma_default_mixins_distinct();
        }
        let profile = BuildConfiguration {
            mixins: default_mixin_names(),
            cmake_args: Vec::new(),
            build_type: BuildType::Debug,
            parallel_jobs: Some(8),
            event_handlers: EventHandlers::compile_logs_only(),
            build_tests: true,
        };
        assert(views(profile.cmake_args@) =~= Seq::<Seq<char>>::empty());
        profile
    }
}

/// The two profiles of a workspace.
#[derive(Debug, PartialEq, Eq)]
pub struct Config {
    /// Used when building the packages that the active one depends on.
    pub upstream: BuildConfiguration,
    /// Used when building the active package.
    pub package: BuildConfiguration,
}

/// The mathematical content of a [`Config`].
pub struct ConfigView {
    pub upstream: BuildConfigurationView,
    pub package: BuildConfigurationView,
}

impl View for Config {
    type V = ConfigView;

    open spec fn view(&self) -> ConfigView {
        ConfigView { upstream: self.upstream@, package: self.package@ }
    }
}

impl ConfigView {
    /// The configuration of a workspace that has none stored.
    pub open spec fn default_pair() -> ConfigView {
        ConfigView {
            upstream: BuildConfigurationView::upstream(),
            package: BuildConfigurationView::active(),
        }
    }
}

impl Default for Config {
    /// Both presets, freshly made.
    fn default() -> (config: Config)
        ensures
            config@ == ConfigView::default_pair(),
    {
        Config { upstream: BuildConfiguration::upstream(), package: BuildConfiguration::active() }
    }
}

/// What the test verb needs to know.
#[derive(Debug, PartialEq, Eq)]
pub struct TestConfiguration {
    pub package: String,
    pub event_handlers: EventHandlers,
}

/// What the result-report verb needs to know.
#[derive(Debug, PartialEq, Eq)]
pub struct TestResultConfig {
    pub package: String,
    pub verbose: bool,
    pub all: bool,
}

/// Which packages a build invocation selects. It is given last, once the
/// build tool itself is fully configured.
#[derive(Debug, PartialEq, Eq)]
pub enum What {
    /// Everything the package needs, the package itself left out.
    DependenciesFor(String),
    /// The package and nothing else.
    ThisPackage(String),
}

/// The mathematical content of a [`What`].
pub enum WhatView {
    DependenciesFor(Seq<char>),
    ThisPackage(Seq<char>),
}

impl View for What {
    type V = WhatView;

    open spec fn view(&self) -> WhatView {
        match self {
            What::DependenciesFor(package) => WhatView::DependenciesFor(package@),
            What::ThisPackage(package) => WhatView::ThisPackage(package@),
        }
    }
}

} // verus!

//! The stored configuration of a workspace: what to do with what was read,
//! and whether a fresh file may be written.
//!
//! Reading, parsing and writing the file are the caller's part. A missing
//! file is no error: the defaults stand in for it. A file that is there but
//! cannot be read or understood is fatal.

use vstd::prelude::*;
use crate::locate::COLB_CONFIG_FILENAME;
use crate::orchestrate::FAILURE_EXIT_CODE;
use crate::profile::{Config, ConfigView};
use crate::text::join2;

verus! {

/// What the caller found where a workspace keeps its configuration.
#[derive(Debug, PartialEq, Eq)]
pub enum StoredConfig {
    /// There is no file.
    Absent,
    /// There is a file, but reading it failed as described.
    Unreadable(String),
    /// The file was read, but it is no configuration; the text says why.
    Malformed(String),
    /// The file holds this configuration.
    Parsed(Config),
}

/// The mathematical content of a [`StoredConfig`].
pub enum StoredConfigView {
    Absent,
    Unreadable(Seq<char>),
    Malformed(Seq<char>),
    Parsed(ConfigView),
}

impl View for StoredConfig {
    type V = StoredConfigView;

    open spec fn view(&self) -> StoredConfigView {
        match self {
            StoredConfig::Absent => StoredConfigView::Absent,
            StoredConfig::Unreadable(reason) => StoredConfigView::Unreadable(reason@),
            StoredConfig::Malformed(reason) => StoredConfigView::Malformed(reason@),
            StoredConfig::Parsed(config) => StoredConfigView::Parsed(config@),
        }
    }
}

/// Why no configuration could be loaded.
#[derive(Debug, PartialEq, Eq)]
pub enum ConfigError {
    /// The file is there but could not be read.
    Unreadable(String),
    /// The file could not be understood.
    Malformed(String),
}

/// The mathematical content of a [`ConfigError`].
pub enum ConfigErrorView {
    Unreadable(Seq<char>),
    Malformed(Seq<char>),
}

impl View for ConfigError {
    type V = ConfigErrorView;

    open spec fn view(&self) -> ConfigErrorView {
        match self {
            ConfigError::Unreadable(reason) => ConfigErrorView::Unreadable(reason@),
            ConfigError::Malformed(reason) => ConfigErrorView::Malformed(reason@),
        }
    }
}

impl ConfigErrorView {
    /// The message for the user.
    pub open spec fn message(self) -> Seq<char> {
        match self {
            ConfigErrorView::Unreadable(reason) => "Could not open config file: "@ + reason,
            ConfigErrorView::Malformed(reason) => "Could not parse config file: "@ + reason,
        }
    }
}

impl ConfigError {
    /// Writes the message for the user.
    pub fn message(&self) -> (message: String)
        ensures
            message@ == self@.message(),
    {
        match self {
            ConfigError::Unreadable(reason) => join2(
                "Could not open config file: ",
                reason.as_str(),
            ),
            ConfigError::Malformed(reason) => join2(
                "Could not parse config file: ",
                reason.as_str(),
            ),
        }
    }

    /// The code to exit with.
    pub fn exit_code(&self) -> (code: i32)
        ensures
            code == FAILURE_EXIT_CODE,
    {
        FAILURE_EXIT_CODE
    }
}

/// The configuration to work with, given what is stored: the stored one,
/// the defaults where nothing is stored, and an error where what is stored
/// cannot be used.
pub open spec fn load_result(stored: StoredConfigView) -> Result<ConfigView, ConfigErrorView> {
    match stored {
        StoredConfigView::Absent => Ok(ConfigView::default_pair()),
        StoredConfigView::Parsed(config) => Ok(config),
        StoredConfigView::Unreadable(reason) => Err(ConfigErrorView::Unreadable(reason)),
        StoredConfigView::Malformed(reason) => Err(ConfigErrorView::Malformed(reason)),
    }
}

/// The mathematical content of what [`load`] returns.
pub open spec fn loaded_view(loaded: Result<Config, ConfigError>) -> Result<
    ConfigView,
    ConfigErrorView,
> {
    match loaded {
        Ok(config) => Ok(config@),
        Err(error) => Err(error@),
    }
}

/// Decides on the configuration to work with.
pub fn load(stored: StoredConfig) -> (loaded: Result<Config, ConfigError>)
    ensures
        loaded_view(loaded) == load_result(stored@),
{
    match stored {
        StoredConfig::Absent => Ok(Config::default()),
        StoredConfig::Parsed(config) => Ok(config),
        StoredConfig::Unreadable(reason) => Err(ConfigError::Unreadable(reason)),
        StoredConfig::Malformed(reason) => Err(ConfigError::Malformed(reason)),
    }
}

/// What the user is told about the workspace at the start: where it is,
/// and whether it has a stored configuration.
pub open spec fn workspace_summary(workspace: Seq<char>, configured: bool) -> Seq<char> {
    if configured {
        workspace + " (Using configuration from "@ + COLB_CONFIG_FILENAME@ + ")"@
    } else {
        workspace + " (Unconfigured)"@
    }
}

/// Writes the line about the workspace; `configured` tells whether a
/// configuration file is there.
pub fn workspace_line(workspace: &str, configured: bool) -> (line: String)
    ensures
        line@ == workspace_summary(workspace@, configured),
{
    if configured {
        String::from_str(workspace).concat(" (Using configuration from ").concat(
            COLB_CONFIG_FILENAME,
        ).concat(")")
    } else {
        join2(workspace, " (Unconfigured)")
    }
}

/// What initialising a workspace is to do.
#[derive(Debug, PartialEq, Eq)]
pub enum InitPlan {
    /// A file is in the way and may not be replaced; nothing is written.
    Refuse,
    /// Write this configuration, replacing any file that is there.
    Write(Config),
}

/// The mathematical content of an [`InitPlan`].
pub enum InitPlanView {
    Refuse,
    Write(ConfigView),
}

impl View for InitPlan {
    type V = InitPlanView;

    open spec fn view(&self) -> InitPlanView {
        match self {
            InitPlan::Refuse => InitPlanView::Refuse,
            InitPlan::Write(config) => InitPlanView::Write(config@),
        }
    }
}

/// The plan for initialising a workspace: the defaults are written, unless
/// a file is already there and replacing it was not asked for.
pub open spec fn init_plan(occupied: bool, force: bool) -> InitPlanView {
    if occupied && !force {
        InitPlanView::Refuse
    } else {
        InitPlanView::Write(ConfigView::default_pair())
    }
}

/// Plans the initialisation of a workspace; `occupied` tells whether a
/// configuration file is already there.
pub fn init(occupied: bool, force: bool) -> (plan: InitPlan)
    ensures
        plan@ == init_plan(occupied, force),
{
    if occupied && !force {
        InitPlan::Refuse
    } else {
        InitPlan::Write(Config::default())
    }
}

/// How an initialisation ended.
#[derive(Debug, PartialEq, Eq)]
pub enum InitOutcome {
    /// The file was written.
    Written,
    /// A file was in the way; nothing was touched.
    Conflict,
    /// Creating or writing the file failed as described.
    WriteFailed(String),
}

/// The mathematical content of an [`InitOutcome`].
pub enum InitOutcomeView {
    Written,
    Conflict,
    WriteFailed(Seq<char>),
}

impl View for InitOutcome {
    type V = InitOutcomeView;

    open spec fn view(&self) -> InitOutcomeView {
        match self {
            InitOutcome::Written => InitOutcomeView::Written,
            InitOutcome::Conflict => InitOutcomeView::Conflict,
            InitOutcome::WriteFailed(reason) => InitOutcomeView::WriteFailed(reason@),
        }
    }
}

impl InitOutcomeView {
    /// The message for the user, naming the file at `path`.
    pub open spec fn message(self, path: Seq<char>) -> Seq<char> {
        match self {
            InitOutcomeView::Written => "Initialized default configuration at '"@ + path + "'"@,
            InitOutcomeView::Conflict => "Will not overwrite '"@ + path + "' without --force"@,
            InitOutcomeView::WriteFailed(reason) => "Could not create '"@ + path + "': "@
                + reason,
        }
    }

    /// The code to exit with: zero only if the file was written.
    pub open spec fn exit_code(self) -> i32 {
        if self is Written {
            0
        } else {
            FAILURE_EXIT_CODE
        }
    }
}

impl InitOutcome {
    /// Writes the message for the user, naming the file at `path`.
    pub fn message(&self, path: &str) -> (message: String)
        ensures
            message@ == self@.message(path@),
    {
        match self {
            InitOutcome::Written => String::from_str(
                "Initialized default configuration at '",
            ).concat(path).concat("'"),
            InitOutcome::Conflict => String::from_str("Will not overwrite '").concat(
                path,
            ).concat("' without --force"),
            InitOutcome::WriteFailed(reason) => String::from_str("Could not create '").concat(
                path,
            ).concat("': ").concat(reason.as_str()),
        }
    }

    /// The code to exit with.
    pub fn exit_code(&self) -> (code: i32)
        ensures
            code == self@.exit_code(),
    {
        match self {
            InitOutcome::Written => 0,
            InitOutcome::Conflict => FAILURE_EXIT_CODE,
            InitOutcome::WriteFailed(_) => FAILURE_EXIT_CODE,
        }
    }
}

/// Initialising never replaces a file unasked: with a file in the way and
/// no request to replace it, nothing is to be written. In every other
/// case the default configuration is written, so that a store that gives
/// back what was written makes [`load`] return the defaults, just as a
/// workspace without any stored configuration does.
pub proof fn lemma_init_then_load_gives_defaults(occupied: bool, force: bool)
    ensures
        occupied && !force ==> init_plan(occupied, force) is Refuse,
        !(occupied && !force) ==> (init_plan(occupied, force) matches InitPlanView::Write(written)
            && load_result(StoredConfigView::Parsed(written)) == Ok::<
            ConfigView,
            ConfigErrorView,
        >(ConfigView::default_pair())),
        load_result(StoredConfigView::Absent) == Ok::<ConfigView, ConfigErrorView>(
            ConfigView::default_pair(),
        ),
{
}

} // verus!

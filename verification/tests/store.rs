use colb::orchestrate::FAILURE_EXIT_CODE;
use colb::profile::{BuildConfiguration, BuildType, Config};
use colb::store::{
    init, load, workspace_line, ConfigError, InitOutcome, InitPlan, StoredConfig,
};

#[test]
fn missing_file_loads_the_defaults() {
    assert_eq!(load(StoredConfig::Absent), Ok(Config::default()));
}

#[test]
fn stored_configuration_is_loaded_unchanged() {
    let mut stored = Config::default();
    stored.package.build_type = BuildType::Release;
    stored.package.parallel_jobs = None;
    stored.upstream.mixins = vec!["ccache".to_string()];
    stored.upstream.cmake_args = vec!["-DA=B".to_string()];
    let mut expected = Config::default();
    expected.package.build_type = BuildType::Release;
    expected.package.parallel_jobs = None;
    expected.upstream.mixins = vec!["ccache".to_string()];
    expected.upstream.cmake_args = vec!["-DA=B".to_string()];
    assert_eq!(load(StoredConfig::Parsed(stored)), Ok(expected));
}

#[test]
fn unreadable_file_is_an_error() {
    assert_eq!(
        load(StoredConfig::Unreadable("permission denied".to_string())),
        Err(ConfigError::Unreadable("permission denied".to_string()))
    );
}

#[test]
fn malformed_file_is_an_error() {
    assert_eq!(
        load(StoredConfig::Malformed("expected `=`".to_string())),
        Err(ConfigError::Malformed("expected `=`".to_string()))
    );
}

#[test]
fn config_error_messages() {
    assert_eq!(
        ConfigError::Unreadable("permission denied".to_string()).message(),
        "Could not open config file: permission denied"
    );
    assert_eq!(
        ConfigError::Malformed("expected `=`".to_string()).message(),
        "Could not parse config file: expected `=`"
    );
}

#[test]
fn config_errors_exit_with_failure() {
    assert_eq!(ConfigError::Unreadable(String::new()).exit_code(), FAILURE_EXIT_CODE);
    assert_eq!(ConfigError::Malformed(String::new()).exit_code(), -1);
}

#[test]
fn init_writes_defaults_into_a_fresh_workspace() {
    assert_eq!(init(false, false), InitPlan::Write(Config::default()));
    assert_eq!(init(false, true), InitPlan::Write(Config::default()));
}

#[test]
fn init_refuses_to_replace_a_file() {
    assert_eq!(init(true, false), InitPlan::Refuse);
}

#[test]
fn init_replaces_a_file_when_forced() {
    assert_eq!(init(true, true), InitPlan::Write(Config::default()));
}

#[test]
fn init_then_load_gives_the_defaults() {
    for (occupied, force) in [(false, false), (false, true), (true, true)] {
        match init(occupied, force) {
            InitPlan::Write(written) => {
                let loaded = load(StoredConfig::Parsed(written)).unwrap();
                assert_eq!(loaded, Config::default());
                assert_eq!(loaded.upstream, BuildConfiguration::upstream());
                assert_eq!(loaded.package, BuildConfiguration::active());
            }
            InitPlan::Refuse => panic!("nothing was in the way"),
        }
    }
}

#[test]
fn init_outcome_messages() {
    assert_eq!(
        InitOutcome::Written.message("/ws/.colb.toml"),
        "Initialized default configuration at '/ws/.colb.toml'"
    );
    assert_eq!(
        InitOutcome::Conflict.message("/ws/.colb.toml"),
        "Will not overwrite '/ws/.colb.toml' without --force"
    );
    assert_eq!(
        InitOutcome::WriteFailed("disk full".to_string()).message("/ws/.colb.toml"),
        "Could not create '/ws/.colb.toml': disk full"
    );
}

#[test]
fn init_outcome_exit_codes() {
    assert_eq!(InitOutcome::Written.exit_code(), 0);
    assert_eq!(InitOutcome::Conflict.exit_code(), -1);
    assert_eq!(InitOutcome::WriteFailed("x".to_string()).exit_code(), -1);
}

#[test]
fn workspace_line_with_configuration() {
    assert_eq!(workspace_line("/ws", true), "/ws (Using configuration from .colb.toml)");
}

#[test]
fn workspace_line_without_configuration() {
    assert_eq!(workspace_line("/ws", false), "/ws (Unconfigured)");
}

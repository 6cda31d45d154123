use colb::profile::{BuildConfiguration, BuildOutput, BuildType, Config, EventHandlers};

fn names(items: &[&str]) -> Vec<String> {
    items.iter().map(|s| s.to_string()).collect()
}

#[test]
fn default_handlers_report_summary_and_start_end() {
    let h = EventHandlers::default();
    assert!(h.summary);
    assert!(h.console_start_end);
    assert!(!h.console_cohesion);
    assert!(!h.desktop_notification);
}

#[test]
fn silent_handlers_are_all_off() {
    let h = EventHandlers::silent();
    assert_eq!(
        h,
        EventHandlers {
            desktop_notification: false,
            console_cohesion: false,
            summary: false,
            console_start_end: false,
        }
    );
}

#[test]
fn compile_logs_only_is_silent_plus_cohesion() {
    let h = EventHandlers::compile_logs_only();
    let mut expected = EventHandlers::silent();
    expected.console_cohesion = true;
    assert_eq!(h, expected);
}

#[test]
fn build_output_defaults_to_plain_install() {
    assert_eq!(BuildOutput::default(), BuildOutput { symlink: false, merge: false });
}

#[test]
fn upstream_profile_defaults() {
    let p = BuildConfiguration::upstream();
    assert_eq!(p.mixins, names(&["compile-commands", "ninja", "mold", "ccache"]));
    assert!(p.cmake_args.is_empty());
    assert_eq!(p.build_type, BuildType::Debug);
    assert_eq!(p.parallel_jobs, Some(8));
    assert_eq!(p.event_handlers, EventHandlers::default());
    assert!(!p.build_tests);
}

#[test]
fn active_profile_defaults() {
    let p = BuildConfiguration::active();
    assert_eq!(p.mixins, names(&["compile-commands", "ninja", "mold", "ccache"]));
    assert!(p.cmake_args.is_empty());
    assert_eq!(p.build_type, BuildType::Debug);
    assert_eq!(p.parallel_jobs, Some(8));
    assert_eq!(p.event_handlers, EventHandlers::compile_logs_only());
    assert!(p.build_tests);
}

#[test]
fn presets_differ_only_in_handlers_and_tests() {
    let mut up = BuildConfiguration::upstream();
    let act = BuildConfiguration::active();
    up.event_handlers = act.event_handlers;
    up.build_tests = act.build_tests;
    assert_eq!(up, act);
}

#[test]
fn presets_are_fresh_values() {
    let mut first = BuildConfiguration::active();
    first.mixins.clear();
    first.parallel_jobs = None;
    assert_eq!(BuildConfiguration::active().mixins.len(), 4);
    assert_eq!(BuildConfiguration::active().parallel_jobs, Some(8));
}

#[test]
fn default_config_pairs_the_presets() {
    let c = Config::default();
    assert_eq!(c.upstream, BuildConfiguration::upstream());
    assert_eq!(c.package, BuildConfiguration::active());
}

#[test]
fn presets_are_well_formed() {
    assert!(BuildConfiguration::upstream().is_well_formed());
    assert!(BuildConfiguration::active().is_well_formed());
}

#[test]
fn repeated_mixin_is_not_well_formed() {
    let mut p = BuildConfiguration::active();
    p.mixins = names(&["ninja", "mold", "ninja"]);
    assert!(!p.is_well_formed());
    p.mixins = names(&["ninja", "ninja"]);
    assert!(!p.is_well_formed());
    p.mixins = names(&["ninja", "mold"]);
    assert!(p.is_well_formed());
}

#[test]
fn zero_workers_is_not_well_formed() {
    let mut p = BuildConfiguration::active();
    p.parallel_jobs = Some(0);
    assert!(!p.is_well_formed());
    p.parallel_jobs = Some(1);
    assert!(p.is_well_formed());
    p.parallel_jobs = None;
    assert!(p.is_well_formed());
}

#[test]
fn no_mixins_is_well_formed() {
    let mut p = BuildConfiguration::upstream();
    p.mixins.clear();
    assert!(p.is_well_formed());
}

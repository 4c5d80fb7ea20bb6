use log4rs_test_utils::config::{
    level_passes, make_config, record_passes, ConfigError, Level, LevelFilter,
};

#[test]
fn make_config_empty_targets_uses_defaults() {
    let targets: Vec<String> = Vec::new();
    let cfg = make_config(&targets, None, None).unwrap();
    assert_eq!(cfg.root_level, LevelFilter::Trace);
    assert_eq!(cfg.loggers.len(), 0);
    assert_eq!(cfg.pattern, "{l} {M}::{L} {m}{n}");
}

#[test]
fn make_config_empty_targets_keeps_given_level_and_pattern() {
    let targets: Vec<String> = Vec::new();
    let cfg = make_config(&targets, Some(LevelFilter::Warn), Some("{m}")).unwrap();
    assert_eq!(cfg.root_level, LevelFilter::Warn);
    assert_eq!(cfg.loggers.len(), 0);
    assert_eq!(cfg.pattern, "{m}");
}

#[test]
fn make_config_with_targets_silences_root() {
    let targets = vec!["foo".to_string(), "bar".to_string()];
    let cfg = make_config(&targets, Some(LevelFilter::Debug), None).unwrap();
    assert_eq!(cfg.root_level, LevelFilter::Off);
    assert_eq!(cfg.loggers.len(), 2);
    assert_eq!(cfg.loggers[0].target, "foo");
    assert_eq!(cfg.loggers[0].level, LevelFilter::Debug);
    assert_eq!(cfg.loggers[1].target, "bar");
    assert_eq!(cfg.loggers[1].level, LevelFilter::Debug);
}

#[test]
fn make_config_rejects_duplicate_target() {
    let targets = vec!["a".to_string(), "a".to_string()];
    let r = make_config(&targets, None, None);
    assert_eq!(r.unwrap_err(), ConfigError::DuplicateTarget);
}

#[test]
fn make_config_rejects_distant_duplicate_target() {
    let targets = vec!["a".to_string(), "b".to_string(), "c".to_string(), "a".to_string()];
    let r = make_config(&targets, None, None);
    assert_eq!(r.unwrap_err(), ConfigError::DuplicateTarget);
}

#[test]
fn root_level_warn_filters_info_but_not_warn_or_error() {
    let targets: Vec<String> = Vec::new();
    let cfg = make_config(&targets, Some(LevelFilter::Warn), None).unwrap();
    let target = "any::module".to_string();
    assert!(!record_passes(&cfg, &target, Level::Info));
    assert!(record_passes(&cfg, &target, Level::Warn));
    assert!(record_passes(&cfg, &target, Level::Error));
}

#[test]
fn named_targets_route_and_unknown_targets_are_silent() {
    let targets = vec!["foo".to_string(), "bar".to_string()];
    let cfg = make_config(&targets, None, None).unwrap();
    assert!(record_passes(&cfg, &"foo".to_string(), Level::Info));
    assert!(record_passes(&cfg, &"bar".to_string(), Level::Trace));
    assert!(!record_passes(&cfg, &"baz".to_string(), Level::Error));
}

#[test]
fn level_passes_orders_severities() {
    assert!(!level_passes(Level::Error, LevelFilter::Off));
    assert!(level_passes(Level::Error, LevelFilter::Error));
    assert!(!level_passes(Level::Warn, LevelFilter::Error));
    assert!(level_passes(Level::Warn, LevelFilter::Warn));
    assert!(level_passes(Level::Info, LevelFilter::Trace));
    assert!(!level_passes(Level::Trace, LevelFilter::Debug));
}

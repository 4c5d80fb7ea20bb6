use log4rs_test_utils::config::{ConfigError, Level, LevelFilter};
use log4rs_test_utils::encode::{level_name, LevelTargetMessageEncoder, LogRecordData};
use log4rs_test_utils::test_logging::{
    init_logging_once, init_logging_once_for, InitAction, InitGate, TestConsoleAppender,
};

#[test]
fn first_init_configures_and_later_inits_skip() {
    let mut gate = InitGate::new();
    assert!(!gate.is_completed());

    let targets: Vec<String> = Vec::new();
    let first = init_logging_once_for(&mut gate, &targets, Some(LevelFilter::Debug), None);
    match first.unwrap() {
        InitAction::Configure(cfg) => {
            assert_eq!(cfg.root_level, LevelFilter::Debug);
            assert_eq!(cfg.loggers.len(), 0);
            assert_eq!(cfg.pattern, "{l} {M}::{L} {m}{n}");
        }
        InitAction::Skip => panic!("the first call must configure the backend"),
    }
    assert!(gate.is_completed());

    let second = init_logging_once_for(&mut gate, &targets, Some(LevelFilter::Error), None);
    assert!(matches!(second, Ok(InitAction::Skip)));
    assert!(gate.is_completed());
}

#[test]
fn init_once_applies_only_the_first_config() {
    let mut gate = InitGate::new();
    let first = make_test_config(LevelFilter::Info);
    let second = make_test_config(LevelFilter::Error);

    match init_logging_once(&mut gate, first) {
        InitAction::Configure(cfg) => assert_eq!(cfg.root_level, LevelFilter::Info),
        InitAction::Skip => panic!("the first call must configure the backend"),
    }
    assert!(matches!(init_logging_once(&mut gate, second), InitAction::Skip));
}

fn make_test_config(level: LevelFilter) -> log4rs_test_utils::config::LogConfig {
    log4rs_test_utils::config::LogConfig {
        pattern: "{m}".to_string(),
        root_level: level,
        loggers: Vec::new(),
    }
}

#[test]
fn duplicate_targets_fail_before_the_gate_is_touched() {
    let mut gate = InitGate::new();
    let targets = vec!["a".to_string(), "a".to_string()];
    let r = init_logging_once_for(&mut gate, &targets, None, None);
    assert_eq!(r.unwrap_err(), ConfigError::DuplicateTarget);
    assert!(!gate.is_completed());
}

#[test]
fn completed_gate_short_circuits_before_building() {
    let mut gate = InitGate::new();
    let none: Vec<String> = Vec::new();
    init_logging_once_for(&mut gate, &none, None, None).unwrap();
    assert!(gate.is_completed());

    let duplicates = vec!["a".to_string(), "a".to_string()];
    let r = init_logging_once_for(&mut gate, &duplicates, None, None);
    assert!(matches!(r, Ok(InitAction::Skip)));
}

#[test]
fn init_for_targets_builds_named_loggers() {
    let mut gate = InitGate::new();
    let targets = vec!["foo".to_string(), "bar".to_string()];
    let r = init_logging_once_for(&mut gate, &targets, Some(LevelFilter::Debug), Some("{m}"));
    match r.unwrap() {
        InitAction::Configure(cfg) => {
            assert_eq!(cfg.root_level, LevelFilter::Off);
            assert_eq!(cfg.pattern, "{m}");
            assert_eq!(cfg.loggers.len(), 2);
            assert_eq!(cfg.loggers[0].target, "foo");
            assert_eq!(cfg.loggers[0].level, LevelFilter::Debug);
            assert_eq!(cfg.loggers[1].target, "bar");
            assert_eq!(cfg.loggers[1].level, LevelFilter::Debug);
        }
        InitAction::Skip => panic!("a fresh gate must configure the backend"),
    }
    assert!(gate.is_completed());
}

#[test]
fn console_appender_renders_with_its_encoder() {
    let appender = TestConsoleAppender::new(LevelTargetMessageEncoder);
    let rec = LogRecordData {
        level: Level::Warn,
        target: "mod::sub".to_string(),
        message: "careful".to_string(),
    };
    assert_eq!(appender.render(&rec), "WARN mod::sub careful");
}

#[test]
fn level_names_match_the_backend_markers() {
    assert_eq!(level_name(Level::Error), "ERROR");
    assert_eq!(level_name(Level::Warn), "WARN");
    assert_eq!(level_name(Level::Info), "INFO");
    assert_eq!(level_name(Level::Debug), "DEBUG");
    assert_eq!(level_name(Level::Trace), "TRACE");
}

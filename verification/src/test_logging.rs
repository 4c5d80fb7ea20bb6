//! The test-debug half: let every test ask for logging to be configured,
//! while the configuration is applied at most once per process.
//!
//! [`InitGate`] models the one-shot guard flag. [`init_logging_once`] is
//! the call-once protocol: the first call claims the flag and returns the
//! instruction to configure the backend; every later call is a no-op. The
//! flag follows the blocking call-once discipline: a caller returns only
//! once initialization is complete — here calls are serialized by the
//! exclusive borrow of the flag, and a program wiring this model to a real
//! process must serialize them with a call-once primitive.
//!
//! [`TestConsoleAppender`] is the console sink's compute half: it formats a
//! record into the line that is printed. The printing itself — writing to
//! standard output and forcing a flush so a test harness captures the line —
//! is left to the embedding program.

use vstd::prelude::*;

use crate::config::{
    built_config, has_duplicate_target, level_or_default, make_config, ConfigError, LevelFilter,
    LogConfig,
};
use crate::encode::{Encoder, LogRecordData};

verus! {

/// The console sink's compute half: formats each record with its encoder.
/// The embedding program prints the rendered line to standard output and
/// flushes it immediately, so appending needs no separate flush.
#[derive(Debug)]
pub struct TestConsoleAppender<E: Encoder> {
    encoder: E,
}

impl<E: Encoder> TestConsoleAppender<E> {
    /// The encoder this sink formats records with.
    pub closed spec fn encoder(&self) -> E {
        self.encoder
    }

    /// Create a console sink with the given encoder.
    pub fn new(encoder: E) -> (sink: Self)
        ensures
            sink.encoder() == encoder,
    {
        TestConsoleAppender { encoder }
    }

    /// Format one record into the line to be printed.
    pub fn render(&self, record: &LogRecordData) -> (line: String)
        ensures
            line@ == self.encoder().format_spec(*record),
    {
        self.encoder.format(record)
    }
}

/// The instruction a call to [`init_logging_once`] leaves for the embedding
/// program: apply this configuration to the backend, or do nothing because
/// somebody already initialized it.
#[derive(Debug)]
pub enum InitAction {
    /// Apply this configuration. Should the backend report that a third
    /// party configured it first, that failure is to be swallowed and
    /// reported only as a diagnostic warning.
    Configure(LogConfig),
    /// Initialization already happened; there is nothing to do.
    Skip,
}

/// The one-shot guard flag recording whether initialization has happened. It flips
/// once and never flips back.
#[derive(Debug)]
pub struct InitGate {
    completed: bool,
}

impl InitGate {
    /// Whether some call has already claimed the flag.
    pub closed spec fn spec_completed(&self) -> bool {
        self.completed
    }

    /// Create the flag in its untouched state.
    pub fn new() -> (gate: Self)
        ensures
            !gate.spec_completed(),
    {
        InitGate { completed: false }
    }

    /// Whether some call has already claimed the flag.
    pub fn is_completed(&self) -> (b: bool)
        ensures
            b == self.spec_completed(),
    {
        self.completed
    }
}

/// What one call to [`init_logging_once`] does to an un-/already-claimed
/// flag: the first caller's configuration is applied, everyone else's is
/// skipped.
pub open spec fn init_once_action(completed: bool, config: LogConfig) -> InitAction {
    if completed {
        InitAction::Skip
    } else {
        InitAction::Configure(config)
    }
}

/// Request one-time initialization with `config`.
///
/// The first call claims the flag and yields the instruction to configure
/// the backend with `config`; every later call returns without error and
/// changes nothing. Either way the flag is claimed once this returns.
pub fn init_logging_once(gate: &mut InitGate, config: LogConfig) -> (action: InitAction)
    ensures
        final(gate).spec_completed(),
        action == init_once_action(old(gate).spec_completed(), config),
{
    if gate.completed {
        InitAction::Skip
    } else {
        gate.completed = true;
        InitAction::Configure(config)
    }
}

/// The configurations that a run of [`init_logging_once`] calls — one per
/// element of `configs`, in order, against a flag starting in state
/// `completed` — instructs the embedding program to apply.
pub open spec fn init_run_applied(completed: bool, configs: Seq<LogConfig>) -> Seq<LogConfig>
    decreases configs.len(),
{
    if configs.len() == 0 {
        Seq::<LogConfig>::empty()
    } else {
        let applied = match init_once_action(completed, configs[0]) {
            InitAction::Configure(c) => seq![c],
            InitAction::Skip => Seq::<LogConfig>::empty(),
        };
        applied + init_run_applied(true, configs.skip(1))
    }
}

proof fn lemma_init_run_applied_when_claimed(configs: Seq<LogConfig>)
    ensures
        init_run_applied(true, configs) =~= Seq::<LogConfig>::empty(),
    decreases configs.len(),
{
    if configs.len() > 0 {
        lemma_init_run_applied_when_claimed(configs.skip(1));
    }
}

/// Law (idempotence): however many calls to [`init_logging_once`] a run
/// makes, with arbitrary configurations, the backend is instructed to
/// configure itself exactly once, with exactly the first caller's
/// configuration — and not at all when the flag was already claimed.
pub proof fn lemma_init_once_idempotent(configs: Seq<LogConfig>)
    requires
        configs.len() >= 1,
    ensures
        init_run_applied(false, configs) =~= seq![configs[0]],
        init_run_applied(true, configs) =~= Seq::<LogConfig>::empty(),
{
    lemma_init_run_applied_when_claimed(configs.skip(1));
    lemma_init_run_applied_when_claimed(configs);
}

/// Request one-time initialization with a configuration built for the given
/// targets, as [`make_config`] builds it.
///
/// When the flag is already claimed this returns at once, without even
/// building the configuration. Otherwise the configuration is built —
/// failing with [`ConfigError::DuplicateTarget`], before the flag is
/// touched, when a target name is repeated — and handed to
/// [`init_logging_once`].
pub fn init_logging_once_for(gate: &mut InitGate, targets: &Vec<String>, level: Option<LevelFilter>, pattern: Option<&str>) -> (r: Result<InitAction, ConfigError>)
    ensures
        old(gate).spec_completed() ==> r == Ok::<InitAction, ConfigError>(InitAction::Skip)
            && *final(gate) == *old(gate),
        !old(gate).spec_completed() ==> match r {
            Ok(action) => {
                &&& final(gate).spec_completed()
                &&& !has_duplicate_target(targets@)
                &&& match action {
                    InitAction::Configure(cfg) => built_config(
                        cfg,
                        targets@,
                        level_or_default(level),
                        match pattern {
                            Some(p) => p@,
                            None => "{l} {M}::{L} {m}{n}"@,
                        },
                    ),
                    InitAction::Skip => false,
                }
            },
            Err(e) => {
                &&& e == ConfigError::DuplicateTarget
                &&& has_duplicate_target(targets@)
                &&& *final(gate) == *old(gate)
            },
        },
{
    if gate.is_completed() {
        return Ok(InitAction::Skip);
    }
    match make_config(targets, level, pattern) {
        Ok(config) => Ok(init_logging_once(gate, config)),
        Err(e) => Err(e),
    }
}

} // verus!

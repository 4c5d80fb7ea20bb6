//! The configuration model shared by both halves of the crate.
//!
//! A [`LogConfig`] is the plain-value picture of one backend configuration:
//! the encoder pattern the wired appender uses, the root threshold, and one
//! named logger per target. The builder policy lives in [`make_config`]:
//! with no targets the root logger is enabled at the requested level; with
//! targets the root logger is silenced and each target gets its own logger.
//! Duplicate target names are a caller bug and are rejected.
//!
//! Routing and level filtering are modelled by [`passes_spec`] and decided
//! executably by [`record_passes`]: a record is routed by the first logger
//! whose target matches exactly, or by the root logger when none does, and
//! it passes when its severity is within that logger's threshold.

use vstd::prelude::*;

verus! {

/// The severity of one log record, from most severe to most verbose.
#[derive(Clone, Copy, Debug, PartialEq, Eq, Structural)]
pub enum Level {
    Error,
    Warn,
    Info,
    Debug,
    Trace,
}

/// A verbosity threshold: either silent, or every severity up to and
/// including the named one.
#[derive(Clone, Copy, Debug, PartialEq, Eq, Structural)]
pub enum LevelFilter {
    Off,
    Error,
    Warn,
    Info,
    Debug,
    Trace,
}

/// The error the configuration builder reports.
#[derive(Clone, Copy, Debug, PartialEq, Eq, Structural)]
pub enum ConfigError {
    /// The same target name was supplied more than once.
    DuplicateTarget,
}

/// One named logger: records tagged with `target` are accepted up to `level`.
#[derive(Debug)]
pub struct TargetConfig {
    pub target: String,
    pub level: LevelFilter,
}

/// The plain-value model of one backend configuration.
#[derive(Debug)]
pub struct LogConfig {
    /// The pattern the wired appender's encoder formats records with.
    pub pattern: String,
    /// The root logger's threshold, applied to records no named logger matches.
    pub root_level: LevelFilter,
    /// The named loggers, one per configured target.
    pub loggers: Vec<TargetConfig>,
}

/// How verbose a record of this severity is: `Error` is 1, `Trace` is 5.
pub open spec fn level_rank(level: Level) -> nat {
    match level {
        Level::Error => 1,
        Level::Warn => 2,
        Level::Info => 3,
        Level::Debug => 4,
        Level::Trace => 5,
    }
}

/// How much verbosity a threshold admits: `Off` admits nothing.
pub open spec fn filter_rank(filter: LevelFilter) -> nat {
    match filter {
        LevelFilter::Off => 0,
        LevelFilter::Error => 1,
        LevelFilter::Warn => 2,
        LevelFilter::Info => 3,
        LevelFilter::Debug => 4,
        LevelFilter::Trace => 5,
    }
}

/// The threshold that routes a record tagged `target`: the level of the
/// first logger whose target matches exactly, or `root` when none does.
pub open spec fn route_level(loggers: Seq<TargetConfig>, target: Seq<char>, root: LevelFilter) -> LevelFilter
    decreases loggers.len(),
{
    if loggers.len() == 0 {
        root
    } else if loggers[0].target@ == target {
        loggers[0].level
    } else {
        route_level(loggers.skip(1), target, root)
    }
}

/// Whether a record tagged `target` at severity `level` reaches the sink
/// under configuration `cfg`.
pub open spec fn passes_spec(cfg: LogConfig, target: Seq<char>, level: Level) -> bool {
    level_rank(level) <= filter_rank(route_level(cfg.loggers@, target, cfg.root_level))
}

/// Whether the same target name occurs twice in `targets`.
pub open spec fn has_duplicate_target(targets: Seq<String>) -> bool {
    exists|i: int, j: int| 0 <= i < j < targets.len() && #[trigger] targets[i]@ == #[trigger] targets[j]@
}

/// The requested level, or the most verbose one when none was requested.
pub open spec fn level_or_default(level: Option<LevelFilter>) -> LevelFilter {
    match level {
        Some(l) => l,
        None => LevelFilter::Trace,
    }
}

/// The named loggers a successful build produces: one per target, in the
/// order the targets were given, each at threshold `level`.
pub open spec fn loggers_for_targets(loggers: Seq<TargetConfig>, targets: Seq<String>, level: LevelFilter) -> bool {
    &&& loggers.len() == targets.len()
    &&& forall|i: int| 0 <= i < targets.len()
        ==> (#[trigger] loggers[i]).target@ == targets[i]@ && loggers[i].level == level
}

/// The shape of the configuration [`make_config`] builds from `targets`,
/// a threshold and an encoder pattern.
pub open spec fn built_config(cfg: LogConfig, targets: Seq<String>, level: LevelFilter, pattern: Seq<char>) -> bool {
    &&& cfg.pattern@ == pattern
    &&& if targets.len() == 0 {
        cfg.root_level == level && cfg.loggers@.len() == 0
    } else {
        cfg.root_level == LevelFilter::Off && loggers_for_targets(cfg.loggers@, targets, level)
    }
}

/// Build a configuration that routes everything to the one wired appender.
///
/// With no targets the root logger runs at `level`; with targets the root
/// logger is silenced and each target gets a logger at `level`. Defaults:
/// `level` is `Trace`, `pattern` is `"{l} {M}::{L} {m}{n}"`. The build
/// succeeds exactly when no target name is repeated; a repeated name is a
/// caller bug and fails with [`ConfigError::DuplicateTarget`].
pub fn make_config(targets: &Vec<String>, level: Option<LevelFilter>, pattern: Option<&str>) -> (r: Result<LogConfig, ConfigError>)
    ensures
        match r {
            Ok(cfg) => !has_duplicate_target(targets@) && built_config(
                cfg,
                targets@,
                level_or_default(level),
                match pattern {
                    Some(p) => p@,
                    None => "{l} {M}::{L} {m}{n}"@,
                },
            ),
            Err(e) => e == ConfigError::DuplicateTarget && has_duplicate_target(targets@),
        },
{
    let lv = match level {
        Some(l) => l,
        None => LevelFilter::Trace,
    };
    let pat: String = match pattern {
        Some(p) => p.to_owned(),
        None => "{l} {M}::{L} {m}{n}".to_owned(),
    };
    let n = targets.len();

    let mut i: usize = 0;
    while i < n
        invariant
            i <= n,
            n == targets@.len(),
            forall|a: int, b: int| 0 <= a < i && a < b < n ==> #[trigger] targets@[a]@ != #[trigger] targets@[b]@,
        decreases n - i,
    {
        let mut j: usize = i + 1;
        while j < n
            invariant
                i < j <= n,
                i < n,
                n == targets@.len(),
                forall|b: int| i < b < j ==> targets@[i as int]@ != #[trigger] targets@[b]@,
            decreases n - j,
        {
            if targets[i] == targets[j] {
                return Err(ConfigError::DuplicateTarget);
            }
            j += 1;
        }
        i += 1;
    }
    assert(!has_duplicate_target(targets@));

    if n == 0 {
        Ok(LogConfig { pattern: pat, root_level: lv, loggers: Vec::new() })
    } else {
        let mut loggers: Vec<TargetConfig> = Vec::new();
        let mut k: usize = 0;
        while k < n
            invariant
                k <= n,
                n == targets@.len(),
                loggers@.len() == k,
                forall|m: int| 0 <= m < k
                    ==> (#[trigger] loggers@[m]).target@ == targets@[m]@ && loggers@[m].level == lv,
            decreases n - k,
        {
            loggers.push(TargetConfig { target: targets[k].clone(), level: lv });
            k += 1;
        }
        Ok(LogConfig { pattern: pat, root_level: LevelFilter::Off, loggers })
    }
}

/// Decide whether a record tagged `target` at severity `level` reaches the
/// sink under `cfg`, exactly as [`passes_spec`] says.
pub fn record_passes(cfg: &LogConfig, target: &String, level: Level) -> (b: bool)
    ensures
        b == passes_spec(*cfg, target@, level),
{
    let n = cfg.loggers.len();
    let mut i: usize = 0;
    proof {
        assert(cfg.loggers@.skip(0) =~= cfg.loggers@);
    }
    while i < n
        invariant
            i <= n,
            n == cfg.loggers@.len(),
            route_level(cfg.loggers@, target@, cfg.root_level)
                == route_level(cfg.loggers@.skip(i as int), target@, cfg.root_level),
        decreases n - i,
    {
        if cfg.loggers[i].target == *target {
            assert(cfg.loggers@.skip(i as int)[0] == cfg.loggers@[i as int]);
            return level_passes(level, cfg.loggers[i].level);
        }
        proof {
            assert(cfg.loggers@.skip(i as int).skip(1) =~= cfg.loggers@.skip(i + 1));
        }
        i += 1;
    }
    proof {
        assert(cfg.loggers@.skip(n as int) =~= Seq::<TargetConfig>::empty());
    }
    level_passes(level, cfg.root_level)
}

/// Decide whether severity `level` is within threshold `filter`.
pub fn level_passes(level: Level, filter: LevelFilter) -> (b: bool)
    ensures
        b == (level_rank(level) <= filter_rank(filter)),
{
    let l: u8 = match level {
        Level::Error => 1,
        Level::Warn => 2,
        Level::Info => 3,
        Level::Debug => 4,
        Level::Trace => 5,
    };
    let f: u8 = match filter {
        LevelFilter::Off => 0,
        LevelFilter::Error => 1,
        LevelFilter::Warn => 2,
        LevelFilter::Info => 3,
        LevelFilter::Debug => 4,
        LevelFilter::Trace => 5,
    };
    l <= f
}

/// Law: a record is routed by the first logger whose target matches it.
///
/// If logger `i` is the first one whose target equals the record's target,
/// the record's effective threshold is that logger's level.
pub proof fn lemma_route_first_match(loggers: Seq<TargetConfig>, target: Seq<char>, root: LevelFilter, i: int)
    requires
        0 <= i < loggers.len(),
        loggers[i].target@ == target,
        forall|j: int| 0 <= j < i ==> (#[trigger] loggers[j]).target@ != target,
    ensures
        route_level(loggers, target, root) == loggers[i].level,
    decreases i,
{
    if i == 0 {
    } else {
        assert(loggers.skip(1)[i - 1] == loggers[i]);
        assert(forall|j: int| 0 <= j < i - 1 ==> (#[trigger] loggers.skip(1)[j]).target@ != target);
        lemma_route_first_match(loggers.skip(1), target, root, i - 1);
    }
}

/// Law: a record whose target no logger matches falls back to the root logger.
pub proof fn lemma_route_no_match(loggers: Seq<TargetConfig>, target: Seq<char>, root: LevelFilter)
    requires
        forall|j: int| 0 <= j < loggers.len() ==> (#[trigger] loggers[j]).target@ != target,
    ensures
        route_level(loggers, target, root) == root,
    decreases loggers.len(),
{
    if loggers.len() > 0 {
        assert(forall|j: int| 0 <= j < loggers.skip(1).len()
            ==> (#[trigger] loggers.skip(1)[j]).target@ != target);
        lemma_route_no_match(loggers.skip(1), target, root);
    }
}

/// Law (level filtering passthrough): under a configuration with no named
/// loggers, a record reaches the sink exactly when its severity is within
/// the root threshold — whatever its target and message. With the root at
/// `Warn`, records at `Info` are filtered out and records at `Warn` or
/// `Error` pass.
pub proof fn lemma_root_level_filtering(cfg: LogConfig, target: Seq<char>, level: Level)
    requires
        cfg.loggers@.len() == 0,
    ensures
        passes_spec(cfg, target, level) == (level_rank(level) <= filter_rank(cfg.root_level)),
{
}

/// Law (target routing): a record whose target is matched first by logger
/// `i` reaches the sink exactly when its severity is within that logger's
/// threshold — the root level plays no part.
pub proof fn lemma_routed_target(cfg: LogConfig, target: Seq<char>, level: Level, i: int)
    requires
        0 <= i < cfg.loggers@.len(),
        cfg.loggers@[i].target@ == target,
        forall|j: int| 0 <= j < i ==> (#[trigger] cfg.loggers@[j]).target@ != target,
    ensures
        passes_spec(cfg, target, level) == (level_rank(level) <= filter_rank(cfg.loggers@[i].level)),
{
    lemma_route_first_match(cfg.loggers@, target, cfg.root_level, i);
}

/// Law (target routing): under a configuration whose root logger is silent,
/// a record whose target matches no named logger produces no output, at any
/// severity.
pub proof fn lemma_unrouted_target_silent(cfg: LogConfig, target: Seq<char>, level: Level)
    requires
        cfg.root_level == LevelFilter::Off,
        forall|j: int| 0 <= j < cfg.loggers@.len() ==> (#[trigger] cfg.loggers@[j]).target@ != target,
    ensures
        !passes_spec(cfg, target, level),
{
    lemma_route_no_match(cfg.loggers@, target, cfg.root_level);
}

} // verus!

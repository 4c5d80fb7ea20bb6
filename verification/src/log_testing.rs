//! The log-capture half: route every record into an in-memory buffer that a
//! test can inspect.
//!
//! A [`MockAppender`] formats each record through its encoder and pushes the
//! line onto its buffer, in call order, never dropping or reordering.
//! [`GlobalLoggerState`] models the process-wide backend configuration:
//! created disabled, and replaced wholesale by [`logging_test_setup`].
//! Because the backend routes by target — a decision made by the code under
//! test, not by the test — a capture test needs exclusive use of the global
//! configuration for its whole duration. Here that exclusivity is the
//! `&mut GlobalLoggerState` borrow the test holds; a program wiring this
//! model to a real process-wide backend must hold a mutex for the same span
//! and must keep holding it while it reads the buffer.

use vstd::prelude::*;

use crate::config::{level_or_default, passes_spec, record_passes, LevelFilter, LogConfig};
use crate::encode::{Encoder, LevelTargetMessageEncoder, LogRecordData};

verus! {

/// A capturing sink: formats every appended record with its encoder and
/// saves the lines, in call order.
#[derive(Debug)]
pub struct MockAppender<E: Encoder> {
    logs: Vec<String>,
    encoder: E,
}

impl<E: Encoder> MockAppender<E> {
    /// The captured lines, oldest first.
    pub closed spec fn lines(&self) -> Seq<Seq<char>> {
        self.logs.deep_view()
    }

    /// The encoder this sink formats records with.
    pub closed spec fn encoder(&self) -> E {
        self.encoder
    }

    /// Create a capturing sink with an empty buffer.
    pub fn new(encoder: E) -> (sink: Self)
        ensures
            sink.lines() == Seq::<Seq<char>>::empty(),
            sink.encoder() == encoder,
    {
        let sink = MockAppender { logs: Vec::new(), encoder };
        proof {
            assert(sink.lines() =~= Seq::<Seq<char>>::empty());
        }
        sink
    }

    /// Append one record: the buffer grows by exactly the formatted line,
    /// at the end. Nothing is reordered and nothing is dropped.
    pub fn append(&mut self, record: &LogRecordData)
        ensures
            final(self).lines() == old(self).lines().push(old(self).encoder().format_spec(*record)),
            final(self).encoder() == old(self).encoder(),
    {
        let line = self.encoder.format(record);
        self.logs.push(line);
        proof {
            assert(self.lines() =~= old(self).lines().push(old(self).encoder().format_spec(*record)));
        }
    }

    /// Law (ordering): a sequence of appends leaves the buffer holding the
    /// formatted lines in call order, after whatever it already held.
    pub fn append_all(&mut self, records: &Vec<LogRecordData>)
        ensures
            final(self).encoder() == old(self).encoder(),
            final(self).lines() == old(self).lines() + records@.map_values(
                |r: LogRecordData| old(self).encoder().format_spec(r),
            ),
    {
        let mut idx: usize = 0;
        proof {
            assert(self.lines() =~= old(self).lines() + records@.take(0).map_values(
                |r: LogRecordData| old(self).encoder().format_spec(r),
            ));
        }
        while idx < records.len()
            invariant
                idx <= records@.len(),
                self.encoder() == old(self).encoder(),
                self.lines() == old(self).lines() + records@.take(idx as int).map_values(
                    |r: LogRecordData| old(self).encoder().format_spec(r),
                ),
            decreases records@.len() - idx,
        {
            self.append(&records[idx]);
            proof {
                let fmt = |r: LogRecordData| old(self).encoder().format_spec(r);
                assert(records@.take(idx + 1).map_values(fmt)
                    =~= records@.take(idx as int).map_values(fmt).push(fmt(records@[idx as int])));
                assert(old(self).lines() + records@.take(idx as int).map_values(fmt).push(
                    fmt(records@[idx as int]),
                ) =~= (old(self).lines() + records@.take(idx as int).map_values(fmt)).push(
                    fmt(records@[idx as int]),
                ));
            }
            idx += 1;
        }
        proof {
            assert(records@.take(records@.len() as int) =~= records@);
        }
    }

    /// Flushing is a no-op: every line is already in the buffer.
    pub fn flush(&self) {
    }

    /// Read the captured lines.
    pub fn logs(&self) -> (r: &Vec<String>)
        ensures
            r.deep_view() == self.lines(),
    {
        &self.logs
    }
}

/// The process-wide backend configuration: exactly one per process, created
/// lazily with no configuration at all (everything disabled), and replaced
/// wholesale by the sanctioned setup entry points.
#[derive(Debug)]
pub struct GlobalLoggerState {
    config: Option<LogConfig>,
}

impl GlobalLoggerState {
    /// The active configuration, or `None` while the state is still the
    /// disabled placeholder.
    pub closed spec fn spec_config(&self) -> Option<LogConfig> {
        self.config
    }

    /// Create the disabled placeholder state.
    pub fn new() -> (state: Self)
        ensures
            state.spec_config() == None::<LogConfig>,
    {
        GlobalLoggerState { config: None }
    }
}

/// Replace the backend configuration for the duration of one capture test.
///
/// The previous configuration is discarded entirely: this is a full replace,
/// not a merge. The caller must keep its exclusive access to `state` — the
/// serialization token — until it has finished reading the captured lines.
pub fn logging_test_setup(state: &mut GlobalLoggerState, config: LogConfig)
    ensures
        final(state).spec_config() == Some(config),
{
    state.config = Some(config);
}

/// The configuration [`logging_test_setup_mock`] installs: a single root
/// logger at the requested level (most verbose when none was requested),
/// routing everything to the capturing sink, whose encoder renders the
/// given pattern.
pub open spec fn mock_setup_config(config: Option<LogConfig>, level: Option<LevelFilter>, pattern: Seq<char>) -> bool {
    match config {
        Some(cfg) => {
            &&& cfg.root_level == level_or_default(level)
            &&& cfg.loggers@.len() == 0
            &&& cfg.pattern@ == pattern
        },
        None => false,
    }
}

/// Set up one capture test with a fresh capturing sink and the default
/// encoder, pattern `"{l} {t} {m}"`.
///
/// The root logger is enabled at `level` (default: most verbose) and the
/// returned sink starts empty: no line from any earlier test can appear in
/// it.
pub fn logging_test_setup_mock(state: &mut GlobalLoggerState, level: Option<LevelFilter>) -> (sink: MockAppender<LevelTargetMessageEncoder>)
    ensures
        mock_setup_config(final(state).spec_config(), level, "{l} {t} {m}"@),
        sink.lines() == Seq::<Seq<char>>::empty(),
        sink.encoder() == LevelTargetMessageEncoder,
{
    let lv = match level {
        Some(l) => l,
        None => LevelFilter::Trace,
    };
    let config = LogConfig {
        pattern: "{l} {t} {m}".to_owned(),
        root_level: lv,
        loggers: Vec::new(),
    };
    logging_test_setup(state, config);
    MockAppender::new(LevelTargetMessageEncoder)
}

/// Set up one capture test with a fresh capturing sink built on the given
/// encoder. The installed configuration carries no pattern of its own — the
/// injected encoder does the formatting.
pub fn logging_test_setup_mock_with<E: Encoder>(state: &mut GlobalLoggerState, level: Option<LevelFilter>, encoder: E) -> (sink: MockAppender<E>)
    ensures
        mock_setup_config(final(state).spec_config(), level, ""@),
        sink.lines() == Seq::<Seq<char>>::empty(),
        sink.encoder() == encoder,
{
    let lv = match level {
        Some(l) => l,
        None => LevelFilter::Trace,
    };
    let config = LogConfig {
        pattern: "".to_owned(),
        root_level: lv,
        loggers: Vec::new(),
    };
    logging_test_setup(state, config);
    MockAppender::new(encoder)
}

/// Route one record as the configured backend would: if the active
/// configuration lets the record through — judged by its target and
/// severity — the sink captures the formatted line; otherwise, or while the
/// state is still the disabled placeholder, nothing happens.
pub fn dispatch_record<E: Encoder>(state: &GlobalLoggerState, sink: &mut MockAppender<E>, record: &LogRecordData)
    ensures
        final(sink).encoder() == old(sink).encoder(),
        match state.spec_config() {
            Some(cfg) => if passes_spec(cfg, record.target@, record.level) {
                final(sink).lines() == old(sink).lines().push(old(sink).encoder().format_spec(*record))
            } else {
                final(sink).lines() == old(sink).lines()
            },
            None => final(sink).lines() == old(sink).lines(),
        },
{
    match &state.config {
        Some(cfg) => {
            if record_passes(cfg, &record.target, record.level) {
                sink.append(record);
            }
        },
        None => {},
    }
}

} // verus!

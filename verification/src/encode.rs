//! The record and encoder model.
//!
//! A [`LogRecordData`] holds the parts of one emitted log event that this
//! crate's sinks read: severity, target and message. An [`Encoder`] is the
//! polymorphic formatting capability a sink is built with: anything that can
//! turn a record into one line. Two encoders are provided, matching the two
//! default patterns the crate configures: [`LevelTargetMessageEncoder`] for
//! `"{l} {t} {m}"` and [`MessageEncoder`] for `"{m}"`.

use vstd::prelude::*;
use vstd::string::StringExecFns;

use crate::config::Level;

verus! {

/// The parts of one log record that a sink reads: the severity, the target
/// name the record was tagged with, and the message text.
#[derive(Debug)]
pub struct LogRecordData {
    pub level: Level,
    pub target: String,
    pub message: String,
}

/// The formatting capability a sink is built with: one operation that turns
/// a record into one line of text, pinned down by the encoder's own
/// `format_spec`.
pub trait Encoder: Sized {
    /// The line this encoder produces for `record`.
    spec fn format_spec(&self, record: LogRecordData) -> Seq<char>;

    /// Format `record` into one line.
    fn format(&self, record: &LogRecordData) -> (line: String)
        ensures
            line@ == self.format_spec(*record),
    ;
}

/// The display name of a severity, as the backend prints it.
pub open spec fn level_name_spec(level: Level) -> Seq<char> {
    match level {
        Level::Error => "ERROR"@,
        Level::Warn => "WARN"@,
        Level::Info => "INFO"@,
        Level::Debug => "DEBUG"@,
        Level::Trace => "TRACE"@,
    }
}

/// The display name of a severity, as the backend prints it.
pub fn level_name(level: Level) -> (name: String)
    ensures
        name@ == level_name_spec(level),
{
    match level {
        Level::Error => "ERROR".to_owned(),
        Level::Warn => "WARN".to_owned(),
        Level::Info => "INFO".to_owned(),
        Level::Debug => "DEBUG".to_owned(),
        Level::Trace => "TRACE".to_owned(),
    }
}

/// The encoder behind the capture half's default pattern `"{l} {t} {m}"`:
/// the severity name, the target and the message, separated by spaces.
#[derive(Debug)]
pub struct LevelTargetMessageEncoder;

impl Encoder for LevelTargetMessageEncoder {
    open spec fn format_spec(&self, record: LogRecordData) -> Seq<char> {
        level_name_spec(record.level) + " "@ + record.target@ + " "@ + record.message@
    }

    fn format(&self, record: &LogRecordData) -> (line: String)
        ensures
            line@ == self.format_spec(*record),
    {
        let mut line = level_name(record.level);
        line.append(" ");
        line.append(record.target.as_str());
        line.append(" ");
        line.append(record.message.as_str());
        line
    }
}

/// The encoder behind the bare pattern `"{m}"`: the message text alone,
/// with no decoration.
#[derive(Debug)]
pub struct MessageEncoder;

impl Encoder for MessageEncoder {
    open spec fn format_spec(&self, record: LogRecordData) -> Seq<char> {
        record.message@
    }

    fn format(&self, record: &LogRecordData) -> (line: String)
        ensures
            line@ == self.format_spec(*record),
    {
        record.message.clone()
    }
}

} // verus!

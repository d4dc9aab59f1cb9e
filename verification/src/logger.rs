//! The bridge between leveled records and the console binding.

use crate::console;
use crate::console::{forwarded, representable, Host, HostCall, Primitive, UnsupportedPlatform};
use crate::level::{Level, LevelFilter};
use vstd::prelude::*;

verus! {

/// What is known of a record before its message is rendered.
#[derive(Clone, Copy, Debug, PartialEq, Eq, Structural, Hash)]
pub struct Metadata {
    pub level: Level,
}

/// One logging call: its metadata and its message, rendered to text.
#[derive(Clone, Copy, Debug)]
pub struct Record<'a> {
    pub metadata: Metadata,
    pub message: &'a str,
}

impl Metadata {
    pub fn new(level: Level) -> (metadata: Metadata)
        ensures
            metadata.level == level,
    {
        Metadata { level }
    }
}

impl<'a> Record<'a> {
    pub fn new(level: Level, message: &'a str) -> (record: Record<'a>)
        ensures
            record.metadata.level == level,
            record.message@ == message@,
    {
        Record { metadata: Metadata { level }, message }
    }

    /// The severity of the record.
    pub open spec fn severity(&self) -> Level {
        self.metadata.level
    }

    /// The severity of the record.
    pub fn level(&self) -> (level: Level)
        ensures
            level == self.severity(),
    {
        self.metadata.level
    }
}

/// The console primitive that records of `level` go to.
pub open spec fn primitive_for(level: Level) -> Primitive {
    match level {
        Level::Error => Primitive::Error,
        Level::Warn => Primitive::Warn,
        Level::Info => Primitive::Info,
        Level::Debug => Primitive::Log,
        Level::Trace => Primitive::Debug,
    }
}

/// What the bridge answers for `record` under the threshold `max_level`: no
/// call for a record that does not pass, and otherwise what the console
/// operation of the record's level answers for its message.
pub open spec fn emitted(
    host: Host,
    max_level: LevelFilter,
    record: &Record,
    outcome: Result<Option<HostCall>, UnsupportedPlatform>,
) -> bool {
    if record.severity().passes(max_level) {
        match host {
            Host::WithConsole => outcome matches Ok(Some(call)) && call.carries(
                primitive_for(record.severity()),
                record.message@,
            ),
            Host::WithoutConsole => outcome matches Err(e) && e.primitive == primitive_for(
                record.severity(),
            ),
        }
    } else {
        outcome == Ok::<Option<HostCall>, UnsupportedPlatform>(None)
    }
}

/// Hands the record's message to the console operation of its level.
pub fn log_record(host: Host, record: &Record) -> (outcome: Result<HostCall, UnsupportedPlatform>)
    requires
        host is WithConsole ==> representable(record.message@),
    ensures
        forwarded(host, primitive_for(record.severity()), record.message@, outcome),
{
    match record.level() {
        Level::Error => console::error(host, record.message),
        Level::Warn => console::warn(host, record.message),
        Level::Info => console::info(host, record.message),
        Level::Debug => console::log(host, record.message),
        Level::Trace => console::debug(host, record.message),
    }
}

/// The logger that the bridge installs. It holds no state of its own: the
/// threshold and the host are handed to each operation.
#[derive(Clone, Copy, Debug)]
pub struct WasmLogger;

impl WasmLogger {
    /// Whether a record with this metadata passes the threshold.
    pub fn enabled(&self, max_level: LevelFilter, metadata: &Metadata) -> (yes: bool)
        ensures
            yes == metadata.level.passes(max_level),
    {
        max_level.allows(metadata.level)
    }

    /// Emits the record: nothing if it does not pass the threshold, else the
    /// call that the console operation of its level makes.
    pub fn log(&self, host: Host, max_level: LevelFilter, record: &Record) -> (outcome: Result<
        Option<HostCall>,
        UnsupportedPlatform,
    >)
        requires
            host is WithConsole && record.severity().passes(max_level) ==> representable(
                record.message@,
            ),
        ensures
            emitted(host, max_level, record, outcome),
    {
        if !self.enabled(max_level, &record.metadata) {
            return Ok(None);
        }
        match log_record(host, record) {
            Ok(call) => Ok(Some(call)),
            Err(e) => Err(e),
        }
    }

    /// Nothing is buffered, so flushing makes no call.
    pub fn flush(&self) -> (call: Option<HostCall>)
        ensures
            call is None,
    {
        None
    }
}

/// The mapping from severities to primitives: each level has its own
/// primitive, and each primitive serves exactly one level.
pub proof fn lemma_mapping_is_fixed(level: Level, other: Level)
    ensures
        primitive_for(Level::Error) == Primitive::Error,
        primitive_for(Level::Warn) == Primitive::Warn,
        primitive_for(Level::Info) == Primitive::Info,
        primitive_for(Level::Debug) == Primitive::Log,
        primitive_for(Level::Trace) == Primitive::Debug,
        primitive_for(level) == primitive_for(other) ==> level == other,
{
}

/// Under a threshold made from the level `threshold`, a record at least as
/// severe as the threshold reaches the primitive of its own level, and a
/// less severe record causes no call at all.
pub proof fn lemma_threshold_decides_delivery(
    host: Host,
    threshold: Level,
    record: &Record,
    outcome: Result<Option<HostCall>, UnsupportedPlatform>,
)
    requires
        emitted(host, threshold.filter(), record, outcome),
    ensures
        record.severity().at_least_as_severe_as(threshold) ==> match host {
            Host::WithConsole => outcome matches Ok(Some(call)) && call.carries(
                primitive_for(record.severity()),
                record.message@,
            ),
            Host::WithoutConsole => outcome matches Err(e) && e.primitive == primitive_for(
                record.severity(),
            ),
        },
        !record.severity().at_least_as_severe_as(threshold) ==> outcome matches Ok(None),
{
}

} // verus!

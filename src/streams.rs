use vstd::prelude::*;

verus! {

/// Severity of a log entry, from the most verbose to none at all.
#[derive(Debug, Clone, Copy, PartialEq, Eq, Structural)]
pub enum LogLevel {
    Trace,
    Debug,
    Info,
    Warn,
    Error,
    Off,
}

impl LogLevel {
    pub open spec fn rank_spec(self) -> nat {
        match self {
            LogLevel::Trace => 0,
            LogLevel::Debug => 1,
            LogLevel::Info => 2,
            LogLevel::Warn => 3,
            LogLevel::Error => 4,
            LogLevel::Off => 5,
        }
    }

    pub fn rank(&self) -> (r: u8)
        ensures
            r == self.rank_spec(),
    {
        match self {
            LogLevel::Trace => 0,
            LogLevel::Debug => 1,
            LogLevel::Info => 2,
            LogLevel::Warn => 3,
            LogLevel::Error => 4,
            LogLevel::Off => 5,
        }
    }
}

/// One log line: its level, the component that wrote it, and the text.
#[derive(Debug, Clone)]
pub struct LogEntry {
    pub level: LogLevel,
    pub tag: String,
    pub msg: String,
    pub from_dependency: bool,
}

/// Whether a stream set to `threshold` takes an entry of `level`: `Off`
/// takes nothing, any other threshold takes its level and above, and entries
/// of dependencies only where they are asked for.
pub open spec fn log_accepts(threshold: LogLevel, log_dependencies: bool, level: LogLevel, from_dependency: bool) -> bool {
    &&& !(threshold is Off)
    &&& !(level is Off)
    &&& level.rank_spec() >= threshold.rank_spec()
    &&& (!from_dependency || log_dependencies)
}

/// A handle that collects the log entries that pass its filter until the
/// host takes them.
pub struct LogStream {
    level: LogLevel,
    log_dependencies: bool,
    entries: Vec<LogEntry>,
}

impl LogStream {
    pub closed spec fn level_spec(&self) -> LogLevel {
        self.level
    }

    pub closed spec fn log_dependencies_spec(&self) -> bool {
        self.log_dependencies
    }

    pub closed spec fn pending(&self) -> Seq<LogEntry> {
        self.entries@
    }

    /// Whether this stream takes an entry of `level`.
    pub fn accepts(&self, level: LogLevel, from_dependency: bool) -> (r: bool)
        ensures
            r == log_accepts(self.level_spec(), self.log_dependencies_spec(), level, from_dependency),
    {
        let off = matches!(self.level, LogLevel::Off) || matches!(level, LogLevel::Off);
        !off && level.rank() >= self.level.rank() && (!from_dependency || self.log_dependencies)
    }

    /// Queues the entry where the filter takes it; says whether it did.
    pub fn log(&mut self, entry: LogEntry) -> (r: bool)
        ensures
            r == log_accepts(old(self).level_spec(), old(self).log_dependencies_spec(), entry.level, entry.from_dependency),
            final(self).pending() == if r { old(self).pending().push(entry) } else { old(self).pending() },
            final(self).level_spec() == old(self).level_spec(),
            final(self).log_dependencies_spec() == old(self).log_dependencies_spec(),
    {
        let r = self.accepts(entry.level, entry.from_dependency);
        if r {
            self.entries.push(entry);
        }
        r
    }

    /// Hands over the queued entries, oldest first, and empties the queue.
    pub fn take(&mut self) -> (r: Vec<LogEntry>)
        ensures
            r@ == old(self).pending(),
            final(self).pending().len() == 0,
            final(self).level_spec() == old(self).level_spec(),
            final(self).log_dependencies_spec() == old(self).log_dependencies_spec(),
    {
        let mut out: Vec<LogEntry> = Vec::new();
        core::mem::swap(&mut out, &mut self.entries);
        out
    }
}

/// Opens a log stream that takes entries of `level` and above, and those of
/// dependencies where `log_dependencies` is set.
pub fn create_log_stream(level: LogLevel, log_dependencies: bool) -> (r: LogStream)
    ensures
        r.level_spec() == level,
        r.log_dependencies_spec() == log_dependencies,
        r.pending().len() == 0,
{
    LogStream { level, log_dependencies, entries: Vec::new() }
}

/// The height that the chain tip has reached.
#[derive(Debug, Clone, Copy, PartialEq, Eq, Structural)]
pub struct SyncStatus {
    pub blockheight: u32,
}

/// How far a scan has come: it runs from `start` to `end` and has reached
/// `current`.
#[derive(Debug, Clone, Copy, PartialEq, Eq, Structural)]
pub struct ScanProgress {
    pub start: u32,
    pub current: u32,
    pub end: u32,
}

/// How a stream ended.
#[derive(Debug, Clone)]
pub enum StreamEnd {
    Done,
    Failed(String),
}

/// A push channel: events queue up in order until the host takes them; one
/// terminal event, a completion or a failure, closes it, after which no event
/// is taken.
pub struct EventStream<T> {
    events: Vec<T>,
    end: Option<StreamEnd>,
}

impl<T> EventStream<T> {
    pub closed spec fn pending(&self) -> Seq<T> {
        self.events@
    }

    pub closed spec fn end_spec(&self) -> Option<StreamEnd> {
        self.end
    }

    /// An open stream with nothing queued.
    pub fn new() -> (r: EventStream<T>)
        ensures
            r.pending().len() == 0,
            r.end_spec() is None,
    {
        EventStream { events: Vec::new(), end: None }
    }

    pub fn is_closed(&self) -> (r: bool)
        ensures
            r == self.end_spec() is Some,
    {
        self.end.is_some()
    }

    /// Queues an event while the stream is open; says whether it did.
    pub fn push(&mut self, ev: T) -> (r: bool)
        ensures
            r == old(self).end_spec() is None,
            final(self).pending() == if r { old(self).pending().push(ev) } else { old(self).pending() },
            final(self).end_spec() == old(self).end_spec(),
    {
        if self.end.is_some() {
            false
        } else {
            self.events.push(ev);
            true
        }
    }

    /// Closes an open stream with its terminal event; says whether it was open.
    pub fn close(&mut self, end: StreamEnd) -> (r: bool)
        ensures
            r == old(self).end_spec() is None,
            final(self).end_spec() == if r { Some(end) } else { old(self).end_spec() },
            final(self).pending() == old(self).pending(),
    {
        if self.end.is_some() {
            false
        } else {
            self.end = Some(end);
            true
        }
    }

    /// Hands over the queued events, oldest first, and empties the queue.
    pub fn take(&mut self) -> (r: Vec<T>)
        ensures
            r@ == old(self).pending(),
            final(self).pending().len() == 0,
            final(self).end_spec() == old(self).end_spec(),
    {
        let mut out: Vec<T> = Vec::new();
        core::mem::swap(&mut out, &mut self.events);
        out
    }
}

/// Opens the stream of chain-tip heights.
pub fn create_sync_stream() -> (r: EventStream<SyncStatus>)
    ensures
        r.pending().len() == 0,
        r.end_spec() is None,
{
    EventStream::new()
}

/// Opens the stream of scan progress, one event per scanned block.
pub fn create_scan_progress_stream() -> (r: EventStream<ScanProgress>)
    ensures
        r.pending().len() == 0,
        r.end_spec() is None,
{
    EventStream::new()
}

/// Opens the stream of balance updates, in satoshis.
pub fn create_amount_stream() -> (r: EventStream<u64>)
    ensures
        r.pending().len() == 0,
        r.end_spec() is None,
{
    EventStream::new()
}

} // verus!

//! Logging: message levels, the filter, and the line written for a message.
use vstd::prelude::*;
use vstd::string::StringExecFns;
use std::collections::HashMap;
use crate::text::str_is;

verus! {

/// The levels of log messages, from the least to the most severe.
#[derive(Debug, Clone, Copy, PartialEq, Eq, Structural)]
pub enum LogType {
    Debug,
    Info,
    Warning,
    Error,
    Fatal,
}

impl LogType {
    /// The rank of the level: 0 for Debug up to 4 for Fatal.
    pub open spec fn rank(self) -> u16 {
        match self {
            LogType::Debug => 0,
            LogType::Info => 1,
            LogType::Warning => 2,
            LogType::Error => 3,
            LogType::Fatal => 4,
        }
    }

    /// The levels are ordered by severity, Debug < Info < Warning < Error <
    /// Fatal, and each is named as it is called.
    pub proof fn lemma_levels_by_severity(self, other: LogType)
        ensures
            LogType::Debug.rank() < LogType::Info.rank(),
            LogType::Info.rank() < LogType::Warning.rank(),
            LogType::Warning.rank() < LogType::Error.rank(),
            LogType::Error.rank() < LogType::Fatal.rank(),
            self.rank() == other.rank() ==> self == other,
            LogType::Debug.spec_name() == "Debug"@,
            LogType::Info.spec_name() == "Info"@,
            LogType::Warning.spec_name() == "Warning"@,
            LogType::Error.spec_name() == "Error"@,
            LogType::Fatal.spec_name() == "Fatal"@,
    {
    }

    pub open spec fn spec_name(self) -> Seq<char> {
        match self {
            LogType::Debug => "Debug"@,
            LogType::Info => "Info"@,
            LogType::Warning => "Warning"@,
            LogType::Error => "Error"@,
            LogType::Fatal => "Fatal"@,
        }
    }

    pub fn name(&self) -> (s: &'static str)
        ensures
            s@ == self.spec_name(),
    {
        match self {
            LogType::Debug => "Debug",
            LogType::Info => "Info",
            LogType::Warning => "Warning",
            LogType::Error => "Error",
            LogType::Fatal => "Fatal",
        }
    }

    pub fn value(&self) -> (v: u16)
        ensures
            v == self.rank(),
    {
        match self {
            LogType::Debug => 0,
            LogType::Info => 1,
            LogType::Warning => 2,
            LogType::Error => 3,
            LogType::Fatal => 4,
        }
    }
}

/// Whether a message of level `log_type` passes a log set to `log_level`:
/// it does when it is at least as severe.
pub fn should_log(log_type: LogType, log_level: LogType) -> (r: bool)
    ensures
        r == (log_type.rank() >= log_level.rank()),
{
    log_type.value() >= log_level.value()
}

/// The line logged for `message` of level `log_type` at time `date`.
pub open spec fn log_line(date: Seq<char>, log_type: LogType, message: Seq<char>) -> Seq<char> {
    date + " - ["@ + log_type.spec_name() + "] - "@ + message
}

/// Formatting of log lines.
pub struct LogUtils {}

impl LogUtils {
    /// The line logged for `message` of level `log_type` at time `date`:
    /// "date - [Level] - message".
    pub fn format_line(date: &str, log_type: LogType, message: &str) -> (r: String)
        ensures
            r@ == log_line(date@, log_type, message@),
    {
        let mut s = date.to_owned();
        s.append(" - [");
        s.append(log_type.name());
        s.append("] - ");
        s.append(message);
        s
    }
}

/// A log that writes to the console.
pub struct ConsoleLog {}

impl ConsoleLog {
    /// A console log; it takes no parameters.
    pub fn new(_params: &HashMap<String, String>) -> (l: ConsoleLog) {
        ConsoleLog {}
    }

    /// The name of the module.
    pub fn signature(&self) -> (s: String)
        ensures
            s@ == "Console Log Module"@,
    {
        "Console Log Module".to_owned()
    }
}

/// A log to a file; it writes nothing.
pub struct FileLog {}

impl FileLog {
    /// A file log; it takes no parameters.
    pub fn new(_params: HashMap<String, String>) -> (l: FileLog) {
        FileLog {}
    }
}

/// The logs that can be chosen by name.
#[derive(Debug, Clone, Copy, PartialEq, Eq, Structural)]
pub enum LogKind {
    Console,
    File,
}

impl LogKind {
    /// The name the driver of this kind reports.
    pub open spec fn spec_signature(self) -> Seq<char> {
        match self {
            LogKind::Console => "Console Log Module"@,
            LogKind::File => "File Log Module"@,
        }
    }

    /// The name the driver of this kind reports (see `spec_signature`).
    pub fn signature(&self) -> (s: String)
        ensures
            s@ == self.spec_signature(),
    {
        match self {
            LogKind::Console => "Console Log Module".to_owned(),
            LogKind::File => "File Log Module".to_owned(),
        }
    }
}

/// The log called `name` ("console" or "file"), filtered at `log_level`, if any.
pub fn log_by_name(name: &str, log_level: LogType, _params: &HashMap<String, String>) -> (r: Option<(LogKind, LogType)>)
    ensures
        name@ == "console"@ ==> r == Some((LogKind::Console, log_level)),
        name@ == "file"@ ==> r == Some((LogKind::File, log_level)),
        name@ != "console"@ && name@ != "file"@ ==> r is None,
        name@ == "console"@ ==> r.unwrap().0.spec_signature() == "Console Log Module"@,
        name@ == "file"@ ==> r.unwrap().0.spec_signature() == "File Log Module"@,
{
    proof {
        reveal_strlit("console");
        reveal_strlit("file");
        assert("console"@.len() != "file"@.len());
    }
    if str_is(name, "console") {
        Some((LogKind::Console, log_level))
    } else if str_is(name, "file") {
        Some((LogKind::File, log_level))
    } else {
        None
    }
}

/// A log driver.
pub trait Log {
    fn init(&mut self) -> Result<(), String>;
    fn log(&self, log_type: LogType, message: String) -> Result<(), String>;
    fn unload(&mut self) -> Result<(), String>;
    fn signature(&self) -> String;
}

impl Log for FileLog {
    /// Starts the log: nothing to open.
    fn init(&mut self) -> (r: Result<(), String>)
        ensures
            r is Ok,
    {
        Ok(())
    }

    /// Logs a message: nothing is written.
    fn log(&self, _log_type: LogType, _message: String) -> (r: Result<(), String>)
        ensures
            r is Ok,
    {
        Ok(())
    }

    /// Stops the log.
    fn unload(&mut self) -> (r: Result<(), String>)
        ensures
            r is Ok,
    {
        Ok(())
    }

    /// The name of the module.
    fn signature(&self) -> (s: String)
        ensures
            s@ == "File Log Module"@,
    {
        "File Log Module".to_owned()
    }
}

} // verus!

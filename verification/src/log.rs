//! The data types of `rosout` logging.

use rustdds::Timestamp;
use vstd::prelude::*;

verus! {

/// A log message as it travels over the `rosout` topic.
#[derive(Debug)]
pub struct Log {
    /// When the message was sent.
    pub timestamp: Timestamp,
    /// The severity, as one of the level numbers of [`LogLevel`].
    pub level: u8,
    /// The name of the logger.
    pub name: String,
    /// The message itself.
    pub msg: String,
    /// The source file that logged the message.
    pub file: String,
    /// The function that logged the message.
    pub function: String,
    /// The line in `file`.
    pub line: u32,
}

impl Clone for Log {
    fn clone(&self) -> (copy: Self)
        ensures
            copy.timestamp == self.timestamp,
            copy.level == self.level,
            copy.name@ == self.name@,
            copy.msg@ == self.msg@,
            copy.file@ == self.file@,
            copy.function@ == self.function@,
            copy.line == self.line,
    {
        Log {
            timestamp: self.timestamp,
            level: self.level,
            name: self.name.clone(),
            msg: self.msg.clone(),
            file: self.file.clone(),
            function: self.function.clone(),
            line: self.line,
        }
    }
}

impl Log {
    /// The level number of debug messages.
    pub const DEBUG: u8 = 10;

    /// The level number of informational messages.
    pub const INFO: u8 = 20;

    /// The level number of warnings.
    pub const WARN: u8 = 30;

    /// The level number of errors.
    pub const ERROR: u8 = 40;

    /// The level number of fatal errors.
    pub const FATAL: u8 = 50;

    /// When the message was sent.
    pub fn get_timestamp(&self) -> (timestamp: &Timestamp)
        ensures
            *timestamp == self.timestamp,
    {
        &self.timestamp
    }

    /// The severity.
    pub fn get_level(&self) -> (level: u8)
        ensures
            level == self.level,
    {
        self.level
    }

    /// The name of the logger.
    pub fn name(&self) -> (name: &str)
        ensures
            name@ == self.name@,
    {
        self.name.as_str()
    }

    /// The message itself.
    pub fn get_msg(&self) -> (msg: &str)
        ensures
            msg@ == self.msg@,
    {
        self.msg.as_str()
    }

    /// The source file that logged the message.
    pub fn get_file(&self) -> (file: &str)
        ensures
            file@ == self.file@,
    {
        self.file.as_str()
    }

    /// The function that logged the message.
    pub fn get_function(&self) -> (function: &str)
        ensures
            function@ == self.function@,
    {
        self.function.as_str()
    }

    /// The line in the source file.
    pub fn get_line(&self) -> (line: u32)
        ensures
            line == self.line,
    {
        self.line
    }
}

/// The severity of a log message, from the least to the most severe.
#[derive(Clone, Copy, PartialEq, Eq, Structural, PartialOrd, Ord, Debug)]
pub enum LogLevel {
    /// For the developer.
    Debug,
    /// Worth knowing.
    Info,
    /// Something may be wrong.
    Warn,
    /// Something is wrong.
    Error,
    /// The node cannot go on.
    Fatal,
}

impl LogLevel {
    /// The level number of the severity.
    pub open spec fn spec_level(self) -> u8 {
        match self {
            LogLevel::Debug => 10,
            LogLevel::Info => 20,
            LogLevel::Warn => 30,
            LogLevel::Error => 40,
            LogLevel::Fatal => 50,
        }
    }

    /// The level number of the severity, as [`Log`] carries it.
    #[verifier::when_used_as_spec(spec_level)]
    pub fn level(self) -> (level: u8)
        ensures
            level == self.spec_level(),
    {
        match self {
            LogLevel::Debug => Log::DEBUG,
            LogLevel::Info => Log::INFO,
            LogLevel::Warn => Log::WARN,
            LogLevel::Error => Log::ERROR,
            LogLevel::Fatal => Log::FATAL,
        }
    }
}

} // verus!

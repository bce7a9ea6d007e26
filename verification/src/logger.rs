use vstd::prelude::*;

verus! {

// ---------------------------------------------------------------------------
// Leveled log formatting.
// ---------------------------------------------------------------------------

/// The severity of a log line.
#[derive(Clone, Copy, Debug, PartialEq, Eq, Structural)]
pub enum LogLevel {
    Debug,
    Info,
    Warning,
    Error,
}

impl Default for LogLevel {
    fn default() -> (res: Self)
        ensures
            res == LogLevel::Info,
    {
        LogLevel::Info
    }
}

/// The prefix a level puts before its message.
pub open spec fn level_prefix(level: LogLevel) -> Seq<char> {
    match level {
        LogLevel::Debug => "DEBUG: "@,
        LogLevel::Info => "INFO: "@,
        LogLevel::Warning => "WARNING: "@,
        LogLevel::Error => "ERROR: "@,
    }
}

/// One formatted log line: the level's prefix, the message, and a newline.
pub open spec fn log_line(level: LogLevel, message: Seq<char>) -> Seq<char> {
    level_prefix(level) + message + "\n"@
}

/// Formats leveled log lines into an internal buffer; a sink empties the
/// buffer and writes it out.
#[derive(Debug)]
pub struct Logger {
    pub out: String,
}

impl Logger {
    /// A logger with an empty buffer.
    pub fn new() -> (r: Self)
        ensures
            r.out@ == Seq::<char>::empty(),
    {
        Logger { out: String::new() }
    }

    /// Appends one line at the given level.
    pub fn log(&mut self, level: LogLevel, message: &str)
        ensures
            final(self).out@ == old(self).out@ + log_line(level, message@),
    {
        match level {
            LogLevel::Debug => {
                self.out.append("DEBUG: ");
            },
            LogLevel::Info => {
                self.out.append("INFO: ");
            },
            LogLevel::Warning => {
                self.out.append("WARNING: ");
            },
            LogLevel::Error => {
                self.out.append("ERROR: ");
            },
        }
        self.out.append(message);
        self.out.append("\n");
        proof {
            assert(self.out@ =~= old(self).out@ + log_line(level, message@));
        }
    }

    /// Appends one line at debug level.
    pub fn debug(&mut self, message: &str)
        ensures
            final(self).out@ == old(self).out@ + log_line(LogLevel::Debug, message@),
    {
        self.log(LogLevel::Debug, message)
    }

    /// Appends one line at info level.
    pub fn info(&mut self, message: &str)
        ensures
            final(self).out@ == old(self).out@ + log_line(LogLevel::Info, message@),
    {
        self.log(LogLevel::Info, message)
    }

    /// Appends one line at warning level.
    pub fn warning(&mut self, message: &str)
        ensures
            final(self).out@ == old(self).out@ + log_line(LogLevel::Warning, message@),
    {
        self.log(LogLevel::Warning, message)
    }

    /// Appends one line at error level.
    pub fn error(&mut self, message: &str)
        ensures
            final(self).out@ == old(self).out@ + log_line(LogLevel::Error, message@),
    {
        self.log(LogLevel::Error, message)
    }

    /// The buffered output.
    pub fn output(&self) -> (r: &String)
        ensures
            r@ == self.out@,
    {
        &self.out
    }

    /// Empties the buffer and hands its contents out, for a sink to write.
    pub fn take_output(&mut self) -> (r: String)
        ensures
            r@ == old(self).out@,
            final(self).out@ == Seq::<char>::empty(),
    {
        let r = self.out.clone();
        self.out = String::new();
        r
    }
}

} // verus!

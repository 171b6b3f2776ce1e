use vstd::prelude::*;

verus! {

/// Severity of a log record, in the backend's vocabulary.
#[derive(Clone, Copy, Debug, PartialEq, Eq, Structural)]
pub enum DataDogLogLevel {
    /// System is unusable
    Emergency,
    /// Action must be taken immediately
    Alert,
    /// Critical conditions
    Critical,
    /// Error conditions
    Error,
    /// Warning conditions
    Warning,
    /// Normal but significant condition
    Notice,
    /// Informational messages
    Informational,
    /// Debug-level messages
    Debug,
}

impl DataDogLogLevel {
    /// The text the backend understands for this level.
    pub open spec fn text(self) -> Seq<char> {
        match self {
            DataDogLogLevel::Emergency => "emerg"@,
            DataDogLogLevel::Alert => "alert"@,
            DataDogLogLevel::Critical => "critical"@,
            DataDogLogLevel::Error => "error"@,
            DataDogLogLevel::Warning => "warning"@,
            DataDogLogLevel::Notice => "notice"@,
            DataDogLogLevel::Informational => "info"@,
            DataDogLogLevel::Debug => "debug"@,
        }
    }

    /// The level as the text the backend understands.
    pub fn to_text(&self) -> (r: String)
        ensures
            r@ == self.text(),
    {
        let s: &str = match self {
            DataDogLogLevel::Emergency => "emerg",
            DataDogLogLevel::Alert => "alert",
            DataDogLogLevel::Critical => "critical",
            DataDogLogLevel::Error => "error",
            DataDogLogLevel::Warning => "warning",
            DataDogLogLevel::Notice => "notice",
            DataDogLogLevel::Informational => "info",
            DataDogLogLevel::Debug => "debug",
        };
        s.to_owned()
    }
}

} // verus!

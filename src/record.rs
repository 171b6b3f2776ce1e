use vstd::prelude::*;

verus! {

/// One log entry, with the routing metadata the backend expects.
///
/// Built once per logging call and never changed afterwards: it belongs to
/// the producer until it is enqueued, and to the dispatcher after that.
#[derive(Clone, Debug, PartialEq)]
pub struct DataDogLog {
    /// The message
    pub message: String,
    /// Message tags
    pub ddtags: Option<String>,
    /// Message source
    pub ddsource: String,
    /// Host that sent the message
    pub host: String,
    /// Service that sent the message
    pub service: String,
    /// Backend-understandable string indicating the level
    pub level: String,
    /// The trace in which this log was generated
    pub trace_id: String,
    /// The span in which this log was generated
    pub span_id: String,
}

} // verus!

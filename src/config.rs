use vstd::prelude::*;

verus! {

/// Settings of a logger: the defaults stamped on every record, and how its
/// channels are made.
#[derive(Clone, Debug)]
pub struct DataDogConfig {
    /// Tags attached to every record
    pub tags: Option<String>,
    /// Service name attached to every record (empty when absent)
    pub service: Option<String>,
    /// Host name attached to every record (empty when absent)
    pub hostname: Option<String>,
    /// Source attached to every record
    pub source: String,
    /// Whether the logger keeps a channel of diagnostics about its own failures
    pub enable_self_log: bool,
    /// Capacity of the record channel; unbounded when absent
    pub messages_channel_capacity: Option<usize>,
}

} // verus!

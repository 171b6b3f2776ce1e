use vstd::prelude::*;

use flume::{Receiver, Sender};

use crate::config::DataDogConfig;
use crate::level::DataDogLogLevel;
use crate::record::DataDogLog;

verus! {

#[verifier::external_type_specification]
#[verifier::external_body]
#[verifier::reject_recursive_types(T)]
pub struct ExSender<T>(flume::Sender<T>);

#[verifier::external_type_specification]
#[verifier::external_body]
#[verifier::reject_recursive_types(T)]
pub struct ExReceiver<T>(flume::Receiver<T>);

/// The capacity a record channel was made with; `None` when it is unbounded.
pub uninterp spec fn record_bound(s: Sender<DataDogLog>) -> Option<usize>;

/// The capacity a diagnostic channel was made with; `None` when it is unbounded.
pub uninterp spec fn note_bound(s: Sender<String>) -> Option<usize>;

/// Relies on flume::bounded: a record channel that holds at most `cap`
/// records, a capacity fixed when the channel is made.
#[verifier::external_body]
fn bounded_records(cap: usize) -> (r: (Sender<DataDogLog>, Receiver<DataDogLog>))
    ensures
        record_bound(r.0) == Some(cap),
{
    flume::bounded(cap)
}

/// Relies on flume::unbounded: a record channel with no capacity.
#[verifier::external_body]
fn unbounded_records() -> (r: (Sender<DataDogLog>, Receiver<DataDogLog>))
    ensures
        record_bound(r.0) is None,
{
    flume::unbounded()
}

/// Relies on flume::bounded: a diagnostic channel that holds at most `cap`
/// texts, a capacity fixed when the channel is made.
#[verifier::external_body]
fn bounded_notes(cap: usize) -> (r: (Sender<String>, Receiver<String>))
    ensures
        note_bound(r.0) == Some(cap),
{
    flume::bounded(cap)
}

/// Relies on flume's `Clone` for `Sender`: another sending end of the same
/// channel, so of the same capacity.
#[verifier::external_body]
fn another_note_sender(s: &Sender<String>) -> (r: Sender<String>)
    ensures
        note_bound(r) == note_bound(*s),
{
    s.clone()
}

/// How many diagnostics the self-log channel holds before it drops new ones.
pub const SELF_LOG_CAPACITY: usize = 100;

/// The text of a failed enqueue on a bounded channel that is full.
pub open spec fn full_channel_text() -> Seq<char> {
    "sending on a full channel"@
}

/// The text of a failed enqueue on a channel whose receiving end is gone.
pub open spec fn closed_channel_text() -> Seq<char> {
    "sending on a closed channel"@
}

/// Relies on flume::Sender::try_send, which never waits and reports a full
/// channel only when the channel is bounded, and on the `Display` of its
/// error, which is one of two fixed texts.
#[verifier::external_body]
fn try_enqueue_record(sender: &Sender<DataDogLog>, value: DataDogLog) -> (r: Result<(), String>)
    ensures
        r is Err ==> (r->Err_0@ == full_channel_text() || r->Err_0@ == closed_channel_text()),
        r is Err && record_bound(*sender) is None ==> r->Err_0@ == closed_channel_text(),
{
    sender.try_send(value).map_err(|e| e.to_string())
}

/// Relies on flume::Sender::try_send, which never waits, and on the `Display`
/// of its error, which is one of two fixed texts.
#[verifier::external_body]
pub(crate) fn try_enqueue_note(sender: &Sender<String>, value: String) -> (r: Result<(), String>)
    ensures
        r is Err ==> (r->Err_0@ == full_channel_text() || r->Err_0@ == closed_channel_text()),
{
    sender.try_send(value).map_err(|e| e.to_string())
}

/// The text a failed enqueue on any channel reads.
pub open spec fn is_enqueue_error_text(t: Seq<char>) -> bool {
    t == full_channel_text() || t == closed_channel_text()
}

/// What one logging call did with its record.
#[derive(Debug, PartialEq)]
pub enum LogOutcome {
    /// The record is in the channel, on its way to the dispatcher.
    Enqueued,
    /// The channel refused the record, which is dropped. `text` is the
    /// refusal's text; `reported` is the outcome of offering it to the
    /// self-log channel, or `None` when there is no self-log channel.
    Dropped { text: String, reported: Option<Result<(), String>> },
    /// The logger was closed: nothing was offered anywhere.
    Closed,
}

/// The text an optional setting stands for: the setting, or nothing.
pub open spec fn text_or_empty(o: Option<String>) -> Seq<char> {
    match o {
        Some(s) => s@,
        None => Seq::empty(),
    }
}

/// The view of an optional text.
pub open spec fn opt_text(o: Option<String>) -> Option<Seq<char>> {
    match o {
        Some(s) => Some(s@),
        None => None,
    }
}

fn copy_opt(o: &Option<String>) -> (r: Option<String>)
    ensures
        opt_text(r) == opt_text(*o),
{
    match o {
        Some(s) => Some(s.clone()),
        None => None,
    }
}

fn text_or_default(o: &Option<String>) -> (r: String)
    ensures
        r@ == text_or_empty(*o),
{
    match o {
        Some(s) => s.clone(),
        None => String::new(),
    }
}

/// Builds the record for one logging call: the message and level of the
/// call, with tags, source, host and service taken from the configuration.
/// A record made here carries no trace or span.
pub fn build_record(config: &DataDogConfig, message: &str, level: DataDogLogLevel) -> (r:
    DataDogLog)
    ensures
        r.message@ == message@,
        opt_text(r.ddtags) == opt_text(config.tags),
        r.ddsource@ == config.source@,
        r.host@ == text_or_empty(config.hostname),
        r.service@ == text_or_empty(config.service),
        r.level@ == level.text(),
        r.trace_id@ == Seq::<char>::empty(),
        r.span_id@ == Seq::<char>::empty(),
{
    DataDogLog {
        message: message.to_owned(),
        ddtags: copy_opt(&config.tags),
        ddsource: config.source.clone(),
        host: text_or_default(&config.hostname),
        service: text_or_default(&config.service),
        level: level.to_text(),
        trace_id: String::new(),
        span_id: String::new(),
    }
}

/// The diagnostic owed for the outcome of an enqueue: none on success, the
/// error's text on failure.
pub fn enqueue_diagnostic(outcome: Result<(), String>) -> (r: Option<String>)
    ensures
        outcome is Ok ==> r is None,
        outcome is Err ==> r == Some(outcome->Err_0),
{
    match outcome {
        Ok(()) => None,
        Err(text) => Some(text),
    }
}

/// The ends of a logger's channels that belong to its dispatcher.
#[derive(Debug)]
pub struct DispatcherEnds {
    /// Where the dispatcher takes records from
    pub records: Receiver<DataDogLog>,
    /// Where the dispatcher reports its failures, if diagnostics are on
    pub selflog: Option<Sender<String>>,
}

/// The producer side of a logger: building records and offering them to the
/// dispatcher without ever waiting.
#[derive(Debug)]
pub struct DataDogLogger {
    config: DataDogConfig,
    logsender: Option<Sender<DataDogLog>>,
    selflogrv: Option<Receiver<String>>,
    selflogsd: Option<Sender<String>>,
}

impl DataDogLogger {
    /// Both ends of the self-log channel are held, or neither.
    #[verifier::type_invariant]
    spec fn self_log_paired(&self) -> bool {
        (self.selflogrv is Some) == (self.selflogsd is Some)
    }

    /// The configuration the logger was made with.
    pub closed spec fn spec_config(&self) -> DataDogConfig {
        self.config
    }

    /// Whether records can still be offered to the dispatcher.
    pub closed spec fn is_open(&self) -> bool {
        self.logsender is Some
    }

    /// Whether the logger keeps a self-log channel.
    pub closed spec fn has_self_log(&self) -> bool {
        &&& self.selflogrv is Some
        &&& self.selflogsd is Some
    }

    /// The capacity of the record channel, while the logger is open.
    pub closed spec fn record_capacity(&self) -> Option<usize> {
        record_bound(self.logsender->Some_0)
    }

    /// The capacity of the self-log channel, while the logger has one.
    pub closed spec fn self_log_capacity(&self) -> Option<usize> {
        note_bound(self.selflogsd->Some_0)
    }

    /// Whether neither end of a self-log channel is held.
    pub closed spec fn lacks_self_log(&self) -> bool {
        &&& self.selflogrv is None
        &&& self.selflogsd is None
    }

    /// Makes a logger and the channel ends its dispatcher needs.
    ///
    /// The record channel holds `messages_channel_capacity` records, or is
    /// unbounded without it. A self-log channel of `SELF_LOG_CAPACITY`
    /// entries is made exactly when `enable_self_log` is set; otherwise none
    /// is allocated and neither side holds one.
    pub fn open(config: DataDogConfig) -> (r: (DataDogLogger, DispatcherEnds))
        ensures
            r.0.spec_config() == config,
            r.0.is_open(),
            r.0.record_capacity() == config.messages_channel_capacity,
            r.0.has_self_log() == config.enable_self_log,
            config.enable_self_log ==> r.0.self_log_capacity() == Some(SELF_LOG_CAPACITY),
            config.enable_self_log ==> r.1.selflog is Some && note_bound(r.1.selflog->Some_0)
                == Some(SELF_LOG_CAPACITY),
            !config.enable_self_log ==> r.0.lacks_self_log() && r.1.selflog is None,
    {
        let (slsender, slreceiver, slforward) = if config.enable_self_log {
            let (s, r) = bounded_notes(SELF_LOG_CAPACITY);
            let forward = another_note_sender(&s);
            (Some(s), Some(r), Some(forward))
        } else {
            (None, None, None)
        };
        let (sender, receiver) = match config.messages_channel_capacity {
            Some(capacity) => bounded_records(capacity),
            None => unbounded_records(),
        };
        let logger = DataDogLogger {
            config,
            logsender: Some(sender),
            selflogrv: slreceiver,
            selflogsd: slsender,
        };
        (logger, DispatcherEnds { records: receiver, selflog: slforward })
    }

    /// The configuration the logger was made with.
    pub fn config(&self) -> (r: &DataDogConfig)
        ensures
            *r == self.spec_config(),
    {
        &self.config
    }

    /// The receiving end of the self-log channel, which carries the text of
    /// the logger's own failures; `None` unless self-log was enabled.
    pub fn selflog(&self) -> (r: &Option<Receiver<String>>)
        ensures
            r is Some <==> self.has_self_log(),
            r is None <==> self.lacks_self_log(),
    {
        proof {
            use_type_invariant(self);
        }
        &self.selflogrv
    }

    /// Offers a record to the dispatcher without waiting and without any I/O.
    ///
    /// Should the channel be full or its dispatcher gone, the record is
    /// dropped, and the refusal's text is offered once to the self-log
    /// channel if there is one; should that be full too, the text is dropped.
    /// An unbounded channel refuses a record only once its dispatcher is gone.
    pub fn log(&self, message: &str, level: DataDogLogLevel) -> (r: LogOutcome)
        ensures
            !self.is_open() <==> r is Closed,
            r is Dropped ==> is_enqueue_error_text(r->text@),
            r is Dropped && self.record_capacity() is None ==> r->text@ == closed_channel_text(),
            r is Dropped ==> (r->reported is Some <==> self.has_self_log()),
            r is Dropped && r->reported is Some && r->reported->Some_0 is Err
                ==> is_enqueue_error_text(r->reported->Some_0->Err_0@),
    {
        proof {
            use_type_invariant(self);
        }
        let record = build_record(&self.config, message, level);
        match &self.logsender {
            None => LogOutcome::Closed,
            Some(sender) => {
                let outcome = try_enqueue_record(sender, record);
                match enqueue_diagnostic(outcome) {
                    None => LogOutcome::Enqueued,
                    Some(text) => {
                        let reported = match &self.selflogsd {
                            Some(selflog) => Some(try_enqueue_note(selflog, text.clone())),
                            None => None,
                        };
                        LogOutcome::Dropped { text, reported }
                    },
                }
            },
        }
    }

    /// Closes the producer side: the dispatcher drains what was enqueued
    /// and stops. Later calls to `log` do nothing.
    pub fn close(&mut self)
        ensures
            !final(self).is_open(),
            final(self).spec_config() == old(self).spec_config(),
            final(self).has_self_log() == old(self).has_self_log(),
            final(self).lacks_self_log() == old(self).lacks_self_log(),
            old(self).has_self_log() ==> final(self).self_log_capacity() == old(
                self,
            ).self_log_capacity(),
    {
        proof {
            use_type_invariant(&*self);
        }
        self.logsender = None;
    }
}

} // verus!

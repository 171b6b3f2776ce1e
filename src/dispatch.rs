use vstd::prelude::*;

use flume::Sender;

use crate::logger::try_enqueue_note;
use crate::record::DataDogLog;

verus! {

/// Number of records after which an accumulating batch is delivered at once.
pub const FLUSH_THRESHOLD: usize = 50;

/// Where the dispatcher goes once the batch it handed out has been delivered.
#[derive(Clone, Copy, Debug, PartialEq, Eq, Structural)]
pub enum AfterDelivery {
    /// The batch was full: go on taking records.
    Resume,
    /// The channel was empty: wait for the next record.
    Sleep,
    /// The channel was closed: stop.
    Finish,
}

/// The stage a dispatcher is in.
#[derive(Clone, Copy, Debug, PartialEq, Eq, Structural)]
pub enum Phase {
    /// Taking records from the channel into the batch.
    Collecting,
    /// The batch has been handed out and its delivery is awaited.
    Delivering(AfterDelivery),
    /// The channel is closed and nothing is left: the dispatcher has stopped.
    Finished,
}

/// What the shell around the dispatcher observed.
pub enum Event {
    /// A record was taken from the channel.
    Record(DataDogLog),
    /// The channel holds no record right now.
    Empty,
    /// The producer side is gone and the channel holds no record.
    Closed,
    /// The batch was delivered, or delivery failed with this text.
    Delivered(Result<(), String>),
}

/// What the shell around the dispatcher must do next.
#[derive(Clone, Copy, Debug, PartialEq, Eq, Structural)]
pub enum Action {
    /// Try to take the next record without waiting.
    Poll,
    /// Hand the current batch to the delivery client and report the outcome.
    Deliver,
    /// Suspend until a record arrives or the channel closes.
    Wait,
    /// Terminate.
    Stop,
}

/// A decision of the dispatcher: the next action, and a diagnostic text to
/// offer to the self-log channel, if any.
pub struct Directive {
    /// What to do next
    pub action: Action,
    /// The text of a failed delivery, to be offered to the self-log channel
    pub report: Option<String>,
}

/// The batching policy as a state machine, independent of how the shell
/// waits (a blocked thread or an awaiting task).
///
/// When a delivery fails, the batch is reported and then discarded: it is
/// never retried, so a batch never grows past the flush threshold and stale
/// records are never sent mixed with newer ones.
pub struct Dispatcher {
    batch: Vec<DataDogLog>,
    phase: Phase,
    attempted: Ghost<Seq<DataDogLog>>,
}

/// The abstract state of a dispatcher.
pub struct DispatcherView {
    /// Records taken from the channel and not yet handed to delivery.
    pub batch: Seq<DataDogLog>,
    /// The stage the dispatcher is in.
    pub phase: Phase,
    /// Every record already handed to delivery, in the order taken.
    pub attempted: Seq<DataDogLog>,
}

impl DispatcherView {
    /// The batch stays under the threshold while collecting, is non-empty
    /// while being delivered, and is empty once stopped.
    pub open spec fn consistent(self) -> bool {
        &&& self.batch.len() <= FLUSH_THRESHOLD
        &&& match self.phase {
            Phase::Collecting => self.batch.len() < FLUSH_THRESHOLD,
            Phase::Delivering(_) => self.batch.len() > 0,
            Phase::Finished => self.batch.len() == 0,
        }
    }

    /// Every record taken so far, in order: those handed to delivery, then the batch.
    pub open spec fn received(self) -> Seq<DataDogLog> {
        self.attempted + self.batch
    }
}

/// The state of a dispatcher that has taken nothing yet.
pub open spec fn initial() -> DispatcherView {
    DispatcherView { batch: Seq::empty(), phase: Phase::Collecting, attempted: Seq::empty() }
}

/// Which events a dispatcher can be given in a state: a delivery outcome
/// exactly while a batch is out, and nothing once it has stopped.
pub open spec fn accepts(s: DispatcherView, e: Event) -> bool {
    match s.phase {
        Phase::Collecting => !(e is Delivered),
        Phase::Delivering(_) => e is Delivered,
        Phase::Finished => false,
    }
}

/// The policy: the next state and action for an event.
pub open spec fn next(s: DispatcherView, e: Event) -> (DispatcherView, Action) {
    match e {
        Event::Record(r) => {
            let b = s.batch.push(r);
            if b.len() >= FLUSH_THRESHOLD {
                (
                    DispatcherView {
                        batch: b,
                        phase: Phase::Delivering(AfterDelivery::Resume),
                        attempted: s.attempted,
                    },
                    Action::Deliver,
                )
            } else {
                (DispatcherView { batch: b, phase: s.phase, attempted: s.attempted }, Action::Poll)
            }
        },
        Event::Empty => {
            if s.batch.len() > 0 {
                (
                    DispatcherView {
                        batch: s.batch,
                        phase: Phase::Delivering(AfterDelivery::Sleep),
                        attempted: s.attempted,
                    },
                    Action::Deliver,
                )
            } else {
                (s, Action::Wait)
            }
        },
        Event::Closed => {
            if s.batch.len() > 0 {
                (
                    DispatcherView {
                        batch: s.batch,
                        phase: Phase::Delivering(AfterDelivery::Finish),
                        attempted: s.attempted,
                    },
                    Action::Deliver,
                )
            } else {
                (
                    DispatcherView { batch: s.batch, phase: Phase::Finished, attempted: s.attempted },
                    Action::Stop,
                )
            }
        },
        Event::Delivered(_) => {
            let (phase, action) = match s.phase {
                Phase::Delivering(AfterDelivery::Resume) => (Phase::Collecting, Action::Poll),
                Phase::Delivering(AfterDelivery::Sleep) => (Phase::Collecting, Action::Wait),
                _ => (Phase::Finished, Action::Stop),
            };
            (
                DispatcherView { batch: Seq::empty(), phase, attempted: s.attempted + s.batch },
                action,
            )
        },
    }
}

/// The diagnostic text that an event calls for: the text of a failed delivery.
pub open spec fn report_of(e: Event) -> Option<String> {
    match e {
        Event::Delivered(Err(t)) => Some(t),
        _ => None,
    }
}

impl View for Dispatcher {
    type V = DispatcherView;

    closed spec fn view(&self) -> DispatcherView {
        DispatcherView { batch: self.batch@, phase: self.phase, attempted: self.attempted@ }
    }
}

impl Dispatcher {
    /// A dispatcher with an empty batch, ready to take records.
    pub fn new() -> (r: Dispatcher)
        ensures
            r@ == initial(),
    {
        Dispatcher { batch: Vec::new(), phase: Phase::Collecting, attempted: Ghost(Seq::empty()) }
    }

    /// The records gathered so far; the batch to deliver on `Action::Deliver`.
    pub fn batch(&self) -> (r: &Vec<DataDogLog>)
        ensures
            r@ == self@.batch,
    {
        &self.batch
    }

    /// The stage the dispatcher is in.
    pub fn phase(&self) -> (r: Phase)
        ensures
            r == self@.phase,
    {
        self.phase
    }

    /// Applies the policy to one event.
    pub fn step(&mut self, event: Event) -> (r: Directive)
        requires
            old(self)@.consistent(),
            accepts(old(self)@, event),
        ensures
            final(self)@ == next(old(self)@, event).0,
            r.action == next(old(self)@, event).1,
            r.report == report_of(event),
            final(self)@.consistent(),
    {
        match event {
            Event::Record(rec) => {
                self.batch.push(rec);
                if self.batch.len() >= FLUSH_THRESHOLD {
                    self.phase = Phase::Delivering(AfterDelivery::Resume);
                    Directive { action: Action::Deliver, report: None }
                } else {
                    Directive { action: Action::Poll, report: None }
                }
            },
            Event::Empty => {
                if self.batch.len() > 0 {
                    self.phase = Phase::Delivering(AfterDelivery::Sleep);
                    Directive { action: Action::Deliver, report: None }
                } else {
                    Directive { action: Action::Wait, report: None }
                }
            },
            Event::Closed => {
                if self.batch.len() > 0 {
                    self.phase = Phase::Delivering(AfterDelivery::Finish);
                    Directive { action: Action::Deliver, report: None }
                } else {
                    self.phase = Phase::Finished;
                    Directive { action: Action::Stop, report: None }
                }
            },
            Event::Delivered(outcome) => {
                self.attempted = Ghost(self.attempted@ + self.batch@);
                self.batch = Vec::new();
                let report = match outcome {
                    Ok(()) => None,
                    Err(text) => Some(text),
                };
                let action = match self.phase {
                    Phase::Delivering(AfterDelivery::Resume) => {
                        self.phase = Phase::Collecting;
                        Action::Poll
                    },
                    Phase::Delivering(AfterDelivery::Sleep) => {
                        self.phase = Phase::Collecting;
                        Action::Wait
                    },
                    _ => {
                        self.phase = Phase::Finished;
                        Action::Stop
                    },
                };
                Directive { action, report }
            },
        }
    }

    /// Applies the policy to one event and offers the text of a failed
    /// delivery to the self-log channel, if there is one, without waiting.
    /// Returns the next action and the outcome of that offer, if one was made.
    pub fn advance(&mut self, selflog: &Option<Sender<String>>, event: Event) -> (r: (
        Action,
        Option<Result<(), String>>,
    ))
        requires
            old(self)@.consistent(),
            accepts(old(self)@, event),
        ensures
            final(self)@ == next(old(self)@, event).0,
            r.0 == next(old(self)@, event).1,
            final(self)@.consistent(),
            r.1 is Some <==> (report_of(event) is Some && selflog is Some),
            r.1 is Some && r.1->Some_0 is Err ==> (r.1->Some_0->Err_0@ == crate::logger::full_channel_text()
                || r.1->Some_0->Err_0@ == crate::logger::closed_channel_text()),
    {
        let directive = self.step(event);
        let offered = match directive.report {
            Some(text) => match selflog {
                Some(sender) => Some(try_enqueue_note(sender, text)),
                None => None,
            },
            None => None,
        };
        (directive.action, offered)
    }
}

/// The events that feed the given records one after another.
pub open spec fn records(recs: Seq<DataDogLog>) -> Seq<Event> {
    recs.map_values(|r: DataDogLog| Event::Record(r))
}

/// The state reached and the actions taken when the events are applied in turn.
pub open spec fn run(s: DispatcherView, events: Seq<Event>) -> (DispatcherView, Seq<Action>)
    decreases events.len(),
{
    if events.len() == 0 {
        (s, Seq::empty())
    } else {
        let before = run(s, events.drop_last());
        let after = next(before.0, events.last());
        (after.0, before.1.push(after.1))
    }
}

/// Every accepted event keeps the state consistent, and records are never
/// lost or reordered: what has been taken is what was taken before, followed
/// by the new record if the event brought one.
pub proof fn lemma_step_preserves(s: DispatcherView, e: Event)
    requires
        s.consistent(),
        accepts(s, e),
    ensures
        next(s, e).0.consistent(),
        next(s, e).0.received() == match e {
            Event::Record(r) => s.received().push(r),
            _ => s.received(),
        },
{
    match e {
        Event::Record(r) => {
            assert(next(s, e).0.received() =~= s.received().push(r));
        },
        Event::Delivered(_) => {
            assert(next(s, e).0.received() =~= s.received());
        },
        _ => {},
    }
}

proof fn lemma_collect_below_threshold(recs: Seq<DataDogLog>, k: int)
    requires
        0 <= k < FLUSH_THRESHOLD,
        k <= recs.len(),
    ensures
        run(initial(), records(recs.take(k))).0 == (DispatcherView {
            batch: recs.take(k),
            phase: Phase::Collecting,
            attempted: Seq::empty(),
        }),
        run(initial(), records(recs.take(k))).1 == Seq::new(k as nat, |i: int| Action::Poll),
    decreases k,
{
    let evs = records(recs.take(k));
    if k == 0 {
        assert(evs.len() == 0);
        assert(recs.take(0) =~= Seq::empty());
        assert(Seq::new(0, |i: int| Action::Poll) =~= Seq::<Action>::empty());
    } else {
        lemma_collect_below_threshold(recs, k - 1);
        assert(evs.drop_last() =~= records(recs.take(k - 1)));
        assert(evs.last() == Event::Record(recs[k - 1]));
        assert(recs.take(k - 1).push(recs[k - 1]) =~= recs.take(k));
        assert(Seq::new((k - 1) as nat, |i: int| Action::Poll).push(Action::Poll) =~= Seq::new(
            k as nat,
            |i: int| Action::Poll,
        ));
    }
}

/// A fresh dispatcher fed a threshold's worth of records with no pause asks
/// to poll after each record but the last, and on the last hands out exactly
/// those records, in order, as one batch. Once that batch is delivered the
/// dispatcher goes back to collecting into an empty batch.
pub proof fn lemma_threshold_flush(recs: Seq<DataDogLog>, outcome: Result<(), String>)
    requires
        recs.len() == FLUSH_THRESHOLD,
    ensures
        run(initial(), records(recs)).0 == (DispatcherView {
            batch: recs,
            phase: Phase::Delivering(AfterDelivery::Resume),
            attempted: Seq::empty(),
        }),
        run(initial(), records(recs)).1 == Seq::new(
            (FLUSH_THRESHOLD - 1) as nat,
            |i: int| Action::Poll,
        ).push(Action::Deliver),
        next(run(initial(), records(recs)).0, Event::Delivered(outcome)) == (DispatcherView {
            batch: Seq::empty(),
            phase: Phase::Collecting,
            attempted: recs,
        }, Action::Poll),
{
    let k = FLUSH_THRESHOLD - 1;
    lemma_collect_below_threshold(recs, k as int);
    let evs = records(recs);
    assert(recs.take(recs.len() as int) =~= recs);
    assert(evs.drop_last() =~= records(recs.take(k as int)));
    assert(evs.last() == Event::Record(recs[k as int]));
    assert(recs.take(k as int).push(recs[k as int]) =~= recs);
    assert(Seq::<DataDogLog>::empty() + recs =~= recs);
}

/// A dispatcher with a partial batch that finds the channel empty hands the
/// batch out before it waits; once delivered, it waits with an empty batch.
pub proof fn lemma_idle_flush(s: DispatcherView, outcome: Result<(), String>)
    requires
        s.consistent(),
        s.phase == Phase::Collecting,
        s.batch.len() > 0,
    ensures
        next(s, Event::Empty) == (DispatcherView {
            batch: s.batch,
            phase: Phase::Delivering(AfterDelivery::Sleep),
            attempted: s.attempted,
        }, Action::Deliver),
        next(next(s, Event::Empty).0, Event::Delivered(outcome)) == (DispatcherView {
            batch: Seq::empty(),
            phase: Phase::Collecting,
            attempted: s.attempted + s.batch,
        }, Action::Wait),
{
}

/// Once the channel is closed the dispatcher hands out what is left, if
/// anything, and then stops, with every record it took handed to delivery.
pub proof fn lemma_drain_on_close(s: DispatcherView, outcome: Result<(), String>)
    requires
        s.consistent(),
        s.phase == Phase::Collecting,
    ensures
        s.batch.len() == 0 ==> next(s, Event::Closed) == (DispatcherView {
            batch: Seq::empty(),
            phase: Phase::Finished,
            attempted: s.received(),
        }, Action::Stop),
        s.batch.len() > 0 ==> next(s, Event::Closed).1 == Action::Deliver && next(s, Event::Closed).0.batch == s.batch
            && next(next(s, Event::Closed).0, Event::Delivered(outcome)) == (DispatcherView {
            batch: Seq::empty(),
            phase: Phase::Finished,
            attempted: s.received(),
        }, Action::Stop),
{
    if s.batch.len() == 0 {
        assert(s.batch =~= Seq::empty());
        assert(s.received() =~= s.attempted);
    }
}

} // verus!

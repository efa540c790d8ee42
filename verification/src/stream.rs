//! The log stream state machine: one tick becomes one
//! fetch-height / plan-range / fetch-logs / emit cycle, with the cursor
//! advanced only on delivery and every emitted range contiguous with the
//! one before it.

use vstd::prelude::*;
use vstd::pervasive::unreached;

use crate::planner::{confirmed_height_spec, plan_range, plan_spec};
use crate::types::{FilterTemplate, Log, LogStreamInit, LogStreamItem, StreamError};

verus! {

/// The phase a stream is in: waiting for a tick, awaiting the chain-height
/// response, awaiting the logs response for a planned range, or holding the
/// spot where an item is handed to the consumer. Exactly one request is in
/// flight at any time.
#[derive(Debug, PartialEq, Eq)]
pub enum LogStreamState {
    Wait,
    FetchBlockNumber,
    FetchLogs { from: u64, to: u64 },
    NextItem(Option<LogStreamItem>),
}

/// What the runtime reports to the machine: a timer tick, the height the
/// node returned, the logs the node returned, the consumer's acceptance of
/// the last item, or the failure of a call or of the timer itself.
#[derive(Debug, PartialEq, Eq)]
pub enum Event {
    Tick,
    Height(u64),
    Logs(Vec<Log>),
    Delivered,
    Failed(StreamError),
}

/// What the machine asks the runtime to do next: wait for the next tick,
/// query the chain height, query the logs for an inclusive range (the
/// stream's filter template bounded to it), hand an item to the consumer,
/// or stop for good with a terminal error.
#[derive(Debug, PartialEq, Eq)]
pub enum Action {
    AwaitTick,
    FetchHeight,
    FetchLogs { from: u64, to: u64 },
    Yield(LogStreamItem),
    Stop(StreamError),
}

/// Whether an event is the one the machine's current phase awaits. A
/// failure can arrive in any phase that has a call or a wait outstanding;
/// hand-off acceptance only while an item is being handed off.
pub open spec fn event_fits(state: LogStreamState, event: Event) -> bool {
    match state {
        LogStreamState::Wait => event is Tick || event is Failed,
        LogStreamState::FetchBlockNumber => event is Height || event is Failed,
        LogStreamState::FetchLogs { .. } => event is Logs || event is Failed,
        LogStreamState::NextItem(_) => event is Delivered,
    }
}

/// The transition relation: from the machine's phase, cursor and
/// confirmation depth, and the event that arrived, to the next phase, the
/// next cursor and the action requested of the runtime. The cursor moves
/// only when a logs response completes a range.
pub open spec fn step_spec(
    state: LogStreamState,
    after: u64,
    confirmations: u64,
    event: Event,
) -> (LogStreamState, u64, Action)
    recommends
        event_fits(state, event),
{
    match (state, event) {
        (s, Event::Failed(e)) => (s, after, Action::Stop(e)),
        (LogStreamState::Wait, Event::Tick) => (
            LogStreamState::FetchBlockNumber,
            after,
            Action::FetchHeight,
        ),
        (LogStreamState::FetchBlockNumber, Event::Height(h)) => match plan_spec(
            after,
            h,
            confirmations,
        ) {
            Some(range) => (
                LogStreamState::FetchLogs { from: range.0, to: range.1 },
                after,
                Action::FetchLogs { from: range.0, to: range.1 },
            ),
            None => (LogStreamState::Wait, after, Action::AwaitTick),
        },
        (LogStreamState::FetchLogs { from, to }, Event::Logs(ls)) => (
            LogStreamState::NextItem(None),
            to,
            Action::Yield(LogStreamItem { from, to, logs: ls }),
        ),
        (LogStreamState::NextItem(_), Event::Delivered) => (
            LogStreamState::Wait,
            after,
            Action::AwaitTick,
        ),
        // No other pairing fits; the machine is never stepped with one.
        (s, _) => (s, after, Action::AwaitTick),
    }
}

/// Every range is non-empty (`from <= to`).
pub open spec fn ranges_well_formed(h: Seq<(u64, u64)>) -> bool {
    forall|i: int| 0 <= i < h.len() ==> (#[trigger] h[i]).0 <= h[i].1
}

/// Consecutive ranges abut: each begins one past the end of the one before.
pub open spec fn ranges_contiguous(h: Seq<(u64, u64)>) -> bool {
    forall|i: int| 0 < i < h.len() ==> (#[trigger] h[i]).0 == h[i - 1].1 + 1
}

/// The log stream: a cursor, a filter template, a confirmation depth and a
/// tick cadence, driven through its phases one event at a time. The cursor
/// is owned exclusively by the machine — it is advanced only inside
/// [`LogStream::step`], and only when a range's logs have arrived — so a
/// checkpoint read between items can never name an undelivered height.
pub struct LogStream {
    state: LogStreamState,
    after: u64,
    filter: FilterTemplate,
    confirmations: u64,
    poll_interval_ms: u64,
    start_after: Ghost<u64>,
    history: Ghost<Seq<(u64, u64)>>,
}

impl LogStream {
    /// The phase the machine is in.
    pub closed spec fn state_spec(&self) -> LogStreamState {
        self.state
    }

    /// The cursor: the height of the last block already delivered.
    pub closed spec fn cursor(&self) -> u64 {
        self.after
    }

    /// The confirmation depth the stream was constructed with.
    pub closed spec fn confirmations_spec(&self) -> u64 {
        self.confirmations
    }

    /// The filter template the stream was constructed with.
    pub closed spec fn filter_spec(&self) -> FilterTemplate {
        self.filter
    }

    /// The tick cadence the stream was constructed with, in milliseconds.
    pub closed spec fn poll_interval_spec(&self) -> u64 {
        self.poll_interval_ms
    }

    /// The cursor the stream started from.
    pub closed spec fn initial_cursor(&self) -> u64 {
        self.start_after@
    }

    /// The ranges emitted so far, oldest first.
    pub closed spec fn emitted(&self) -> Seq<(u64, u64)> {
        self.history@
    }

    /// The machine's invariant: emitted ranges are non-empty, contiguous,
    /// begin right past the starting cursor, and end exactly at the current
    /// cursor; the cursor never lies below the starting cursor; and a
    /// planned-but-unfetched range begins right past the cursor.
    pub closed spec fn wf(&self) -> bool {
        let h = self.history@;
        &&& ranges_well_formed(h)
        &&& ranges_contiguous(h)
        &&& h.len() > 0 ==> h[0].0 == self.start_after@ + 1
        &&& h.len() > 0 ==> self.after == h[h.len() - 1].1
        &&& h.len() == 0 ==> self.after == self.start_after@
        &&& self.after >= self.start_after@
        &&& self.state matches LogStreamState::FetchLogs { from, to } ==> from == self.after + 1
            && from <= to
    }

    /// Read accessor for checkpointing: the height of the last block
    /// already delivered. Saving this value and later constructing a fresh
    /// stream with it reproduces the run (see [`lemma_restart_equivalent`]).
    pub fn after(&self) -> (r: u64)
        ensures
            r == self.cursor(),
    {
        self.after
    }

    /// The confirmation depth the stream was constructed with.
    pub fn confirmations(&self) -> (r: u64)
        ensures
            r == self.confirmations_spec(),
    {
        self.confirmations
    }

    /// The tick cadence the stream was constructed with, in milliseconds.
    pub fn poll_interval_ms(&self) -> (r: u64)
        ensures
            r == self.poll_interval_spec(),
    {
        self.poll_interval_ms
    }

    /// The filter template the stream was constructed with; the runtime
    /// bounds it to the range named by [`Action::FetchLogs`].
    pub fn filter(&self) -> (r: &FilterTemplate)
        ensures
            *r == self.filter_spec(),
    {
        &self.filter
    }

    /// The phase the machine is in; the runtime may consult it to know
    /// which event is due.
    pub fn state(&self) -> (r: &LogStreamState)
        ensures
            *r == self.state_spec(),
    {
        &self.state
    }

    /// Whether `event` is the one the machine currently awaits; `step`
    /// must only be called with one that is.
    pub fn accepts(&self, event: &Event) -> (r: bool)
        ensures
            r == event_fits(self.state_spec(), *event),
    {
        match (&self.state, event) {
            (LogStreamState::Wait, Event::Tick) => true,
            (LogStreamState::Wait, Event::Failed(_)) => true,
            (LogStreamState::FetchBlockNumber, Event::Height(_)) => true,
            (LogStreamState::FetchBlockNumber, Event::Failed(_)) => true,
            (LogStreamState::FetchLogs { .. }, Event::Logs(_)) => true,
            (LogStreamState::FetchLogs { .. }, Event::Failed(_)) => true,
            (LogStreamState::NextItem(_), Event::Delivered) => true,
            _ => false,
        }
    }

    /// Advances the machine by one transition. The new phase, the new
    /// cursor and the returned action are exactly what [`step_spec`] names;
    /// nothing else about the stream changes. An item is yielded if and
    /// only if the cursor advances, the item covering precisely the blocks
    /// from one past the old cursor up to the new one; on every other
    /// transition — a no-op tick among them — the cursor and the emitted
    /// history are untouched.
    pub fn step(&mut self, event: Event) -> (action: Action)
        requires
            old(self).wf(),
            event_fits(old(self).state_spec(), event),
        ensures
            final(self).wf(),
            (final(self).state_spec(), final(self).cursor(), action) == step_spec(
                old(self).state_spec(),
                old(self).cursor(),
                old(self).confirmations_spec(),
                event,
            ),
            final(self).confirmations_spec() == old(self).confirmations_spec(),
            final(self).filter_spec() == old(self).filter_spec(),
            final(self).poll_interval_spec() == old(self).poll_interval_spec(),
            final(self).initial_cursor() == old(self).initial_cursor(),
            final(self).cursor() >= old(self).cursor(),
            action matches Action::Yield(item) ==> item.from == old(self).cursor() + 1
                && item.from <= item.to && final(self).cursor() == item.to && final(self).emitted()
                == old(self).emitted().push((item.from, item.to)),
            !(action matches Action::Yield(_)) ==> final(self).cursor() == old(self).cursor()
                && final(self).emitted() == old(self).emitted(),
            event matches Event::Height(h) && confirmed_height_spec(
                h,
                old(self).confirmations_spec(),
            ) <= old(self).cursor() ==> action == Action::AwaitTick && final(self).cursor() == old(
                self,
            ).cursor(),
            event matches Event::Failed(e) ==> action == Action::Stop(e) && final(self).state_spec()
                == old(self).state_spec(),
    {
        match (&self.state, event) {
            (_, Event::Failed(e)) => Action::Stop(e),
            (LogStreamState::Wait, Event::Tick) => {
                self.state = LogStreamState::FetchBlockNumber;
                Action::FetchHeight
            },
            (LogStreamState::FetchBlockNumber, Event::Height(h)) => {
                match plan_range(self.after, h, self.confirmations) {
                    Some((from, to)) => {
                        self.state = LogStreamState::FetchLogs { from, to };
                        Action::FetchLogs { from, to }
                    },
                    None => {
                        self.state = LogStreamState::Wait;
                        Action::AwaitTick
                    },
                }
            },
            (LogStreamState::FetchLogs { from, to }, Event::Logs(ls)) => {
                let f: u64 = *from;
                let t: u64 = *to;
                let item = LogStreamItem { from: f, to: t, logs: ls };
                self.after = t;
                self.history = Ghost(self.history@.push((f, t)));
                self.state = LogStreamState::NextItem(None);
                proof {
                    let h0 = old(self).history@;
                    let h1 = self.history@;
                    assert forall|i: int| 0 < i < h1.len() implies (#[trigger] h1[i]).0 == h1[i
                        - 1].1 + 1 by {
                        if i < h0.len() {
                            assert(h1[i] == h0[i]);
                            assert(h1[i - 1] == h0[i - 1]);
                        } else {
                            assert(h1[i] == (f, t));
                        }
                    }
                }
                Action::Yield(item)
            },
            (LogStreamState::NextItem(_), Event::Delivered) => {
                self.state = LogStreamState::Wait;
                Action::AwaitTick
            },
            _ => unreached(),
        }
    }
}

/// Constructs a fresh stream from its configuration: phase `Wait`, the
/// cursor at `init.after`, nothing emitted yet.
pub fn log_stream(init: LogStreamInit) -> (s: LogStream)
    ensures
        s.wf(),
        s.state_spec() == LogStreamState::Wait,
        s.cursor() == init.after,
        s.initial_cursor() == init.after,
        s.emitted() == Seq::<(u64, u64)>::empty(),
        s.confirmations_spec() == init.confirmations,
        s.filter_spec() == init.filter,
        s.poll_interval_spec() == init.poll_interval_ms,
{
    LogStream {
        state: LogStreamState::Wait,
        after: init.after,
        filter: init.filter,
        confirmations: init.confirmations,
        poll_interval_ms: init.poll_interval_ms,
        start_after: Ghost(init.after),
        history: Ghost(Seq::empty()),
    }
}

/// Law: for every pair of consecutive emitted items, the later one begins
/// one block past the end of the earlier one — ranges are contiguous and
/// non-overlapping.
pub proof fn lemma_emitted_contiguous(s: LogStream, i: int)
    requires
        s.wf(),
        0 < i < s.emitted().len(),
    ensures
        s.emitted()[i].0 == s.emitted()[i - 1].1 + 1,
{
}

/// Law: a stream started with cursor `X` never emits a range overlapping
/// `[0, X]` — every emitted range lies strictly above the starting cursor.
pub proof fn lemma_no_overlap_with_start(s: LogStream, i: int)
    requires
        s.wf(),
        0 <= i < s.emitted().len(),
    ensures
        s.emitted()[i].0 > s.initial_cursor(),
        s.emitted()[i].1 >= s.emitted()[i].0,
    decreases i,
{
    if i > 0 {
        lemma_no_overlap_with_start(s, i - 1);
    }
}

/// The actions a machine takes over a whole sequence of events, one
/// transition per event, each transition starting from where the previous
/// one left off.
pub open spec fn run_spec(
    state: LogStreamState,
    after: u64,
    confirmations: u64,
    events: Seq<Event>,
) -> Seq<Action>
    decreases events.len(),
{
    if events.len() == 0 {
        Seq::empty()
    } else {
        let r = step_spec(state, after, confirmations, events[0]);
        seq![r.2] + run_spec(r.0, r.1, confirmations, events.skip(1))
    }
}

/// Law: a machine's whole future behavior depends only on its phase, its
/// cursor and its confirmation depth — never on what it emitted before.
/// Since [`log_stream`] ensures a fresh stream starts in phase `Wait` with
/// its cursor at `init.after`, a stream re-created from the checkpoint of
/// one that is waiting for its next tick takes, event for event, exactly
/// the actions — items included — that the uninterrupted run would have
/// taken: restarting is idempotent.
pub proof fn lemma_restart_equivalent(a: LogStream, b: LogStream, events: Seq<Event>)
    requires
        a.state_spec() == b.state_spec(),
        a.cursor() == b.cursor(),
        a.confirmations_spec() == b.confirmations_spec(),
    ensures
        run_spec(a.state_spec(), a.cursor(), a.confirmations_spec(), events) == run_spec(
            b.state_spec(),
            b.cursor(),
            b.confirmations_spec(),
            events,
        ),
{
}

} // verus!

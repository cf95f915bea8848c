//! The scheduler: on every tick it asks the catalog for its most recent
//! entries and hands a lookup key for each to the audit queue.
//!
//! The scheduler itself neither waits nor queries nor sends. It is told what
//! happened, as a [`SchedulerEvent`], and answers with what is to be done
//! next, as a [`SchedulerAction`]; whoever drives it performs the action and
//! comes back with the event that completes it.

use crate::content_key::derived_key;
use crate::content_key::ContentKeyEntry;
use crate::content_key::LookupKey;
use crate::error::CatalogError;
use vstd::prelude::*;

verus! {

/// Seconds between two polls of the catalog.
pub const AUDIT_PERIOD_SECONDS: u64 = 120;

/// How many of the catalog's most recent entries one poll asks for.
pub const CATALOG_BATCH_LIMIT: u64 = 10;

/// How many lookup keys the audit queue holds before a send has to wait.
pub const AUDIT_QUEUE_CAPACITY: usize = 100;

/// What the scheduler is waiting for.
#[derive(Debug, PartialEq, Eq)]
pub enum SchedulerState {
    /// The next tick of the timer.
    AwaitingTick,
    /// The catalog's answer to the query for the most recent entries.
    AwaitingBatch,
    /// The queue to accept `in_flight`; the keys in `queued` follow it, in
    /// order.
    Sending { in_flight: LookupKey, queued: Vec<LookupKey> },
    /// Nothing any more: the queue's receiving side is gone.
    Aborted,
}

/// A scheduler state with its queued keys as a sequence.
pub enum SchedulerModel {
    /// Waiting for the next tick of the timer.
    AwaitingTick,
    /// Waiting for the catalog's answer.
    AwaitingBatch,
    /// Waiting for the queue to accept `in_flight`, with `queued` to follow.
    Sending { in_flight: LookupKey, queued: Seq<LookupKey> },
    /// Given up.
    Aborted,
}

/// What the scheduler is told.
#[derive(Debug, PartialEq, Eq)]
pub enum SchedulerEvent {
    /// The timer ticked.
    Tick,
    /// The catalog answered with its most recent entries, newest first.
    BatchLoaded(Vec<ContentKeyEntry>),
    /// The catalog could not be queried.
    QueryFailed(CatalogError),
    /// The queue took the key that was being sent.
    KeyAccepted,
    /// The queue's receiving side is gone; the key was not taken.
    QueueClosed,
}

/// What the scheduler wants done.
#[derive(Clone, Copy, Debug, PartialEq, Eq)]
pub enum SchedulerAction {
    /// Wait for the tick that ends the current period, then report `Tick`.
    AwaitTick { period_seconds: u64 },
    /// Ask the catalog for its `limit` most recently created entries, newest
    /// first, then report `BatchLoaded` or `QueryFailed`.
    QueryCatalog { limit: u64 },
    /// Push `key` onto the queue, waiting for room if the queue is full, then
    /// report `KeyAccepted` or `QueueClosed`.
    Send { key: LookupKey },
    /// Give up: the pipeline cannot go on.
    Abort,
    /// Nothing: the event was not one the scheduler was waiting for.
    Nothing,
}

impl View for SchedulerState {
    type V = SchedulerModel;

    open spec fn view(&self) -> SchedulerModel {
        match *self {
            SchedulerState::AwaitingTick => SchedulerModel::AwaitingTick,
            SchedulerState::AwaitingBatch => SchedulerModel::AwaitingBatch,
            SchedulerState::Sending { in_flight, queued } => SchedulerModel::Sending {
                in_flight,
                queued: queued@,
            },
            SchedulerState::Aborted => SchedulerModel::Aborted,
        }
    }
}

/// The lookup keys of a batch of entries, one for each entry, in order.
pub open spec fn keys_of(entries: Seq<ContentKeyEntry>) -> Seq<LookupKey> {
    Seq::new(entries.len(), |i: int| derived_key(entries[i]@.raw_key))
}

/// How the scheduler goes on with the keys that are still to be sent: it
/// sends the first, or waits for the next tick when none is left.
pub open spec fn send_next(keys: Seq<LookupKey>) -> (SchedulerModel, SchedulerAction) {
    if keys.len() == 0 {
        (
            SchedulerModel::AwaitingTick,
            SchedulerAction::AwaitTick { period_seconds: AUDIT_PERIOD_SECONDS },
        )
    } else {
        (
            SchedulerModel::Sending { in_flight: keys[0], queued: keys.drop_first() },
            SchedulerAction::Send { key: keys[0] },
        )
    }
}

/// The scheduler's rule: the state it is in after `event`, and what it
/// wants done.
///
/// - A tick starts a query for the most recent entries.
/// - A batch of entries has a key sent for each, in the catalog's order, one
///   after the other; the next tick is awaited once the last is accepted.
/// - A failed query sends nothing: the tick is skipped and the next awaited.
/// - A closed queue is fatal.
/// - An event that the state is not waiting for changes nothing.
pub open spec fn scheduler_step(state: SchedulerModel, event: SchedulerEvent) -> (
    SchedulerModel,
    SchedulerAction,
) {
    match (state, event) {
        (SchedulerModel::AwaitingTick, SchedulerEvent::Tick) => (
            SchedulerModel::AwaitingBatch,
            SchedulerAction::QueryCatalog { limit: CATALOG_BATCH_LIMIT },
        ),
        (SchedulerModel::AwaitingBatch, SchedulerEvent::BatchLoaded(entries)) => send_next(
            keys_of(entries@),
        ),
        (SchedulerModel::AwaitingBatch, SchedulerEvent::QueryFailed(_)) => (
            SchedulerModel::AwaitingTick,
            SchedulerAction::AwaitTick { period_seconds: AUDIT_PERIOD_SECONDS },
        ),
        (SchedulerModel::Sending { queued, .. }, SchedulerEvent::KeyAccepted) => send_next(queued),
        (SchedulerModel::Sending { .. }, SchedulerEvent::QueueClosed) => (
            SchedulerModel::Aborted,
            SchedulerAction::Abort,
        ),
        _ => (state, SchedulerAction::Nothing),
    }
}

/// Derives the lookup key of every entry of a batch, in order.
pub fn derive_keys(entries: &Vec<ContentKeyEntry>) -> (keys: Vec<LookupKey>)
    ensures
        keys@ == keys_of(entries@),
{
    let mut keys: Vec<LookupKey> = Vec::new();
    let mut i: usize = 0;
    while i < entries.len()
        invariant
            i <= entries.len(),
            keys@.len() == i,
            forall|j: int| 0 <= j < i ==> keys@[j] == derived_key(#[trigger] entries@[j]@.raw_key),
        decreases entries.len() - i,
    {
        keys.push(entries[i].lookup_key());
        i += 1;
    }
    assert(keys@ =~= keys_of(entries@));
    keys
}

/// Starts on the keys that are still to be sent.
fn send_first(keys: Vec<LookupKey>) -> (out: (SchedulerState, SchedulerAction))
    ensures
        (out.0@, out.1) == send_next(keys@),
{
    let mut queued = keys;
    if queued.len() == 0 {
        (
            SchedulerState::AwaitingTick,
            SchedulerAction::AwaitTick { period_seconds: AUDIT_PERIOD_SECONDS },
        )
    } else {
        let in_flight = queued.remove(0);
        assert(queued@ =~= keys@.drop_first());
        (SchedulerState::Sending { in_flight, queued }, SchedulerAction::Send { key: in_flight })
    }
}

impl SchedulerState {
    /// A scheduler that has not polled yet, and the action that starts it:
    /// waiting for the first tick.
    pub fn start() -> (out: (SchedulerState, SchedulerAction))
        ensures
            out.0@ == SchedulerModel::AwaitingTick,
            out.1 == (SchedulerAction::AwaitTick { period_seconds: AUDIT_PERIOD_SECONDS }),
    {
        (
            SchedulerState::AwaitingTick,
            SchedulerAction::AwaitTick { period_seconds: AUDIT_PERIOD_SECONDS },
        )
    }

    /// Takes `event` in: the state that follows, and what is to be done.
    pub fn step(self, event: SchedulerEvent) -> (out: (SchedulerState, SchedulerAction))
        ensures
            (out.0@, out.1) == scheduler_step(self@, event),
    {
        match (self, event) {
            (SchedulerState::AwaitingTick, SchedulerEvent::Tick) => (
                SchedulerState::AwaitingBatch,
                SchedulerAction::QueryCatalog { limit: CATALOG_BATCH_LIMIT },
            ),
            (SchedulerState::AwaitingBatch, SchedulerEvent::BatchLoaded(entries)) => send_first(
                derive_keys(&entries),
            ),
            (SchedulerState::AwaitingBatch, SchedulerEvent::QueryFailed(_)) => (
                SchedulerState::AwaitingTick,
                SchedulerAction::AwaitTick { period_seconds: AUDIT_PERIOD_SECONDS },
            ),
            (SchedulerState::Sending { queued, .. }, SchedulerEvent::KeyAccepted) => send_first(
                queued,
            ),
            (SchedulerState::Sending { .. }, SchedulerEvent::QueueClosed) => (
                SchedulerState::Aborted,
                SchedulerAction::Abort,
            ),
            (state, _) => (state, SchedulerAction::Nothing),
        }
    }
}

/// Where the scheduler ends up when it takes in `events` one after the
/// other, and the actions it asks for on the way, one for each event.
pub open spec fn scheduler_run(state: SchedulerModel, events: Seq<SchedulerEvent>) -> (
    SchedulerModel,
    Seq<SchedulerAction>,
)
    decreases events.len(),
{
    if events.len() == 0 {
        (state, Seq::empty())
    } else {
        let first = scheduler_step(state, events[0]);
        let rest = scheduler_run(first.0, events.drop_first());
        (rest.0, seq![first.1] + rest.1)
    }
}

/// `count` times the word that the queue took a key.
pub open spec fn acceptances(count: nat) -> Seq<SchedulerEvent> {
    Seq::new(count, |i: int| SchedulerEvent::KeyAccepted)
}

/// One send for each of `keys`, in order.
pub open spec fn sends_of(keys: Seq<LookupKey>) -> Seq<SchedulerAction> {
    Seq::new(keys.len(), |i: int| SchedulerAction::Send { key: keys[i] })
}

/// A scheduler that is sending goes through its queued keys in order as the
/// queue accepts them, then waits for the next tick.
proof fn lemma_queued_keys_are_sent(in_flight: LookupKey, queued: Seq<LookupKey>)
    ensures
        scheduler_run(
            SchedulerModel::Sending { in_flight, queued },
            acceptances(queued.len() + 1),
        ) == (
            SchedulerModel::AwaitingTick,
            sends_of(queued).push(
                SchedulerAction::AwaitTick { period_seconds: AUDIT_PERIOD_SECONDS },
            ),
        ),
    decreases queued.len(),
{
    let state = SchedulerModel::Sending { in_flight, queued };
    let events = acceptances(queued.len() + 1);
    let wait = SchedulerAction::AwaitTick { period_seconds: AUDIT_PERIOD_SECONDS };
    let run = scheduler_run(state, events);
    assert(events[0] == SchedulerEvent::KeyAccepted);
    assert(events.drop_first() =~= acceptances(queued.len()));
    if queued.len() == 0 {
        assert(scheduler_run(SchedulerModel::AwaitingTick, acceptances(0)).1 =~= Seq::empty());
        assert(run.1 =~= sends_of(queued).push(wait));
    } else {
        lemma_queued_keys_are_sent(queued[0], queued.drop_first());
        assert(acceptances(queued.len()) =~= acceptances(queued.drop_first().len() + 1));
        assert(run.1 =~= sends_of(queued).push(wait));
    }
}

/// A run in two parts: taking in `first` and then `second` is taking in the
/// two on end.
pub proof fn scheduler_run_in_two_parts(
    state: SchedulerModel,
    first: Seq<SchedulerEvent>,
    second: Seq<SchedulerEvent>,
)
    ensures
        scheduler_run(state, first + second).0 == scheduler_run(
            scheduler_run(state, first).0,
            second,
        ).0,
        scheduler_run(state, first + second).1 == scheduler_run(state, first).1 + scheduler_run(
            scheduler_run(state, first).0,
            second,
        ).1,
    decreases first.len(),
{
    let whole = first + second;
    if first.len() == 0 {
        assert(whole =~= second);
        assert(scheduler_run(state, first).1 + scheduler_run(state, second).1 =~= scheduler_run(
            state,
            second,
        ).1);
    } else {
        let next = scheduler_step(state, first[0]);
        assert(whole[0] == first[0]);
        assert(whole.drop_first() =~= first.drop_first() + second);
        scheduler_run_in_two_parts(next.0, first.drop_first(), second);
        let head = scheduler_run(next.0, first.drop_first());
        let tail = scheduler_run(head.0, second);
        assert(seq![next.1] + (head.1 + tail.1) =~= (seq![next.1] + head.1) + tail.1);
    }
}

/// A tick whose query returns `entries` has exactly one key sent for each
/// entry: the key derived from that entry, in the catalog's order, each once
/// the queue has accepted the one before. When the last is accepted the
/// scheduler waits for the next tick, as it did before this one.
pub proof fn tick_sends_the_whole_batch(entries: Vec<ContentKeyEntry>)
    ensures
        scheduler_run(
            SchedulerModel::AwaitingTick,
            seq![SchedulerEvent::Tick, SchedulerEvent::BatchLoaded(entries)] + acceptances(
                entries@.len(),
            ),
        ) == (
            SchedulerModel::AwaitingTick,
            (seq![SchedulerAction::QueryCatalog { limit: CATALOG_BATCH_LIMIT }] + sends_of(
                keys_of(entries@),
            )).push(SchedulerAction::AwaitTick { period_seconds: AUDIT_PERIOD_SECONDS }),
        ),
        sends_of(keys_of(entries@)).len() == entries@.len(),
        forall|i: int|
            0 <= i < entries@.len() ==> #[trigger] sends_of(keys_of(entries@))[i] == (
                SchedulerAction::Send { key: derived_key(entries@[i]@.raw_key) }
            ),
{
    let keys = keys_of(entries@);
    let query = SchedulerAction::QueryCatalog { limit: CATALOG_BATCH_LIMIT };
    let wait = SchedulerAction::AwaitTick { period_seconds: AUDIT_PERIOD_SECONDS };
    let events = seq![SchedulerEvent::Tick, SchedulerEvent::BatchLoaded(entries)] + acceptances(
        entries@.len(),
    );
    let after_tick = events.drop_first();
    assert(events[0] == SchedulerEvent::Tick);
    assert(after_tick[0] == SchedulerEvent::BatchLoaded(entries));
    assert(after_tick.drop_first() =~= acceptances(entries@.len()));
    let batch_run = scheduler_run(SchedulerModel::AwaitingBatch, after_tick);
    if keys.len() == 0 {
        assert(scheduler_run(SchedulerModel::AwaitingTick, acceptances(0)).1 =~= Seq::empty());
        assert(batch_run.1 =~= sends_of(keys).push(wait));
    } else {
        lemma_queued_keys_are_sent(keys[0], keys.drop_first());
        assert(acceptances(entries@.len()) =~= acceptances(keys.drop_first().len() + 1));
        assert(batch_run.1 =~= sends_of(keys).push(wait));
    }
    assert(seq![query] + sends_of(keys).push(wait) =~= (seq![query] + sends_of(keys)).push(wait));
}

/// A tick whose query fails has nothing sent: the scheduler goes straight
/// back to waiting for the next tick, which then runs like any other.
pub proof fn failed_query_skips_the_tick(error: CatalogError)
    ensures
        scheduler_run(
            SchedulerModel::AwaitingTick,
            seq![SchedulerEvent::Tick, SchedulerEvent::QueryFailed(error)],
        ) == (
            SchedulerModel::AwaitingTick,
            seq![
                SchedulerAction::QueryCatalog { limit: CATALOG_BATCH_LIMIT },
                SchedulerAction::AwaitTick { period_seconds: AUDIT_PERIOD_SECONDS },
            ],
        ),
{
    let events = seq![SchedulerEvent::Tick, SchedulerEvent::QueryFailed(error)];
    let rest = events.drop_first();
    assert(rest[0] == SchedulerEvent::QueryFailed(error));
    assert(rest.drop_first() =~= Seq::<SchedulerEvent>::empty());
    assert(scheduler_run(SchedulerModel::AwaitingTick, rest.drop_first()).1 =~= Seq::empty());
    assert(scheduler_run(SchedulerModel::AwaitingBatch, rest).1 =~= seq![
        SchedulerAction::AwaitTick { period_seconds: AUDIT_PERIOD_SECONDS },
    ]);
    assert(scheduler_run(SchedulerModel::AwaitingTick, events).1 =~= seq![
        SchedulerAction::QueryCatalog { limit: CATALOG_BATCH_LIMIT },
        SchedulerAction::AwaitTick { period_seconds: AUDIT_PERIOD_SECONDS },
    ]);
}

/// The scheduler never has more than one send under way and never lets go
/// of a key that the queue has not taken: it asks for a send only when a
/// batch has come in or when the queue has accepted the key before, and the
/// key it sends is then the one in flight.
pub proof fn sends_wait_for_acceptance(state: SchedulerModel, event: SchedulerEvent)
    ensures
        scheduler_step(state, event).1 is Send ==> {
            &&& event is BatchLoaded || event is KeyAccepted
            &&& scheduler_step(state, event).0 is Sending
            &&& scheduler_step(state, event).0->in_flight == scheduler_step(state, event).1->key
        },
        state is Sending && !(event is KeyAccepted) && !(event is QueueClosed)
            ==> scheduler_step(state, event).0 == state,
{
}

} // verus!

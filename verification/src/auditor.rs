//! The auditor: it takes lookup keys off the queue one at a time, in the
//! order in which they arrived, has the content fetched from the network and
//! has a record written that says whether the lookup passed.
//!
//! Like the scheduler it performs nothing itself: it is told what happened,
//! as an [`AuditorEvent`], and answers with what is to be done next, as an
//! [`AuditorAction`].

use crate::content_key::LookupKey;
use crate::error::AuditError;
use crate::error::NetworkError;
use crate::error::StoreError;
use vstd::prelude::*;

verus! {

/// The longest payload that still fails an audit, in bytes.
pub const LONGEST_FAILING_PAYLOAD: usize = 2;

/// Whether a payload of `payload_len` bytes passes: it does when it is longer
/// than two bytes. This tells that something was there to be fetched; it
/// does not tell that the content is what it should be.
pub open spec fn passes(payload_len: nat) -> bool {
    payload_len > LONGEST_FAILING_PAYLOAD
}

/// Whether the payload that a lookup returned passes the audit.
pub fn audit_passed(payload: &[u8]) -> (passed: bool)
    ensures
        passed == passes(payload@.len()),
{
    payload.len() > LONGEST_FAILING_PAYLOAD
}

/// What the auditor is waiting for.
#[derive(Clone, Copy, Debug, PartialEq, Eq)]
pub enum AuditorState {
    /// The next key from the queue.
    Receiving,
    /// The network's answer to the lookup of `key`.
    Fetching { key: LookupKey },
    /// The catalog's answer to which entry `key` belongs to; the lookup has
    /// ended, and `passed` says how.
    Resolving { key: LookupKey, passed: bool },
    /// The store's word that the record for `entry_id` is written.
    Recording { entry_id: i32, passed: bool },
    /// Nothing any more: the queue is closed and empty.
    Finished,
    /// Nothing any more: a lookup or a write failed.
    Failed,
}

/// What the auditor is told.
#[derive(Clone, Debug, PartialEq, Eq)]
pub enum AuditorEvent {
    /// The queue handed over its oldest key.
    KeyReceived(LookupKey),
    /// The queue is empty and its sending side is gone.
    QueueClosed,
    /// The lookup returned this payload.
    ContentFetched(Vec<u8>),
    /// The lookup failed.
    LookupFailed(NetworkError),
    /// The catalog holds the key, in the entry with this identifier.
    EntryResolved(i32),
    /// The catalog holds no entry for the key.
    EntryMissing,
    /// The record is written.
    RecordStored,
    /// The record could not be written.
    StoreFailed(StoreError),
}

/// What the auditor wants done.
#[derive(Clone, Debug, PartialEq, Eq)]
pub enum AuditorAction {
    /// Take the next key off the queue, waiting for one if the queue is
    /// empty, then report `KeyReceived` or `QueueClosed`.
    Receive,
    /// Look `key` up on the network, then report `ContentFetched` or
    /// `LookupFailed`.
    FetchContent { key: LookupKey },
    /// Ask the catalog for the entry of `key`, then report `EntryResolved`
    /// or `EntryMissing`.
    ResolveEntry { key: LookupKey },
    /// Persist a new audit record that refers to the entry `entry_id` and
    /// says whether the audit passed, then report `RecordStored` or
    /// `StoreFailed`.
    CreateRecord { entry_id: i32, passed: bool },
    /// End the auditor: there is nothing left to audit.
    Finish,
    /// End the auditor with `error`.
    Fail { error: AuditError },
    /// Nothing: the event was not one the auditor was waiting for.
    Nothing,
}

/// The auditor's rule: the state it is in after `event`, and what it wants
/// done.
///
/// - A key from the queue is looked up on the network.
/// - A failed lookup ends the auditor with the network's error.
/// - After a lookup that returned, the catalog is asked for the key's entry.
///   If it has none, nothing is recorded and the next key is taken.
/// - For an entry that was found, one record is created: it refers to the
///   entry and says that the audit passed if the payload was longer than two
///   bytes.
/// - A record that could not be written ends the auditor with the store's
///   error; after one that was written the next key is taken.
/// - A queue that is closed and empty ends the auditor without an error.
/// - An event that the state is not waiting for changes nothing.
pub open spec fn auditor_step(state: AuditorState, event: AuditorEvent) -> (
    AuditorState,
    AuditorAction,
) {
    match (state, event) {
        (AuditorState::Receiving, AuditorEvent::KeyReceived(key)) => (
            AuditorState::Fetching { key },
            AuditorAction::FetchContent { key },
        ),
        (AuditorState::Receiving, AuditorEvent::QueueClosed) => (
            AuditorState::Finished,
            AuditorAction::Finish,
        ),
        (AuditorState::Fetching { key }, AuditorEvent::ContentFetched(payload)) => (
            AuditorState::Resolving { key, passed: passes(payload@.len()) },
            AuditorAction::ResolveEntry { key },
        ),
        (AuditorState::Fetching { .. }, AuditorEvent::LookupFailed(error)) => (
            AuditorState::Failed,
            AuditorAction::Fail { error: AuditError::Network(error) },
        ),
        (AuditorState::Resolving { passed, .. }, AuditorEvent::EntryResolved(entry_id)) => (
            AuditorState::Recording { entry_id, passed },
            AuditorAction::CreateRecord { entry_id, passed },
        ),
        (AuditorState::Resolving { .. }, AuditorEvent::EntryMissing) => (
            AuditorState::Receiving,
            AuditorAction::Receive,
        ),
        (AuditorState::Recording { .. }, AuditorEvent::RecordStored) => (
            AuditorState::Receiving,
            AuditorAction::Receive,
        ),
        (AuditorState::Recording { .. }, AuditorEvent::StoreFailed(error)) => (
            AuditorState::Failed,
            AuditorAction::Fail { error: AuditError::Store(error) },
        ),
        _ => (state, AuditorAction::Nothing),
    }
}

impl AuditorState {
    /// An auditor that has audited nothing yet, and the action that starts
    /// it: taking the first key off the queue.
    pub fn start() -> (out: (AuditorState, AuditorAction))
        ensures
            out == (AuditorState::Receiving, AuditorAction::Receive),
    {
        (AuditorState::Receiving, AuditorAction::Receive)
    }

    /// Takes `event` in: the state that follows, and what is to be done.
    pub fn step(self, event: AuditorEvent) -> (out: (AuditorState, AuditorAction))
        ensures
            out == auditor_step(self, event),
    {
        match (self, event) {
            (AuditorState::Receiving, AuditorEvent::KeyReceived(key)) => (
                AuditorState::Fetching { key },
                AuditorAction::FetchContent { key },
            ),
            (AuditorState::Receiving, AuditorEvent::QueueClosed) => (
                AuditorState::Finished,
                AuditorAction::Finish,
            ),
            (AuditorState::Fetching { key }, AuditorEvent::ContentFetched(payload)) => (
                AuditorState::Resolving { key, passed: audit_passed(payload.as_slice()) },
                AuditorAction::ResolveEntry { key },
            ),
            (AuditorState::Fetching { .. }, AuditorEvent::LookupFailed(error)) => (
                AuditorState::Failed,
                AuditorAction::Fail { error: AuditError::Network(error) },
            ),
            (AuditorState::Resolving { passed, .. }, AuditorEvent::EntryResolved(entry_id)) => (
                AuditorState::Recording { entry_id, passed },
                AuditorAction::CreateRecord { entry_id, passed },
            ),
            (AuditorState::Resolving { .. }, AuditorEvent::EntryMissing) => (
                AuditorState::Receiving,
                AuditorAction::Receive,
            ),
            (AuditorState::Recording { .. }, AuditorEvent::RecordStored) => (
                AuditorState::Receiving,
                AuditorAction::Receive,
            ),
            (AuditorState::Recording { .. }, AuditorEvent::StoreFailed(error)) => (
                AuditorState::Failed,
                AuditorAction::Fail { error: AuditError::Store(error) },
            ),
            (state, _) => (state, AuditorAction::Nothing),
        }
    }
}

/// Where the auditor ends up when it takes in `events` one after the other,
/// and the actions it asks for on the way, one for each event.
pub open spec fn auditor_run(state: AuditorState, events: Seq<AuditorEvent>) -> (
    AuditorState,
    Seq<AuditorAction>,
)
    decreases events.len(),
{
    if events.len() == 0 {
        (state, Seq::empty())
    } else {
        let first = auditor_step(state, events[0]);
        let rest = auditor_run(first.0, events.drop_first());
        (rest.0, seq![first.1] + rest.1)
    }
}

/// Payloads of up to two bytes fail, all longer ones pass.
pub proof fn pass_boundary(payload_len: nat)
    ensures
        passes(payload_len) <==> payload_len >= 3,
        !passes(0) && !passes(1) && !passes(2) && passes(3),
{
}

/// The auditor asks for a record exactly when the catalog has just resolved
/// the key whose lookup ended before; the record then refers to the entry
/// that the catalog named and carries the verdict on that lookup. In
/// particular no record is asked for when the catalog has no entry for the
/// key.
pub proof fn records_follow_resolution(state: AuditorState, event: AuditorEvent)
    ensures
        auditor_step(state, event).1 is CreateRecord <==> state is Resolving
            && event is EntryResolved,
        state is Resolving && event is EntryResolved ==> auditor_step(state, event).1 == (
            AuditorAction::CreateRecord {
                entry_id: event->EntryResolved_0,
                passed: state->Resolving_passed,
            }
        ),
        event is EntryMissing ==> !(auditor_step(state, event).1 is CreateRecord),
{
}

/// An audit that runs to its end creates exactly one record: from the key's
/// arrival to the store's word the auditor asks for the lookup, for the
/// entry and for one record, which refers to the resolved entry and says
/// whether the payload was longer than two bytes. It is then ready for the
/// next key.
pub proof fn completed_audit_creates_one_record(key: LookupKey, payload: Vec<u8>, entry_id: i32)
    ensures
        auditor_run(
            AuditorState::Receiving,
            seq![
                AuditorEvent::KeyReceived(key),
                AuditorEvent::ContentFetched(payload),
                AuditorEvent::EntryResolved(entry_id),
                AuditorEvent::RecordStored,
            ],
        ) == (
            AuditorState::Receiving,
            seq![
                AuditorAction::FetchContent { key },
                AuditorAction::ResolveEntry { key },
                AuditorAction::CreateRecord { entry_id, passed: payload@.len() > 2 },
                AuditorAction::Receive,
            ],
        ),
{
    let e0 = AuditorEvent::KeyReceived(key);
    let e1 = AuditorEvent::ContentFetched(payload);
    let e2 = AuditorEvent::EntryResolved(entry_id);
    let e3 = AuditorEvent::RecordStored;
    let passed = passes(payload@.len());
    let s1 = AuditorState::Fetching { key };
    let s2 = AuditorState::Resolving { key, passed };
    let s3 = AuditorState::Recording { entry_id, passed };
    assert(seq![e0, e1, e2, e3].drop_first() =~= seq![e1, e2, e3]);
    assert(seq![e1, e2, e3].drop_first() =~= seq![e2, e3]);
    assert(seq![e2, e3].drop_first() =~= seq![e3]);
    assert(seq![e3].drop_first() =~= Seq::<AuditorEvent>::empty());
    assert(auditor_run(AuditorState::Receiving, Seq::empty()).1 =~= Seq::empty());
    assert(auditor_run(s3, seq![e3]).1 =~= seq![AuditorAction::Receive]);
    assert(auditor_run(s2, seq![e2, e3]).1 =~= seq![
        AuditorAction::CreateRecord { entry_id, passed },
        AuditorAction::Receive,
    ]);
    assert(auditor_run(s1, seq![e1, e2, e3]).1 =~= seq![
        AuditorAction::ResolveEntry { key },
        AuditorAction::CreateRecord { entry_id, passed },
        AuditorAction::Receive,
    ]);
    assert(auditor_run(AuditorState::Receiving, seq![e0, e1, e2, e3]).1 =~= seq![
        AuditorAction::FetchContent { key },
        AuditorAction::ResolveEntry { key },
        AuditorAction::CreateRecord { entry_id, passed },
        AuditorAction::Receive,
    ]);
}

/// A run in two parts: taking in `first` and then `second` is taking in the
/// two on end.
pub proof fn auditor_run_in_two_parts(
    state: AuditorState,
    first: Seq<AuditorEvent>,
    second: Seq<AuditorEvent>,
)
    ensures
        auditor_run(state, first + second).0 == auditor_run(
            auditor_run(state, first).0,
            second,
        ).0,
        auditor_run(state, first + second).1 == auditor_run(state, first).1 + auditor_run(
            auditor_run(state, first).0,
            second,
        ).1,
    decreases first.len(),
{
    let whole = first + second;
    if first.len() == 0 {
        assert(whole =~= second);
        assert(auditor_run(state, first).1 + auditor_run(state, second).1 =~= auditor_run(
            state,
            second,
        ).1);
    } else {
        let next = auditor_step(state, first[0]);
        assert(whole[0] == first[0]);
        assert(whole.drop_first() =~= first.drop_first() + second);
        auditor_run_in_two_parts(next.0, first.drop_first(), second);
        let head = auditor_run(next.0, first.drop_first());
        let tail = auditor_run(head.0, second);
        assert(seq![next.1] + (head.1 + tail.1) =~= (seq![next.1] + head.1) + tail.1);
    }
}

/// An audit that ran to its end: the key, the payload that the lookup
/// returned, and the entry that the catalog resolved the key to.
pub struct CompletedAudit {
    /// The key that came off the queue.
    pub key: LookupKey,
    /// What the lookup of the key returned.
    pub payload: Vec<u8>,
    /// The catalog's identifier of the key's entry.
    pub entry_id: i32,
}

/// What the auditor is told in the course of `audits`, one after the other.
pub open spec fn events_of(audits: Seq<CompletedAudit>) -> Seq<AuditorEvent>
    decreases audits.len(),
{
    if audits.len() == 0 {
        Seq::empty()
    } else {
        seq![
            AuditorEvent::KeyReceived(audits[0].key),
            AuditorEvent::ContentFetched(audits[0].payload),
            AuditorEvent::EntryResolved(audits[0].entry_id),
            AuditorEvent::RecordStored,
        ] + events_of(audits.drop_first())
    }
}

/// What the auditor asks for in the course of `audits`: for each in turn the
/// lookup, the entry, one record and the next key.
pub open spec fn actions_of(audits: Seq<CompletedAudit>) -> Seq<AuditorAction>
    decreases audits.len(),
{
    if audits.len() == 0 {
        Seq::empty()
    } else {
        seq![
            AuditorAction::FetchContent { key: audits[0].key },
            AuditorAction::ResolveEntry { key: audits[0].key },
            AuditorAction::CreateRecord {
                entry_id: audits[0].entry_id,
                passed: passes(audits[0].payload@.len()),
            },
            AuditorAction::Receive,
        ] + actions_of(audits.drop_first())
    }
}

/// Keys are audited one at a time and in the order in which they arrive:
/// over any number of audits that run to their end the auditor creates one
/// record for each, in the order of arrival, and starts on a key only when
/// the record for the one before is written.
pub proof fn audits_follow_arrival_order(audits: Seq<CompletedAudit>)
    ensures
        auditor_run(AuditorState::Receiving, events_of(audits)) == (
            AuditorState::Receiving,
            actions_of(audits),
        ),
    decreases audits.len(),
{
    if audits.len() > 0 {
        let round = seq![
            AuditorEvent::KeyReceived(audits[0].key),
            AuditorEvent::ContentFetched(audits[0].payload),
            AuditorEvent::EntryResolved(audits[0].entry_id),
            AuditorEvent::RecordStored,
        ];
        completed_audit_creates_one_record(audits[0].key, audits[0].payload, audits[0].entry_id);
        audits_follow_arrival_order(audits.drop_first());
        auditor_run_in_two_parts(AuditorState::Receiving, round, events_of(audits.drop_first()));
    }
}

/// An audit whose key the catalog no longer holds creates no record: the
/// auditor asks for the lookup and for the entry, then for the next key.
pub proof fn unresolved_audit_creates_no_record(key: LookupKey, payload: Vec<u8>)
    ensures
        auditor_run(
            AuditorState::Receiving,
            seq![
                AuditorEvent::KeyReceived(key),
                AuditorEvent::ContentFetched(payload),
                AuditorEvent::EntryMissing,
            ],
        ) == (
            AuditorState::Receiving,
            seq![
                AuditorAction::FetchContent { key },
                AuditorAction::ResolveEntry { key },
                AuditorAction::Receive,
            ],
        ),
{
    let e0 = AuditorEvent::KeyReceived(key);
    let e1 = AuditorEvent::ContentFetched(payload);
    let e2 = AuditorEvent::EntryMissing;
    let s1 = AuditorState::Fetching { key };
    let s2 = AuditorState::Resolving { key, passed: passes(payload@.len()) };
    assert(seq![e0, e1, e2].drop_first() =~= seq![e1, e2]);
    assert(seq![e1, e2].drop_first() =~= seq![e2]);
    assert(seq![e2].drop_first() =~= Seq::<AuditorEvent>::empty());
    assert(auditor_run(AuditorState::Receiving, Seq::empty()).1 =~= Seq::empty());
    assert(auditor_run(s2, seq![e2]).1 =~= seq![AuditorAction::Receive]);
    assert(auditor_run(s1, seq![e1, e2]).1 =~= seq![
        AuditorAction::ResolveEntry { key },
        AuditorAction::Receive,
    ]);
    assert(auditor_run(AuditorState::Receiving, seq![e0, e1, e2]).1 =~= seq![
        AuditorAction::FetchContent { key },
        AuditorAction::ResolveEntry { key },
        AuditorAction::Receive,
    ]);
}

/// A failure is final: once a lookup or a write has failed, or the queue has
/// closed, the auditor asks for nothing more, whatever it is told.
pub proof fn ended_auditor_stays_ended(state: AuditorState, event: AuditorEvent)
    requires
        state is Finished || state is Failed,
    ensures
        auditor_step(state, event) == (state, AuditorAction::Nothing),
{
}

} // verus!

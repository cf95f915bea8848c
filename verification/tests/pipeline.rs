use glados_audit::auditor::AuditorAction;
use glados_audit::auditor::AuditorEvent;
use glados_audit::auditor::AuditorState;
use glados_audit::content_key::ContentKeyEntry;
use glados_audit::content_key::LookupKey;
use glados_audit::error::AuditError;
use glados_audit::error::CatalogError;
use glados_audit::error::NetworkError;
use glados_audit::scheduler::SchedulerAction;
use glados_audit::scheduler::SchedulerEvent;
use glados_audit::scheduler::SchedulerState;
use glados_audit::scheduler::AUDIT_QUEUE_CAPACITY;
use tokio::sync::mpsc;
use tokio::sync::mpsc::error::TryRecvError;
use tokio::sync::mpsc::error::TrySendError;

/// A catalog, a network and an audit store held in memory.
struct World {
    entries: Vec<ContentKeyEntry>,
    catalog_up: bool,
    payloads: Vec<(LookupKey, Vec<u8>)>,
    records: Vec<(i32, bool)>,
}

impl World {
    fn recent_batch(&self, limit: u64) -> Result<Vec<ContentKeyEntry>, CatalogError> {
        if !self.catalog_up {
            return Err(CatalogError { message: String::from("catalog is down") });
        }
        let mut batch = self.entries.clone();
        batch.sort_by_key(|entry| std::cmp::Reverse(entry.created_at()));
        batch.truncate(limit as usize);
        Ok(batch)
    }

    fn resolve(&self, key: &LookupKey) -> Option<i32> {
        self.entries.iter().find(|entry| &entry.lookup_key() == key).map(|entry| entry.id())
    }

    fn get_content(&self, key: &LookupKey) -> Result<Vec<u8>, NetworkError> {
        match self.payloads.iter().find(|(known, _)| known == key) {
            Some((_, payload)) => Ok(payload.clone()),
            None => Err(NetworkError { message: String::from("content not found") }),
        }
    }
}

/// Runs the scheduler from a tick until it waits for the next one, pushing
/// onto `queue`. Returns the number of keys pushed.
fn run_tick(world: &World, queue: &mpsc::Sender<LookupKey>) -> usize {
    let (mut state, mut action) = SchedulerState::AwaitingTick.step(SchedulerEvent::Tick);
    let mut pushed = 0;
    loop {
        let event = match action {
            SchedulerAction::QueryCatalog { limit } => match world.recent_batch(limit) {
                Ok(batch) => SchedulerEvent::BatchLoaded(batch),
                Err(error) => SchedulerEvent::QueryFailed(error),
            },
            SchedulerAction::Send { key } => match queue.try_send(key) {
                Ok(()) => {
                    pushed += 1;
                    SchedulerEvent::KeyAccepted
                }
                Err(TrySendError::Closed(_)) => SchedulerEvent::QueueClosed,
                Err(TrySendError::Full(_)) => panic!("the queue is full"),
            },
            SchedulerAction::AwaitTick { period_seconds } => {
                assert_eq!(period_seconds, 120);
                assert_eq!(state, SchedulerState::AwaitingTick);
                return pushed;
            }
            SchedulerAction::Abort | SchedulerAction::Nothing => panic!("unexpected {action:?}"),
        };
        let next = state.step(event);
        state = next.0;
        action = next.1;
    }
}

/// Runs the auditor until the queue is empty or the auditor has ended.
fn drain(world: &mut World, queue: &mut mpsc::Receiver<LookupKey>) -> AuditorState {
    let (mut state, mut action) = AuditorState::start();
    loop {
        let event = match action {
            AuditorAction::Receive => match queue.try_recv() {
                Ok(key) => AuditorEvent::KeyReceived(key),
                Err(TryRecvError::Disconnected) => AuditorEvent::QueueClosed,
                Err(TryRecvError::Empty) => return state,
            },
            AuditorAction::FetchContent { key } => match world.get_content(&key) {
                Ok(payload) => AuditorEvent::ContentFetched(payload),
                Err(error) => AuditorEvent::LookupFailed(error),
            },
            AuditorAction::ResolveEntry { key } => match world.resolve(&key) {
                Some(entry_id) => AuditorEvent::EntryResolved(entry_id),
                None => AuditorEvent::EntryMissing,
            },
            AuditorAction::CreateRecord { entry_id, passed } => {
                world.records.push((entry_id, passed));
                AuditorEvent::RecordStored
            }
            AuditorAction::Finish | AuditorAction::Fail { .. } => return state,
            AuditorAction::Nothing => panic!("the auditor was told something it did not ask for"),
        };
        let next = state.step(event);
        state = next.0;
        action = next.1;
    }
}

fn entry(id: i32, fill: u8, created_at: i64) -> ContentKeyEntry {
    let mut raw = vec![0x00];
    raw.extend_from_slice(&[fill; 32]);
    raw.extend_from_slice(&[0x01, 0x02, 0x03]);
    ContentKeyEntry::new(id, raw, created_at).unwrap()
}

fn key(fill: u8) -> LookupKey {
    LookupKey::BlockHeader { block_hash: [fill; 32] }
}

fn world_with_one_entry(payload: Vec<u8>) -> World {
    World {
        entries: vec![entry(7, 0xab, 500)],
        catalog_up: true,
        payloads: vec![(key(0xab), payload)],
        records: Vec::new(),
    }
}

#[test]
fn most_recent_entry_with_five_bytes_gets_one_passing_record() {
    let mut world = world_with_one_entry(vec![1, 2, 3, 4, 5]);
    let (tx, mut rx) = mpsc::channel(AUDIT_QUEUE_CAPACITY);
    assert_eq!(run_tick(&world, &tx), 1);
    assert_eq!(drain(&mut world, &mut rx), AuditorState::Receiving);
    assert_eq!(world.records, vec![(7, true)]);
}

#[test]
fn most_recent_entry_with_one_byte_gets_one_failing_record() {
    let mut world = world_with_one_entry(vec![1]);
    let (tx, mut rx) = mpsc::channel(AUDIT_QUEUE_CAPACITY);
    assert_eq!(run_tick(&world, &tx), 1);
    assert_eq!(drain(&mut world, &mut rx), AuditorState::Receiving);
    assert_eq!(world.records, vec![(7, false)]);
}

#[test]
fn key_on_the_queue_carries_the_hash_of_the_entry() {
    let world = world_with_one_entry(vec![1, 2, 3]);
    let (tx, mut rx) = mpsc::channel(AUDIT_QUEUE_CAPACITY);
    assert_eq!(run_tick(&world, &tx), 1);
    assert_eq!(rx.try_recv(), Ok(key(0xab)));
    assert_eq!(rx.try_recv(), Err(TryRecvError::Empty));
}

#[test]
fn failed_catalog_query_pushes_nothing_and_the_next_tick_goes_on() {
    let mut world = world_with_one_entry(vec![1, 2, 3, 4]);
    let (tx, mut rx) = mpsc::channel(AUDIT_QUEUE_CAPACITY);
    world.catalog_up = false;
    assert_eq!(run_tick(&world, &tx), 0);
    assert_eq!(rx.try_recv(), Err(TryRecvError::Empty));
    world.catalog_up = true;
    assert_eq!(run_tick(&world, &tx), 1);
    assert_eq!(drain(&mut world, &mut rx), AuditorState::Receiving);
    assert_eq!(world.records, vec![(7, true)]);
}

#[test]
fn tick_pushes_one_key_for_each_entry_of_the_batch() {
    for k in 0..=12u8 {
        let world = World {
            entries: (0..k).map(|i| entry(i as i32, i + 1, 1_000 + i as i64)).collect(),
            catalog_up: true,
            payloads: Vec::new(),
            records: Vec::new(),
        };
        let (tx, mut rx) = mpsc::channel(AUDIT_QUEUE_CAPACITY);
        let expected = usize::from(k.min(10));
        assert_eq!(run_tick(&world, &tx), expected);
        // Newest first: the entry created last is at the head of the queue.
        for i in 0..expected {
            assert_eq!(rx.try_recv(), Ok(key(k - i as u8)));
        }
        assert_eq!(rx.try_recv(), Err(TryRecvError::Empty));
    }
}

#[test]
fn pruned_entry_gets_no_record() {
    let mut world = world_with_one_entry(vec![1, 2, 3, 4, 5]);
    let (tx, mut rx) = mpsc::channel(AUDIT_QUEUE_CAPACITY);
    assert_eq!(run_tick(&world, &tx), 1);
    world.entries.clear();
    assert_eq!(drain(&mut world, &mut rx), AuditorState::Receiving);
    assert_eq!(world.records, vec![]);
}

#[test]
fn entry_that_stays_recent_is_audited_on_every_tick() {
    let mut world = world_with_one_entry(vec![1, 2, 3]);
    let (tx, mut rx) = mpsc::channel(AUDIT_QUEUE_CAPACITY);
    for _ in 0..3 {
        assert_eq!(run_tick(&world, &tx), 1);
    }
    assert_eq!(drain(&mut world, &mut rx), AuditorState::Receiving);
    assert_eq!(world.records, vec![(7, true), (7, true), (7, true)]);
}

#[test]
fn failed_lookup_stops_the_auditor_with_keys_left_on_the_queue() {
    let mut world = World {
        entries: vec![entry(1, 0x01, 30), entry(2, 0x02, 20), entry(3, 0x03, 10)],
        catalog_up: true,
        payloads: vec![(key(0x01), vec![9, 9, 9]), (key(0x03), vec![9, 9, 9])],
        records: Vec::new(),
    };
    let (tx, mut rx) = mpsc::channel(AUDIT_QUEUE_CAPACITY);
    assert_eq!(run_tick(&world, &tx), 3);
    assert_eq!(drain(&mut world, &mut rx), AuditorState::Failed);
    assert_eq!(world.records, vec![(1, true)]);
    assert_eq!(rx.try_recv(), Ok(key(0x03)));
}

#[test]
fn failed_lookup_is_reported_with_the_network_error() {
    let fetching = AuditorState::Fetching { key: key(0x02) };
    let error = NetworkError { message: String::from("content not found") };
    let (state, action) = fetching.step(AuditorEvent::LookupFailed(error.clone()));
    assert_eq!(state, AuditorState::Failed);
    assert_eq!(action, AuditorAction::Fail { error: AuditError::Network(error) });
}

#[test]
fn closed_queue_aborts_the_scheduler_and_nothing_is_pushed() {
    let world = world_with_one_entry(vec![1, 2, 3]);
    let (tx, rx) = mpsc::channel::<LookupKey>(AUDIT_QUEUE_CAPACITY);
    drop(rx);
    let (state, action) = SchedulerState::AwaitingTick.step(SchedulerEvent::Tick);
    assert_eq!(action, SchedulerAction::QueryCatalog { limit: 10 });
    let batch = world.recent_batch(10).unwrap();
    let (state, action) = state.step(SchedulerEvent::BatchLoaded(batch));
    let SchedulerAction::Send { key: sent } = action else { panic!("no key to send") };
    assert!(matches!(tx.try_send(sent), Err(TrySendError::Closed(_))));
    let (state, action) = state.step(SchedulerEvent::QueueClosed);
    assert_eq!(state, SchedulerState::Aborted);
    assert_eq!(action, SchedulerAction::Abort);
}

#[test]
fn drained_and_closed_queue_finishes_the_auditor() {
    let mut world = world_with_one_entry(vec![1, 2, 3]);
    let (tx, mut rx) = mpsc::channel(AUDIT_QUEUE_CAPACITY);
    assert_eq!(run_tick(&world, &tx), 1);
    drop(tx);
    assert_eq!(drain(&mut world, &mut rx), AuditorState::Finished);
    assert_eq!(world.records, vec![(7, true)]);
}

#[test]
fn full_queue_holds_the_scheduler_back_without_losing_a_key() {
    let (tx, mut rx) = mpsc::channel::<LookupKey>(AUDIT_QUEUE_CAPACITY);
    assert_eq!(tx.max_capacity(), 100);
    // Eleven polls of ten entries each: ten fill the queue, the eleventh
    // finds it full.
    let mut sent: Vec<LookupKey> = Vec::new();
    let mut blocked = None;
    'polls: for poll in 0..11u8 {
        let batch: Vec<ContentKeyEntry> =
            (0..10u8).map(|i| entry(i32::from(poll) * 10 + i32::from(i), poll * 10 + i, 0)).collect();
        let (mut state, mut action) =
            SchedulerState::AwaitingBatch.step(SchedulerEvent::BatchLoaded(batch));
        while let SchedulerAction::Send { key } = action {
            match tx.try_send(key) {
                Ok(()) => sent.push(key),
                Err(TrySendError::Full(_)) => {
                    blocked = Some((state, key));
                    break 'polls;
                }
                Err(TrySendError::Closed(_)) => panic!("the queue is closed"),
            }
            let next = state.step(SchedulerEvent::KeyAccepted);
            state = next.0;
            action = next.1;
        }
    }
    assert_eq!(sent.len(), 100);
    let (state, waiting_key) = blocked.expect("the queue took more than its capacity");
    assert_eq!(waiting_key, key(100));
    // The scheduler still holds the key that found no room, and those behind it.
    let SchedulerState::Sending { in_flight, queued } = &state else { panic!("not sending") };
    assert_eq!(*in_flight, key(100));
    assert_eq!(queued.len(), 9);
    // Once the auditor has taken a key there is room, and the send goes through.
    assert_eq!(rx.try_recv(), Ok(key(0)));
    assert_eq!(tx.try_send(waiting_key), Ok(()));
    let (state, action) = state.step(SchedulerEvent::KeyAccepted);
    assert_eq!(action, SchedulerAction::Send { key: key(101) });
    assert!(matches!(state, SchedulerState::Sending { .. }));
    // The queue hands the keys out in the order in which they were pushed.
    for i in 1..=100u8 {
        assert_eq!(rx.try_recv(), Ok(key(i)));
    }
    assert_eq!(rx.try_recv(), Err(TryRecvError::Empty));
}

use catalyst_follower::worker::{
    ChainUpdate, DecodeFailure, DecodedBlock, Phase, SkipReason, Worker, WorkerAction,
    WorkerEvent, WriteFailure, STORE_INT_MAX,
};

fn block(number: u64, slot: u64, hash: Vec<u8>) -> DecodedBlock {
    DecodedBlock { number, slot, epoch: 12, wallclock: 1_650_000_000, hash }
}

fn worker() -> Worker {
    Worker::new("preprod".to_string(), "node-1".to_string())
}

#[test]
fn rollback_is_reported_without_store_write() {
    let mut w = worker();
    let a = w.step(WorkerEvent::Update(ChainUpdate::Rollback(Ok(block(100, 5000, vec![0xab, 0x01])))));
    match a {
        WorkerAction::ReportRollback(r) => {
            assert_eq!(r.number, 100);
            assert_eq!(r.slot, 5000);
            assert_eq!(r.block_hash, "ab01");
        },
        other => panic!("unexpected action {:?}", other),
    }
    assert!(matches!(w.phase, Phase::Waiting));
    assert!(w.confirmed.is_none());
}

#[test]
fn block_is_indexed_then_checkpointed() {
    let mut w = worker();
    let a = w.step(WorkerEvent::Update(ChainUpdate::Block(Ok(block(7, 5000, vec![0x00, 0xff, 0x10])))));
    match a {
        WorkerAction::Index(r) => {
            assert_eq!(r.slot, 5000);
            assert_eq!(r.network, "preprod");
            assert_eq!(r.epoch, 12);
            assert_eq!(r.wallclock, 1_650_000_000);
            assert_eq!(r.block_hash, "00ff10");
        },
        other => panic!("unexpected action {:?}", other),
    }
    let a = w.step(WorkerEvent::IndexWritten(Ok(())));
    match a {
        WorkerAction::RefreshCheckpoint(c) => {
            assert_eq!(c.slot, 5000);
            assert_eq!(c.block_hash, "00ff10");
            assert_eq!(c.network, "preprod");
            assert_eq!(c.node_id, "node-1");
        },
        other => panic!("unexpected action {:?}", other),
    }
    let a = w.step(WorkerEvent::CheckpointWritten(Ok(())));
    assert!(matches!(a, WorkerAction::PullNext));
    assert_eq!(w.confirmed, Some((5000, "00ff10".to_string())));
}

#[test]
fn decode_failure_does_not_stop_the_worker() {
    let mut w = worker();
    let a = w.step(WorkerEvent::Update(ChainUpdate::Block(Err(DecodeFailure))));
    assert!(matches!(a, WorkerAction::Skip(SkipReason::Decode)));
    let a = w.step(WorkerEvent::Update(ChainUpdate::Rollback(Err(DecodeFailure))));
    assert!(matches!(a, WorkerAction::Skip(SkipReason::Decode)));
    let a = w.step(WorkerEvent::Update(ChainUpdate::Block(Ok(block(8, 6000, vec![1])))));
    assert!(matches!(a, WorkerAction::Index(r) if r.slot == 6000));
}

#[test]
fn transport_failure_is_skipped() {
    let mut w = worker();
    let a = w.step(WorkerEvent::TransportFailed);
    assert!(matches!(a, WorkerAction::Skip(SkipReason::Transport)));
    assert!(w.expects(&WorkerEvent::TransportFailed));
}

#[test]
fn values_beyond_the_store_range_are_skipped() {
    let too_big = STORE_INT_MAX + 1;
    let mut w = worker();
    let mut b = block(1, 10, vec![1]);
    b.epoch = too_big;
    assert!(matches!(w.step(WorkerEvent::Update(ChainUpdate::Block(Ok(b)))), WorkerAction::Skip(SkipReason::EpochOutOfRange)));
    let mut b = block(1, 10, vec![1]);
    b.wallclock = too_big;
    assert!(matches!(w.step(WorkerEvent::Update(ChainUpdate::Block(Ok(b)))), WorkerAction::Skip(SkipReason::WallclockOutOfRange)));
    let b = block(1, too_big, vec![1]);
    assert!(matches!(w.step(WorkerEvent::Update(ChainUpdate::Block(Ok(b)))), WorkerAction::Skip(SkipReason::SlotOutOfRange)));
    let b = block(1, STORE_INT_MAX, vec![1]);
    assert!(matches!(w.step(WorkerEvent::Update(ChainUpdate::Block(Ok(b)))), WorkerAction::Index(r) if r.slot == i64::MAX));
}

#[test]
fn failed_index_write_skips_checkpoint() {
    let mut w = worker();
    w.step(WorkerEvent::Update(ChainUpdate::Block(Ok(block(1, 10, vec![2])))));
    let a = w.step(WorkerEvent::IndexWritten(Err(WriteFailure)));
    assert!(matches!(a, WorkerAction::Skip(SkipReason::IndexFailed)));
    assert!(matches!(w.phase, Phase::Waiting));
    assert!(w.confirmed.is_none());
}

#[test]
fn failed_checkpoint_keeps_old_one_and_allows_reindex() {
    let mut w = worker();
    w.step(WorkerEvent::Update(ChainUpdate::Block(Ok(block(1, 10, vec![2])))));
    w.step(WorkerEvent::IndexWritten(Ok(())));
    w.step(WorkerEvent::CheckpointWritten(Ok(())));
    let first = match w.step(WorkerEvent::Update(ChainUpdate::Block(Ok(block(2, 20, vec![3]))))) {
        WorkerAction::Index(r) => r,
        other => panic!("unexpected action {:?}", other),
    };
    w.step(WorkerEvent::IndexWritten(Ok(())));
    let a = w.step(WorkerEvent::CheckpointWritten(Err(WriteFailure)));
    assert!(matches!(a, WorkerAction::Skip(SkipReason::CheckpointFailed)));
    assert_eq!(w.confirmed, Some((10, "02".to_string())));
    let mut again = worker();
    let second = match again.step(WorkerEvent::Update(ChainUpdate::Block(Ok(block(2, 20, vec![3]))))) {
        WorkerAction::Index(r) => r,
        other => panic!("unexpected action {:?}", other),
    };
    assert_eq!(first.slot, second.slot);
    assert_eq!(first.network, second.network);
    assert_eq!(first.epoch, second.epoch);
    assert_eq!(first.wallclock, second.wallclock);
    assert_eq!(first.block_hash, second.block_hash);
}

#[test]
fn worker_expects_the_answer_to_its_action() {
    let mut w = worker();
    assert!(!w.expects(&WorkerEvent::IndexWritten(Ok(()))));
    w.step(WorkerEvent::Update(ChainUpdate::Block(Ok(block(1, 10, vec![2])))));
    assert!(w.expects(&WorkerEvent::IndexWritten(Ok(()))));
    assert!(!w.expects(&WorkerEvent::TransportFailed));
    w.step(WorkerEvent::IndexWritten(Ok(())));
    assert!(w.expects(&WorkerEvent::CheckpointWritten(Ok(()))));
}

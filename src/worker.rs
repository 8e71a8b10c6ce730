//! One network's ingestion worker, as a state machine. The caller pulls chain
//! updates and performs store writes; each answer is handed to `step`, which
//! decides what happens next.

use vstd::prelude::*;
use crate::hexcodec::{encode_hex, hex_decoded, hex_of, is_hex, lemma_hex_round_trip};

verus! {

/// The largest value that the store's signed 64-bit columns hold.
pub const STORE_INT_MAX: u64 = 9223372036854775807;

/// What the chain source's decoder reads out of a block.
#[derive(Clone, Debug)]
pub struct DecodedBlock {
    pub number: u64,
    pub slot: u64,
    pub epoch: u64,
    pub wallclock: u64,
    pub hash: Vec<u8>,
}

/// A block payload that the decoder rejected.
#[derive(Clone, Copy, Debug, PartialEq, Eq, Structural)]
pub struct DecodeFailure;

/// One update from the chain source, with its payload already decoded.
#[derive(Debug)]
pub enum ChainUpdate {
    Block(Result<DecodedBlock, DecodeFailure>),
    Rollback(Result<DecodedBlock, DecodeFailure>),
}

/// A failed store write.
#[derive(Clone, Copy, Debug, PartialEq, Eq, Structural)]
pub struct WriteFailure;

/// What the caller hands to the worker.
#[derive(Debug)]
pub enum WorkerEvent {
    /// The next update from the chain source.
    Update(ChainUpdate),
    /// The chain source failed to deliver the next update.
    TransportFailed,
    /// The answer to an `Index` action.
    IndexWritten(Result<(), WriteFailure>),
    /// The answer to a `RefreshCheckpoint` action.
    CheckpointWritten(Result<(), WriteFailure>),
}

/// The row that indexes one block.
#[derive(Clone, Debug)]
pub struct IndexRecord {
    pub slot: i64,
    pub network: String,
    pub epoch: i64,
    pub wallclock: i64,
    pub block_hash: String,
}

/// The checkpoint to write once a block is indexed; the caller adds the time.
#[derive(Clone, Debug)]
pub struct CheckpointRecord {
    pub slot: i64,
    pub block_hash: String,
    pub network: String,
    pub node_id: String,
}

/// What a rollback reports: block number, slot and hash.
#[derive(Clone, Debug)]
pub struct RollbackReport {
    pub number: u64,
    pub slot: u64,
    pub block_hash: String,
}

/// Why an event was dropped.
#[derive(Clone, Copy, Debug, PartialEq, Eq, Structural)]
pub enum SkipReason {
    Transport,
    Decode,
    EpochOutOfRange,
    WallclockOutOfRange,
    SlotOutOfRange,
    IndexFailed,
    CheckpointFailed,
}

/// What the caller does next. After `Skip`, `ReportRollback` and `PullNext`
/// it pulls the next update; after `Index` and `RefreshCheckpoint` it performs
/// the write and hands back its outcome.
#[derive(Clone, Debug)]
pub enum WorkerAction {
    PullNext,
    Index(IndexRecord),
    RefreshCheckpoint(CheckpointRecord),
    ReportRollback(RollbackReport),
    Skip(SkipReason),
}

/// Where the worker stands in handling one block.
#[derive(Clone, Debug)]
pub enum Phase {
    /// Waiting for the next chain update.
    Waiting,
    /// The block's index write is outstanding.
    Indexing(IndexRecord),
    /// The block is indexed; its checkpoint write is outstanding.
    Confirming(IndexRecord),
}

/// The worker of one network.
#[derive(Clone, Debug)]
pub struct Worker {
    pub network: String,
    pub node_id: String,
    pub phase: Phase,
    /// The last checkpoint this worker confirmed in this run: slot and hash.
    pub confirmed: Option<(i64, String)>,
}

/// Two index records that name the same row.
pub open spec fn same_record(a: IndexRecord, b: IndexRecord) -> bool {
    &&& a.slot == b.slot
    &&& a.network@ == b.network@
    &&& a.epoch == b.epoch
    &&& a.wallclock == b.wallclock
    &&& a.block_hash@ == b.block_hash@
}

/// The record that indexes block `b` of `network`.
pub open spec fn record_of(network: Seq<char>, b: DecodedBlock, r: IndexRecord) -> bool {
    &&& b.epoch <= STORE_INT_MAX
    &&& b.wallclock <= STORE_INT_MAX
    &&& b.slot <= STORE_INT_MAX
    &&& r.slot == b.slot as i64
    &&& r.network@ == network
    &&& r.epoch == b.epoch as i64
    &&& r.wallclock == b.wallclock as i64
    &&& r.block_hash@ == hex_of(b.hash@)
}

/// The events that the worker can take in its phase.
pub open spec fn expects(w: Worker, e: WorkerEvent) -> bool {
    match w.phase {
        Phase::Waiting => e is Update || e is TransportFailed,
        Phase::Indexing(_) => e is IndexWritten,
        Phase::Confirming(_) => e is CheckpointWritten,
    }
}

/// `w` back in the waiting phase, with nothing else changed.
pub open spec fn waiting(w: Worker, w2: Worker) -> bool {
    &&& w2.network == w.network
    &&& w2.node_id == w.node_id
    &&& w2.confirmed == w.confirmed
    &&& w2.phase is Waiting
}

/// One step: worker `w` takes event `e`, becomes `w2` and asks for `a`.
pub open spec fn step_rel(w: Worker, e: WorkerEvent, w2: Worker, a: WorkerAction) -> bool {
    match e {
        WorkerEvent::TransportFailed => waiting(w, w2) && a == WorkerAction::Skip(
            SkipReason::Transport,
        ),
        WorkerEvent::Update(ChainUpdate::Block(Err(_)))
        | WorkerEvent::Update(ChainUpdate::Rollback(Err(_))) => waiting(w, w2) && a
            == WorkerAction::Skip(SkipReason::Decode),
        WorkerEvent::Update(ChainUpdate::Rollback(Ok(b))) => waiting(w, w2) && (a matches WorkerAction::ReportRollback(r)
            && r.number == b.number && r.slot == b.slot && r.block_hash@ == hex_of(b.hash@)),
        WorkerEvent::Update(ChainUpdate::Block(Ok(b))) => if b.epoch > STORE_INT_MAX {
            waiting(w, w2) && a == WorkerAction::Skip(SkipReason::EpochOutOfRange)
        } else if b.wallclock > STORE_INT_MAX {
            waiting(w, w2) && a == WorkerAction::Skip(SkipReason::WallclockOutOfRange)
        } else if b.slot > STORE_INT_MAX {
            waiting(w, w2) && a == WorkerAction::Skip(SkipReason::SlotOutOfRange)
        } else {
            &&& a matches WorkerAction::Index(r)
            &&& record_of(w.network@, b, r)
            &&& w2 == (Worker { phase: Phase::Indexing(r), ..w })
        },
        WorkerEvent::IndexWritten(Err(_)) => waiting(w, w2) && a == WorkerAction::Skip(
            SkipReason::IndexFailed,
        ),
        WorkerEvent::IndexWritten(Ok(_)) => match w.phase {
            Phase::Indexing(r) => {
                &&& a matches WorkerAction::RefreshCheckpoint(c)
                &&& c.slot == r.slot
                &&& c.block_hash@ == r.block_hash@
                &&& c.network@ == w.network@
                &&& c.node_id@ == w.node_id@
                &&& w2 == (Worker { phase: Phase::Confirming(r), ..w })
            },
            _ => false,
        },
        WorkerEvent::CheckpointWritten(Err(_)) => waiting(w, w2) && a == WorkerAction::Skip(
            SkipReason::CheckpointFailed,
        ),
        WorkerEvent::CheckpointWritten(Ok(_)) => match w.phase {
            Phase::Confirming(r) => {
                &&& a == WorkerAction::PullNext
                &&& w2.network == w.network
                &&& w2.node_id == w.node_id
                &&& w2.phase is Waiting
                &&& w2.confirmed matches Some((s, h)) && s == r.slot && h@ == r.block_hash@
            },
            _ => false,
        },
    }
}

impl IndexRecord {
    /// A copy of the record, field for field.
    pub fn duplicate(&self) -> (r: IndexRecord)
        ensures
            r == *self,
    {
        IndexRecord {
            slot: self.slot,
            network: self.network.clone(),
            epoch: self.epoch,
            wallclock: self.wallclock,
            block_hash: self.block_hash.clone(),
        }
    }
}

impl Worker {
    /// A worker for `network`, waiting for its first update.
    pub fn new(network: String, node_id: String) -> (r: Worker)
        ensures
            r.network == network,
            r.node_id == node_id,
            r.phase is Waiting,
            r.confirmed is None,
    {
        Worker { network, node_id, phase: Phase::Waiting, confirmed: None }
    }

    /// Whether the worker can take `e` in its present phase.
    pub fn expects(&self, e: &WorkerEvent) -> (r: bool)
        ensures
            r == expects(*self, *e),
    {
        match self.phase {
            Phase::Waiting => matches!(e, WorkerEvent::Update(_) | WorkerEvent::TransportFailed),
            Phase::Indexing(_) => matches!(e, WorkerEvent::IndexWritten(_)),
            Phase::Confirming(_) => matches!(e, WorkerEvent::CheckpointWritten(_)),
        }
    }

    fn back_to_waiting(&mut self)
        ensures
            waiting(*old(self), *final(self)),
    {
        self.phase = Phase::Waiting;
    }

    /// Takes one event and says what to do next.
    pub fn step(&mut self, event: WorkerEvent) -> (a: WorkerAction)
        requires
            expects(*old(self), event),
        ensures
            step_rel(*old(self), event, *final(self), a),
    {
        match event {
            WorkerEvent::TransportFailed => {
                self.back_to_waiting();
                WorkerAction::Skip(SkipReason::Transport)
            },
            WorkerEvent::Update(ChainUpdate::Block(Err(_))) | WorkerEvent::Update(
                ChainUpdate::Rollback(Err(_)),
            ) => {
                self.back_to_waiting();
                WorkerAction::Skip(SkipReason::Decode)
            },
            WorkerEvent::Update(ChainUpdate::Rollback(Ok(b))) => {
                self.back_to_waiting();
                WorkerAction::ReportRollback(
                    RollbackReport { number: b.number, slot: b.slot, block_hash: encode_hex(&b.hash) },
                )
            },
            WorkerEvent::Update(ChainUpdate::Block(Ok(b))) => {
                if b.epoch > STORE_INT_MAX {
                    self.back_to_waiting();
                    return WorkerAction::Skip(SkipReason::EpochOutOfRange);
                }
                if b.wallclock > STORE_INT_MAX {
                    self.back_to_waiting();
                    return WorkerAction::Skip(SkipReason::WallclockOutOfRange);
                }
                if b.slot > STORE_INT_MAX {
                    self.back_to_waiting();
                    return WorkerAction::Skip(SkipReason::SlotOutOfRange);
                }
                let record = IndexRecord {
                    slot: b.slot as i64,
                    network: self.network.clone(),
                    epoch: b.epoch as i64,
                    wallclock: b.wallclock as i64,
                    block_hash: encode_hex(&b.hash),
                };
                self.phase = Phase::Indexing(record.duplicate());
                WorkerAction::Index(record)
            },
            WorkerEvent::IndexWritten(Err(_)) => {
                self.back_to_waiting();
                WorkerAction::Skip(SkipReason::IndexFailed)
            },
            WorkerEvent::IndexWritten(Ok(_)) => {
                let record = match &self.phase {
                    Phase::Indexing(r) => r.duplicate(),
                    _ => {
                        return WorkerAction::PullNext;
                    },
                };
                let checkpoint = CheckpointRecord {
                    slot: record.slot,
                    block_hash: record.block_hash.clone(),
                    network: self.network.clone(),
                    node_id: self.node_id.clone(),
                };
                self.phase = Phase::Confirming(record);
                WorkerAction::RefreshCheckpoint(checkpoint)
            },
            WorkerEvent::CheckpointWritten(Err(_)) => {
                self.back_to_waiting();
                WorkerAction::Skip(SkipReason::CheckpointFailed)
            },
            WorkerEvent::CheckpointWritten(Ok(_)) => {
                let (slot, hash) = match &self.phase {
                    Phase::Confirming(r) => (r.slot, r.block_hash.clone()),
                    _ => {
                        return WorkerAction::PullNext;
                    },
                };
                self.confirmed = Some((slot, hash));
                self.phase = Phase::Waiting;
                WorkerAction::PullNext
            },
        }
    }
}

/// A block payload that does not decode is dropped and the worker goes on:
/// it is left exactly as it was, so every later event is handled as if the
/// bad one had never come.
pub proof fn lemma_decode_failure_keeps_worker(
    w: Worker,
    u: ChainUpdate,
    w2: Worker,
    a: WorkerAction,
)
    requires
        w.phase is Waiting,
        u == ChainUpdate::Block(Err(DecodeFailure)) || u == ChainUpdate::Rollback(
            Err(DecodeFailure),
        ),
        step_rel(w, WorkerEvent::Update(u), w2, a),
    ensures
        w2 == w,
        a == WorkerAction::Skip(SkipReason::Decode),
{
}

/// At-least-once indexing: when the checkpoint write for an indexed block
/// fails, the confirmed checkpoint stays as it was, and a worker for the same
/// network that meets the block again writes the very same index row.
pub proof fn lemma_failed_checkpoint_allows_reindex(
    w: Worker,
    r: IndexRecord,
    b: DecodedBlock,
    w2: Worker,
    a: WorkerAction,
    v: Worker,
    v2: Worker,
    a2: WorkerAction,
)
    requires
        w.phase == Phase::Confirming(r),
        record_of(w.network@, b, r),
        step_rel(w, WorkerEvent::CheckpointWritten(Err(WriteFailure)), w2, a),
        v.phase is Waiting,
        v.network@ == w.network@,
        step_rel(v, WorkerEvent::Update(ChainUpdate::Block(Ok(b))), v2, a2),
    ensures
        w2.confirmed == w.confirmed,
        w2.phase is Waiting,
        a2 matches WorkerAction::Index(r2) && same_record(r2, r),
{
}

/// The checkpoint written for an indexed block names that block exactly: its
/// slot is the block's slot and its hash text decodes to the block's hash, so
/// a follower started from it resumes at the same block.
pub proof fn lemma_checkpoint_names_block(network: Seq<char>, b: DecodedBlock, r: IndexRecord)
    requires
        record_of(network, b, r),
    ensures
        r.slot >= 0,
        r.slot as u64 == b.slot,
        is_hex(r.block_hash@),
        hex_decoded(r.block_hash@) == b.hash@,
{
    lemma_hex_round_trip(b.hash@);
}

} // verus!

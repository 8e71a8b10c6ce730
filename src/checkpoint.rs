//! Checkpoints: where a network's last follower stopped, whether that is
//! recent enough to leave the network alone, and where a new follower starts.

use vstd::prelude::*;
use crate::hexcodec::{decode_hex, hex_decoded, is_hex};

verus! {

/// The last indexed position recorded for a network: its slot, the block's
/// hash as hexadecimal text, and when it was written (seconds since the epoch).
#[derive(Clone, Debug)]
pub struct Checkpoint {
    pub slot: i64,
    pub block_hash: String,
    pub last_updated: i64,
}

/// Why the store gave no checkpoint for a network.
#[derive(Clone, Copy, Debug, PartialEq, Eq, Structural)]
pub enum LookupError {
    /// No follower has recorded a position for the network yet.
    NotFound,
    /// The store failed to answer.
    Store,
}

/// A store failure that aborts the spawn attempt for a network.
#[derive(Clone, Copy, Debug, PartialEq, Eq, Structural)]
pub struct StoreFailure;

/// The resolved position pieces: slot, block hash and last update time, all
/// present or all absent.
pub struct LastUpdatePoint {
    pub slot: Option<i64>,
    pub block_hash: Option<String>,
    pub last_updated: Option<i64>,
}

/// Turns the store's answer for a network into the point a follower resumes
/// from: all three pieces of a found checkpoint, nothing when there is none
/// yet, and an error when the store failed.
pub fn find_last_update_point(lookup: Result<Checkpoint, LookupError>) -> (r: Result<
    LastUpdatePoint,
    StoreFailure,
>)
    ensures
        lookup matches Ok(c) ==> (r matches Ok(p) && p.slot == Some(c.slot) && p.block_hash
            == Some(c.block_hash) && p.last_updated == Some(c.last_updated)),
        lookup == Err::<Checkpoint, LookupError>(LookupError::NotFound) ==> (r matches Ok(p)
            && p.slot is None && p.block_hash is None && p.last_updated is None),
        lookup == Err::<Checkpoint, LookupError>(LookupError::Store) ==> r is Err,
{
    match lookup {
        Ok(c) => Ok(
            LastUpdatePoint {
                slot: Some(c.slot),
                block_hash: Some(c.block_hash),
                last_updated: Some(c.last_updated),
            },
        ),
        Err(LookupError::NotFound) => Ok(
            LastUpdatePoint { slot: None, block_hash: None, last_updated: None },
        ),
        Err(LookupError::Store) => Err(StoreFailure),
    }
}

/// The staleness rule: with no recorded update a network is always stale;
/// otherwise it is stale once more than `timing_pattern` seconds have passed.
pub open spec fn is_stale(now: int, last_updated: Option<i64>, timing_pattern: int) -> bool {
    match last_updated {
        None => true,
        Some(t) => now - t > timing_pattern,
    }
}

/// Whether a follower may be started for a network at time `now`.
pub fn data_is_stale(now: i64, last_updated: Option<i64>, timing_pattern: i64) -> (r: bool)
    ensures
        r == is_stale(now as int, last_updated, timing_pattern as int),
{
    match last_updated {
        None => true,
        Some(t) => (now as i128) - (t as i128) > (timing_pattern as i128),
    }
}

/// Where a follower asks the chain source to start.
#[derive(Clone, Debug)]
pub enum FollowFrom {
    /// The network's first block.
    Genesis,
    /// Exactly the block with this slot and hash.
    Point { slot: u64, hash: Vec<u8> },
}

/// Why a recorded checkpoint cannot be turned into a start point.
#[derive(Clone, Copy, Debug, PartialEq, Eq, Structural)]
pub enum FollowFromError {
    /// The recorded slot is negative.
    SlotOutOfRange,
    /// The recorded hash is not hexadecimal text.
    InvalidHash,
}

/// The start point for a follower: genesis when the slot or the hash is
/// missing, else exactly the recorded slot and the bytes of the recorded hash.
pub fn generate_follower_config(slot: Option<i64>, block_hash: Option<String>) -> (r: Result<
    FollowFrom,
    FollowFromError,
>)
    ensures
        (slot is None || block_hash is None) ==> (r matches Ok(f) && f is Genesis),
        slot matches Some(s) ==> block_hash matches Some(h) ==> {
            &&& s < 0 ==> r == Err::<FollowFrom, FollowFromError>(
                FollowFromError::SlotOutOfRange,
            )
            &&& (s >= 0 && !is_hex(h@)) ==> r == Err::<FollowFrom, FollowFromError>(
                FollowFromError::InvalidHash,
            )
            &&& (s >= 0 && is_hex(h@)) ==> (r matches Ok(FollowFrom::Point { slot: p, hash })
                && p == s as u64 && hash@ == hex_decoded(h@))
        },
{
    match (slot, block_hash) {
        (Some(s), Some(h)) => {
            if s < 0 {
                return Err(FollowFromError::SlotOutOfRange);
            }
            match decode_hex(&h) {
                Ok(bytes) => Ok(FollowFrom::Point { slot: s as u64, hash: bytes }),
                Err(_) => Err(FollowFromError::InvalidHash),
            }
        },
        _ => Ok(FollowFrom::Genesis),
    }
}

} // verus!

//! Checkpoints as they are recorded and reported.

use crate::error::SlateDBError;
use crate::time::UtcTime;
use uuid::Uuid;
use vstd::prelude::*;

verus! {

/// A checkpoint as the manifest records it.
#[non_exhaustive]
#[derive(PartialEq, Debug)]
pub struct Checkpoint {
    pub id: Uuid,
    pub manifest_id: u64,
    pub expire_time: Option<UtcTime>,
    pub create_time: UtcTime,
    pub name: Option<String>,
}

impl Checkpoint {
    /// A checkpoint with these fields.
    pub fn new(
        id: Uuid,
        manifest_id: u64,
        expire_time: Option<UtcTime>,
        create_time: UtcTime,
        name: Option<String>,
    ) -> (checkpoint: Self)
        ensures
            checkpoint == (Checkpoint { id, manifest_id, expire_time, create_time, name }),
    {
        Checkpoint { id, manifest_id, expire_time, create_time, name }
    }
}

impl Clone for Checkpoint {
    fn clone(&self) -> (copy: Self)
        ensures
            copy == *self,
    {
        let name = match &self.name {
            Some(name) => Some(name.clone()),
            None => None,
        };
        Checkpoint {
            id: self.id,
            manifest_id: self.manifest_id,
            expire_time: self.expire_time,
            create_time: self.create_time,
            name,
        }
    }
}

/// What the creation of a checkpoint reports.
#[non_exhaustive]
#[derive(Debug)]
pub struct CheckpointCreateResult {
    /// The id of the created checkpoint.
    pub id: Uuid,
    /// The manifest id referenced by the created checkpoint.
    pub manifest_id: u64,
}

impl CheckpointCreateResult {
    /// The report of checkpoint `id`, which refers to manifest `manifest_id`.
    pub fn new(id: Uuid, manifest_id: u64) -> (created: Self)
        ensures
            created == (CheckpointCreateResult { id, manifest_id }),
    {
        CheckpointCreateResult { id, manifest_id }
    }
}

impl Clone for CheckpointCreateResult {
    fn clone(&self) -> (copy: Self)
        ensures
            copy == *self,
    {
        CheckpointCreateResult { id: self.id, manifest_id: self.manifest_id }
    }
}

/// How a checkpoint request ends.
pub type CheckpointResult = Result<CheckpointCreateResult, SlateDBError>;

/// Whether a checkpoint request was taken on.
pub type ReadyResult = Result<(), SlateDBError>;

/// Where a checkpoint ends.
#[derive(Clone, Copy, Debug)]
pub struct CheckpointBoundary {
    pub through_seq: Option<u64>,
    pub wal_id_last_seen: Option<u64>,
}

} // verus!

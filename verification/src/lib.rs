//! The checkpoint protocol of a log-structured store: what a checkpoint
//! request captures, how its owner answers it, and what its observer learns.

pub mod checkpoint;
pub mod config;
pub mod db;
pub mod error;
pub mod handle;
pub mod ident;
pub mod laws;
pub mod lifecycle;
pub mod oneshot;
pub mod time;

pub use crate::checkpoint::{
    Checkpoint, CheckpointBoundary, CheckpointCreateResult, CheckpointResult, ReadyResult,
};
pub use crate::config::{CheckpointOptions, CheckpointScope};
pub use crate::db::{BeginAction, BeginEvent, BeginState, CreateAction, CreateState, Db};
pub use crate::error::{Error, SlateDBError};
pub use crate::handle::{checkpoint_outcome_unknown, wait_outcome, CheckpointHandle, Waited};
pub use crate::lifecycle::{CheckpointLifecycle, CheckpointRequest, Ending};
pub use crate::time::UtcTime;

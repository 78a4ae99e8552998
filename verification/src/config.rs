//! What a caller asks of a checkpoint.

use std::time::Duration;
use uuid::Uuid;
use vstd::prelude::*;

verus! {

/// Which writes a checkpoint covers.
#[derive(Clone, Copy, Debug, PartialEq, Eq, Structural)]
pub enum CheckpointScope {
    /// Every write up to the call, after freezing the active memtable, the
    /// in-memory write buffer.
    All,
    /// Only the writes that are durable already.
    Durable,
}

/// Options of a checkpoint.
#[derive(Debug)]
pub struct CheckpointOptions {
    /// How long the checkpoint is retained; without it, until explicit deletion.
    pub lifetime: Option<Duration>,
    /// An existing checkpoint whose manifest the new one refers to.
    pub source: Option<Uuid>,
    /// A name for the checkpoint.
    pub name: Option<String>,
}

impl Default for CheckpointOptions {
    fn default() -> (options: Self)
        ensures
            options.lifetime is None,
            options.source is None,
            options.name is None,
    {
        CheckpointOptions { lifetime: None, source: None, name: None }
    }
}

impl Clone for CheckpointOptions {
    fn clone(&self) -> (copy: Self)
        ensures
            copy == *self,
    {
        let name = match &self.name {
            Some(name) => Some(name.clone()),
            None => None,
        };
        CheckpointOptions { lifetime: self.lifetime, source: self.source, name }
    }
}

} // verus!

//! Errors of the checkpoint protocol.

use crate::ident::{hyphenated, hyphenated_text, uuid_number};
use uuid::Uuid;
use vstd::prelude::*;

verus! {

/// An error inside the database.
#[derive(Debug)]
pub enum SlateDBError {
    /// The database state contradicts itself.
    InvalidDBState,
    /// Whether the checkpoint with this id was created cannot be told.
    CheckpointOutcomeUnknown(Uuid),
    /// An error of the write or flush pipeline, by its message.
    Other(String),
}

impl Clone for SlateDBError {
    fn clone(&self) -> (copy: Self)
        ensures
            copy == *self,
    {
        match self {
            SlateDBError::InvalidDBState => SlateDBError::InvalidDBState,
            SlateDBError::CheckpointOutcomeUnknown(id) => {
                SlateDBError::CheckpointOutcomeUnknown(*id)
            },
            SlateDBError::Other(message) => SlateDBError::Other(message.clone()),
        }
    }
}

/// An error as the database's users see it.
#[derive(Debug)]
pub struct Error {
    pub cause: SlateDBError,
}

impl From<SlateDBError> for Error {
    fn from(cause: SlateDBError) -> (error: Self) {
        Error { cause }
    }
}

impl vstd::std_specs::convert::FromSpecImpl<SlateDBError> for Error {
    open spec fn obeys_from_spec() -> bool {
        true
    }

    open spec fn from_spec(cause: SlateDBError) -> Self {
        Error { cause }
    }
}

/// The text that users read for an error.
pub open spec fn error_text(cause: SlateDBError) -> Seq<char> {
    match cause {
        SlateDBError::InvalidDBState => "Data error: invalid DB state error"@,
        SlateDBError::CheckpointOutcomeUnknown(id) => "checkpoint outcome is unknown. checkpoint_id=`"@
            + hyphenated(uuid_number(id)) + "`"@,
        SlateDBError::Other(message) => message@,
    }
}

impl Error {
    /// The text that users read for this error.
    pub fn to_string(&self) -> (text: String)
        ensures
            text@ == error_text(self.cause),
    {
        match &self.cause {
            SlateDBError::InvalidDBState => String::from_str("Data error: invalid DB state error"),
            SlateDBError::CheckpointOutcomeUnknown(id) => {
                let id_text = hyphenated_text(id.as_u128());
                String::from_str("checkpoint outcome is unknown. checkpoint_id=`").concat(
                    id_text.as_str(),
                ).concat("`")
            },
            SlateDBError::Other(message) => message.clone(),
        }
    }
}

} // verus!

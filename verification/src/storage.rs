//! What the persistence layer shares with the rest: its error and the bound
//! on its connection pool.

use vstd::prelude::*;
use vstd::string::StringExecFns;

verus! {

/// The most connections the pool opens.
pub const MAX_POOL_CONNECTIONS: u32 = 5;

/// Failure of the persistence layer.
#[derive(Debug, Clone, PartialEq, Eq)]
pub enum StorageError {
    Connection(String),
}

impl StorageError {
    /// The text of the message for this error.
    pub open spec fn message_text(self) -> Seq<char> {
        match self {
            StorageError::Connection(detail) => "Db connection error: "@ + detail@,
        }
    }

    /// A human-readable message for this error.
    pub fn message(&self) -> (s: String)
        ensures
            s@ == self.message_text(),
    {
        match self {
            StorageError::Connection(detail) => String::from_str("Db connection error: ").concat(
                detail.as_str(),
            ),
        }
    }
}

} // verus!

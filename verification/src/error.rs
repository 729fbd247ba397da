//! The failure classes of a run. Every stage failure is terminal: the run
//! stops at the first error, and the caller reports its message.

use vstd::prelude::*;

verus! {

/// One terminal failure, tagged by the stage it came from and carrying a
/// descriptive message.
#[derive(Debug)]
pub enum RunError {
    /// A bad configuration value, such as a malformed date bound.
    Config(String),
    /// The source database could not be opened.
    DatabaseOpen(String),
    /// The selection statement could not be prepared.
    QueryPrepare(String),
    /// The selection statement could not be executed.
    QueryExecution(String),
    /// A result row could not be read.
    RowRead(String),
    /// A request body could not be assembled.
    Format(String),
    /// The sink answered with a non-success status; the message carries the
    /// response body, or a placeholder when none came.
    PublishHttp(String),
    /// The sink could not be reached at all.
    PublishTransport(String),
}

impl RunError {
    /// The message the error carries.
    pub open spec fn msg_spec(self) -> Seq<char> {
        match self {
            RunError::Config(m) => m@,
            RunError::DatabaseOpen(m) => m@,
            RunError::QueryPrepare(m) => m@,
            RunError::QueryExecution(m) => m@,
            RunError::RowRead(m) => m@,
            RunError::Format(m) => m@,
            RunError::PublishHttp(m) => m@,
            RunError::PublishTransport(m) => m@,
        }
    }

    /// The process exit code of each failure class: every class gets its
    /// own non-zero code.
    pub open spec fn code_spec(self) -> int {
        match self {
            RunError::Config(_) => 1,
            RunError::DatabaseOpen(_) => 2,
            RunError::QueryPrepare(_) => 3,
            RunError::QueryExecution(_) => 4,
            RunError::RowRead(_) => 5,
            RunError::Format(_) => 6,
            RunError::PublishHttp(_) => 7,
            RunError::PublishTransport(_) => 8,
        }
    }

    /// The non-zero process exit code for this failure class.
    pub fn exit_code(&self) -> (r: u8)
        ensures
            r as int == self.code_spec(),
            r != 0,
    {
        match self {
            RunError::Config(_) => 1,
            RunError::DatabaseOpen(_) => 2,
            RunError::QueryPrepare(_) => 3,
            RunError::QueryExecution(_) => 4,
            RunError::RowRead(_) => 5,
            RunError::Format(_) => 6,
            RunError::PublishHttp(_) => 7,
            RunError::PublishTransport(_) => 8,
        }
    }

    /// A copy of the carried message.
    pub fn message(&self) -> (r: String)
        ensures
            r@ == self.msg_spec(),
    {
        match self {
            RunError::Config(m) => m.clone(),
            RunError::DatabaseOpen(m) => m.clone(),
            RunError::QueryPrepare(m) => m.clone(),
            RunError::QueryExecution(m) => m.clone(),
            RunError::RowRead(m) => m.clone(),
            RunError::Format(m) => m.clone(),
            RunError::PublishHttp(m) => m.clone(),
            RunError::PublishTransport(m) => m.clone(),
        }
    }
}

} // verus!

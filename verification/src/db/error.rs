//! What can go wrong, and how a failure of the store is classified.

use vstd::prelude::*;

verus! {

/// SQLite's primary result code for a violated constraint.
pub const SQLITE_CONSTRAINT: i32 = 19;

/// A failure as the store reported it: SQLite's extended result code, where
/// the failure came from SQLite itself, and the message.
#[derive(Debug, Clone, PartialEq, Eq)]
pub struct SqlFailure {
    pub code: Option<i32>,
    pub message: String,
}

/// What a [`SqlFailure`] is, with its message as a sequence.
pub struct FailureData {
    pub code: Option<i32>,
    pub message: Seq<char>,
}

impl View for SqlFailure {
    type V = FailureData;

    open spec fn view(&self) -> FailureData {
        FailureData { code: self.code, message: self.message@ }
    }
}

/// The errors of the catalog. A lookup that finds nothing is no error: it
/// answers `None`.
#[derive(Debug, Clone, PartialEq, Eq)]
pub enum StoreError {
    /// The database could not be opened or its schema not be applied.
    StoreUnavailable(String),
    /// An earlier holder of the connection ended abnormally.
    LockPoisoned(String),
    /// A uniqueness constraint rejected the write.
    ConstraintViolation(String),
    /// Any other failure of the store.
    QueryFailure(String),
}

/// What a [`StoreError`] is, with its message as a sequence.
pub enum StoreFault {
    StoreUnavailable(Seq<char>),
    LockPoisoned(Seq<char>),
    ConstraintViolation(Seq<char>),
    QueryFailure(Seq<char>),
}

impl View for StoreError {
    type V = StoreFault;

    open spec fn view(&self) -> StoreFault {
        match *self {
            StoreError::StoreUnavailable(m) => StoreFault::StoreUnavailable(m@),
            StoreError::LockPoisoned(m) => StoreFault::LockPoisoned(m@),
            StoreError::ConstraintViolation(m) => StoreFault::ConstraintViolation(m@),
            StoreError::QueryFailure(m) => StoreFault::QueryFailure(m@),
        }
    }
}

impl StoreFault {
    /// Whether this is a fault that a statement can end in: a violated
    /// constraint or a query failure.
    pub open spec fn of_statement(self) -> bool {
        self is ConstraintViolation || self is QueryFailure
    }

    /// The message that the fault carries.
    pub open spec fn message(self) -> Seq<char> {
        match self {
            StoreFault::StoreUnavailable(m) => m,
            StoreFault::LockPoisoned(m) => m,
            StoreFault::ConstraintViolation(m) => m,
            StoreFault::QueryFailure(m) => m,
        }
    }
}

/// Whether an extended result code stands for a violated constraint: its low
/// byte, the primary code, is `SQLITE_CONSTRAINT`.
pub open spec fn is_constraint_code(code: Option<i32>) -> bool {
    code matches Some(c) && (c & 0xff) == SQLITE_CONSTRAINT
}

/// The fault that a failed statement stands for: a violated constraint where
/// SQLite says so, a query failure otherwise. The message is kept.
pub open spec fn statement_fault(failure: FailureData) -> StoreFault {
    if is_constraint_code(failure.code) {
        StoreFault::ConstraintViolation(failure.message)
    } else {
        StoreFault::QueryFailure(failure.message)
    }
}

/// The fault that a failure to open or prepare the database stands for.
pub open spec fn startup_fault(failure: FailureData) -> StoreFault {
    StoreFault::StoreUnavailable(failure.message)
}

impl StoreError {
    /// The error of a statement that the store refused.
    pub fn from_statement(failure: SqlFailure) -> (error: StoreError)
        ensures
            error@ == statement_fault(failure@),
    {
        let constraint = match failure.code {
            Some(c) => (c & 0xff) == SQLITE_CONSTRAINT,
            None => false,
        };
        if constraint {
            StoreError::ConstraintViolation(failure.message)
        } else {
            StoreError::QueryFailure(failure.message)
        }
    }

    /// The error of a database that could not be opened or prepared.
    pub fn from_startup(failure: SqlFailure) -> (error: StoreError)
        ensures
            error@ == startup_fault(failure@),
    {
        StoreError::StoreUnavailable(failure.message)
    }

    /// The error of a poisoned lock, with the given description.
    pub fn lock_poisoned(description: String) -> (error: StoreError)
        ensures
            error@ == StoreFault::LockPoisoned(description@),
    {
        StoreError::LockPoisoned(description)
    }

    /// The message alone, as the callers at the outer boundary show it.
    pub fn message(&self) -> (text: String)
        ensures
            text@ == self@.message(),
    {
        match self {
            StoreError::StoreUnavailable(m) => m.clone(),
            StoreError::LockPoisoned(m) => m.clone(),
            StoreError::ConstraintViolation(m) => m.clone(),
            StoreError::QueryFailure(m) => m.clone(),
        }
    }
}

} // verus!

//! Outcomes other than success, and how a failure of the relational store is
//! turned into one of them.

use vstd::prelude::*;

verus! {

/// Why an operation on reports gave no result.
#[derive(Clone, Copy, Debug, PartialEq, Eq, Structural)]
pub enum ReportError {
    /// No report has the requested id.
    NotFound,
    /// A pagination parameter is out of range.
    InvalidArgument,
    /// Reserved for callers that enforce authorization above the listing's own
    /// filter; no operation of this crate returns it.
    PermissionDenied,
    /// The store behind the snapshot failed.
    StoreUnavailable,
}

/// Why saving or unsaving a post gave no view of it.
#[derive(Clone, Copy, Debug, PartialEq, Eq, Structural)]
pub enum SavePostError {
    /// The save could not be recorded: there is no such post.
    CouldntSavePost,
    /// There is no such post to show.
    NotFound,
}

/// What this crate tells apart in a failure of the relational store.
#[derive(Clone, Copy, Debug, PartialEq, Eq, Structural)]
pub enum StoreFault {
    /// A query that must return a row returned none.
    NoRows,
    /// The query could not be built from its parameters.
    Malformed,
    /// Anything else: the connection, the transaction, the data.
    Other,
}

#[verifier::external_type_specification]
#[verifier::external_body]
pub struct ExStoreError(diesel::result::Error);

/// Tells the variants of `diesel::result::Error` apart. Nothing is claimed of
/// the outcome: the error is opaque to the verifier, so callers are proved for
/// every fault that may come back.
#[verifier::external_body]
fn fault_of(err: &diesel::result::Error) -> (fault: StoreFault) {
    match err {
        diesel::result::Error::NotFound => StoreFault::NoRows,
        diesel::result::Error::QueryBuilderError(_) => StoreFault::Malformed,
        _ => StoreFault::Other,
    }
}

impl ReportError {
    /// The outcome that stands for a fault of the store.
    pub open spec fn of_fault(fault: StoreFault) -> ReportError {
        match fault {
            StoreFault::NoRows => ReportError::NotFound,
            StoreFault::Malformed => ReportError::InvalidArgument,
            StoreFault::Other => ReportError::StoreUnavailable,
        }
    }

    /// Maps a fault of the store to the outcome that callers see.
    pub fn from_fault(fault: StoreFault) -> (e: ReportError)
        ensures
            e == Self::of_fault(fault),
    {
        match fault {
            StoreFault::NoRows => ReportError::NotFound,
            StoreFault::Malformed => ReportError::InvalidArgument,
            StoreFault::Other => ReportError::StoreUnavailable,
        }
    }

    /// Maps an error raised by the store to the outcome that callers see. A
    /// store error never becomes `PermissionDenied`.
    pub fn from_store_error(err: &diesel::result::Error) -> (e: ReportError)
        ensures
            exists|fault: StoreFault| e == Self::of_fault(fault),
            e != ReportError::PermissionDenied,
    {
        let fault = fault_of(err);
        let e = Self::from_fault(fault);
        assert(e == Self::of_fault(fault));
        e
    }
}

} // verus!

//! Structured driver error with operation-level context.

use vstd::prelude::*;
use vstd::std_specs::convert::FromSpecImpl;
use crate::types::{BackendKind, CoreError};

verus! {

/// A failed operation. Every variant names the operation that failed.
#[derive(Debug)]
pub enum Error {
    /// The driver or runtime library could not be loaded.
    NotAvailable { lib: &'static str, detail: String },
    /// A driver call returned a non-success status `code`.
    Driver { op: &'static str, code: u32 },
    /// A host-side precondition was violated (wrong length, bad size, ...).
    Precondition { op: &'static str, msg: String },
}

pub type Result<T> = core::result::Result<T, Error>;

/// Numeric code of an error: -1 for a missing library, -2 for a violated
/// precondition, the driver status otherwise.
pub open spec fn spec_numeric(e: Error) -> int {
    match e {
        Error::NotAvailable { .. } => -1,
        Error::Driver { code, .. } => code as int,
        Error::Precondition { .. } => -2,
    }
}

impl Error {
    /// The operation the error names; `"load"` for a missing library.
    pub fn op(&self) -> (r: &'static str)
        ensures
            match self {
                Error::NotAvailable { .. } => r@ == "load"@,
                Error::Driver { op, .. } => r == *op,
                Error::Precondition { op, .. } => r == *op,
            },
    {
        match self {
            Error::NotAvailable { .. } => "load",
            Error::Driver { op, .. } => op,
            Error::Precondition { op, .. } => op,
        }
    }

    /// Numeric code suitable for a backend-generic error report.
    pub fn numeric(&self) -> (r: i64)
        ensures
            r as int == spec_numeric(*self),
    {
        match self {
            Error::NotAvailable { .. } => -1,
            Error::Driver { code, .. } => *code as i64,
            Error::Precondition { .. } => -2,
        }
    }

    /// A precondition failure for `op` with message `msg`.
    pub fn precondition(op: &'static str, msg: &str) -> (e: Error)
        ensures
            e matches Error::Precondition { op: o, msg: m } && o == op && m@ == msg@,
    {
        Error::Precondition { op, msg: msg.to_string() }
    }
}

/// A driver error seen through the backend-generic error: a CUDA backend
/// error carrying the numeric code.
impl From<Error> for CoreError {
    fn from(e: Error) -> (r: CoreError) {
        CoreError::Backend { backend: BackendKind::Cuda, code: e.numeric() }
    }
}

impl FromSpecImpl<Error> for CoreError {
    open spec fn obeys_from_spec() -> bool {
        true
    }

    open spec fn from_spec(e: Error) -> CoreError {
        CoreError::Backend { backend: BackendKind::Cuda, code: spec_numeric(e) as i64 }
    }
}

/// `Ok` for a library status of zero, else the CUDA backend error carrying
/// the status.
pub fn backend_status(code: u32) -> (r: core::result::Result<(), CoreError>)
    ensures
        code == 0 <==> r is Ok,
        code != 0 ==> (r matches Err(CoreError::Backend { backend, code: c }) && backend == BackendKind::Cuda && c
            == code as i64),
{
    if code == 0 {
        Ok(())
    } else {
        Err(CoreError::Backend { backend: BackendKind::Cuda, code: code as i64 })
    }
}

} // verus!

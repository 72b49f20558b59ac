//! Failures reported by the service, and the status codes they come from.
use vstd::prelude::*;
use crate::guid::Guid;

verus! {

/// Success with nothing to report (for a query: no objects).
pub const S_FALSE: i32 = 1;

/// The service's "call made in the wrong order" status.
pub const VSS_E_BAD_STATE: i32 = -2147212543;

/// The service's "no object with that identifier" status.
pub const VSS_E_OBJECT_NOT_FOUND: i32 = -2147212536;

/// The service calls that a session makes.
#[derive(Clone, Copy, Debug, PartialEq, Eq, Structural)]
pub enum Operation {
    Initialize,
    GatherWriterMetadata,
    StartSnapshotSet,
    AddToSnapshotSet,
    SetBackupState,
    PrepareForBackup,
    DoSnapshotSet,
    Query,
    GetSnapshotProperties,
    DeleteSnapshot,
    DeleteSnapshotSet,
}

/// Why a session operation failed.
#[derive(Clone, Copy, Debug, PartialEq, Eq, Structural)]
pub enum ServiceError {
    /// A service call returned a failure status; `object` is the identifier
    /// the failure concerns (the null identifier where there is none).
    ServiceCallFailed { code: i32, op: Operation, object: Guid },
    /// A lookup found no object with the identifier.
    NotFound { op: Operation, object: Guid },
    /// A long-running operation completed with a failure status.
    AsyncOperationFailed { code: i32, op: Operation },
    /// The operation was issued out of the handshake's order.
    InvalidOrdering { op: Operation },
    /// `initialize` was called on a session that had already been initialized.
    AlreadyInitialized,
}

/// Whether a status code reports failure (its severity bit is set).
pub open spec fn failed(code: i32) -> bool {
    code < 0
}

/// The error for a failure status of a call.
pub open spec fn call_error(code: i32, op: Operation, object: Guid) -> ServiceError {
    if code == VSS_E_BAD_STATE {
        ServiceError::InvalidOrdering { op }
    } else if code == VSS_E_OBJECT_NOT_FOUND {
        ServiceError::NotFound { op, object }
    } else {
        ServiceError::ServiceCallFailed { code, op, object }
    }
}

/// The outcome of a call that returned `code`.
pub open spec fn call_outcome(code: i32, op: Operation, object: Guid) -> Result<(), ServiceError> {
    if failed(code) {
        Err(call_error(code, op, object))
    } else {
        Ok(())
    }
}

/// Maps the status of a service call to its outcome.
pub fn check_status(code: i32, op: Operation, object: Guid) -> (r: Result<(), ServiceError>)
    ensures
        r == call_outcome(code, op, object),
{
    if code >= 0 {
        Ok(())
    } else if code == VSS_E_BAD_STATE {
        Err(ServiceError::InvalidOrdering { op })
    } else if code == VSS_E_OBJECT_NOT_FOUND {
        Err(ServiceError::NotFound { op, object })
    } else {
        Err(ServiceError::ServiceCallFailed { code, op, object })
    }
}

} // verus!

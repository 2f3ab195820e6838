//! Errors of the runtime, and the conversion of driver status codes into them.

use vstd::prelude::*;
use crate::driver::{CUresult, CUDA_SUCCESS};

verus! {

/// Why an operation failed.
#[derive(Clone, Copy, Debug, PartialEq, Eq, Structural)]
pub enum CudaError {
    /// A driver call answered with this status code.
    Other(CUresult),
    /// The operation was disallowed for a reason other than a driver status.
    Prohibited,
}

impl From<CUresult> for CudaError {
    fn from(v: CUresult) -> (e: CudaError)
    {
        CudaError::Other(v)
    }
}

impl vstd::std_specs::convert::FromSpecImpl<CUresult> for CudaError {
    open spec fn obeys_from_spec() -> bool {
        true
    }

    open spec fn from_spec(v: CUresult) -> CudaError {
        CudaError::Other(v)
    }
}

/// What a driver status means to the caller of the operation that received it.
pub open spec fn status_result(status: CUresult) -> Result<(), CudaError> {
    if status == CUDA_SUCCESS {
        Ok(())
    } else {
        Err(CudaError::Other(status))
    }
}

/// Converts a driver status: success passes, any other code becomes an error
/// that carries it.
pub fn check(status: CUresult) -> (r: Result<(), CudaError>)
    ensures
        r == status_result(status),
{
    if status == CUDA_SUCCESS {
        Ok(())
    } else {
        Err(CudaError::from(status))
    }
}

} // verus!

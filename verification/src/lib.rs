//! Host-side core of a GPU runtime: a fixed-capacity pinned buffer and the
//! context, module and kernel-function handles, with every exchange with the
//! accelerator driver expressed as plain values.
//!
//! The library makes no driver call. For each operation it says which call is
//! due, as a [`Request`], and what follows from the driver's [`Reply`]. An
//! operation that takes one call is a pair of functions, one for the request
//! and one for the reply; a dispatch, which takes several, is a value that is
//! moved on reply by reply.

pub mod buffer;
pub mod context;
pub mod driver;
pub mod error;
pub mod function;
pub mod launch;

pub use crate::buffer::Buffer;
pub use crate::context::{Context, Module};
pub use crate::driver::{CUresult, Reply, Request, CUDA_SUCCESS, CU_MEMHOSTALLOC_DEVICEMAP};
pub use crate::error::{check, CudaError};
pub use crate::function::Function;
pub use crate::launch::{Launch, SimpleLaunch, SimplePlan, Stage, Step, BATCH};

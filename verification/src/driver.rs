//! The vocabulary exchanged with the accelerator driver.
//!
//! The library never calls the driver. It says which call is due as a
//! [`Request`], and is told what the driver answered as a [`Reply`].

use vstd::prelude::*;

verus! {

/// Native status code of a driver call.
pub type CUresult = u32;

/// The status code with which the driver reports success.
pub const CUDA_SUCCESS: CUresult = 0;

/// Allocation flag: map the page-locked region into the device's address space.
pub const CU_MEMHOSTALLOC_DEVICEMAP: u32 = 2;

/// One call into the driver. Handles and addresses are carried as integers.
#[derive(Debug, PartialEq, Eq)]
pub enum Request {
    /// Allocate `bytes` bytes of page-locked host memory.
    MemHostAlloc { bytes: usize, flags: u32 },
    /// Release the page-locked region that starts at `host`.
    MemFreeHost { host: u64 },
    /// Ask for the device address that corresponds to the host address `host`.
    MemHostGetDevicePointer { host: u64, flags: u32 },
    /// Load the code object `image`, which ends with a zero byte, into the current context.
    ModuleLoadData { image: Vec<u8> },
    /// Resolve the entry point `name`, which ends with a zero byte, in `module`.
    ModuleGetFunction { module: u64, name: Vec<u8> },
    /// Dispatch `func` on a grid of blocks; each entry of `args` is handed over by address.
    LaunchKernel {
        func: u64,
        grid: [u32; 3],
        block: [u32; 3],
        shared_mem: u32,
        stream: u64,
        args: Vec<u64>,
    },
    /// Block until the device has finished all work of the current context.
    CtxSynchronize,
    /// Destroy the execution context `context`.
    CtxDestroy { context: u64 },
}

/// A [`Request`] as a mathematical value: byte strings and argument lists as
/// sequences.
pub enum RequestView {
    MemHostAlloc { bytes: usize, flags: u32 },
    MemFreeHost { host: u64 },
    MemHostGetDevicePointer { host: u64, flags: u32 },
    ModuleLoadData { image: Seq<u8> },
    ModuleGetFunction { module: u64, name: Seq<u8> },
    LaunchKernel {
        func: u64,
        grid: Seq<u32>,
        block: Seq<u32>,
        shared_mem: u32,
        stream: u64,
        args: Seq<u64>,
    },
    CtxSynchronize,
    CtxDestroy { context: u64 },
}

impl View for Request {
    type V = RequestView;

    open spec fn view(&self) -> RequestView {
        match *self {
            Request::MemHostAlloc { bytes, flags } => RequestView::MemHostAlloc { bytes, flags },
            Request::MemFreeHost { host } => RequestView::MemFreeHost { host },
            Request::MemHostGetDevicePointer { host, flags } => RequestView::MemHostGetDevicePointer {
                host,
                flags,
            },
            Request::ModuleLoadData { image } => RequestView::ModuleLoadData { image: image@ },
            Request::ModuleGetFunction { module, name } => RequestView::ModuleGetFunction {
                module,
                name: name@,
            },
            Request::LaunchKernel { func, grid, block, shared_mem, stream, args } => {
                RequestView::LaunchKernel {
                    func,
                    grid: grid@,
                    block: block@,
                    shared_mem,
                    stream,
                    args: args@,
                }
            },
            Request::CtxSynchronize => RequestView::CtxSynchronize,
            Request::CtxDestroy { context } => RequestView::CtxDestroy { context },
        }
    }
}

/// What the driver answered: its status, and the handle or address it produced
/// (zero for a call that produces none).
#[derive(Clone, Copy, Debug, PartialEq, Eq, Structural)]
pub struct Reply {
    pub status: CUresult,
    pub value: u64,
}

} // verus!

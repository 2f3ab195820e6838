//! The execution context and the code modules loaded into it.

use vstd::prelude::*;
use vstd::string::StringSliceAdditionalSpecFns;
use vstd::slice::slice_to_vec;
use crate::driver::{Reply, Request, RequestView, CUDA_SUCCESS};
use crate::error::CudaError;
use crate::function::Function;

verus! {

/// The bytes of `text` followed by the zero byte that ends a string for the driver.
pub open spec fn zero_terminated(text: Seq<u8>) -> Seq<u8> {
    text.push(0u8)
}

/// Copies the bytes of `text` and ends them with a zero byte.
pub fn terminate(text: &str) -> (bytes: Vec<u8>)
    ensures
        bytes@ == zero_terminated(text.spec_bytes()),
{
    let mut bytes: Vec<u8> = slice_to_vec(text.as_bytes());
    bytes.push(0u8);
    bytes
}

/// A device execution context. It owns its handle.
pub struct Context {
    handle: u64,
}

impl Context {
    /// The handle of the context.
    pub closed spec fn spec_handle(&self) -> u64 {
        self.handle
    }

    /// Takes ownership of the context that the driver created under `handle`.
    pub fn new(handle: u64) -> (context: Context)
        ensures
            context.spec_handle() == handle,
    {
        Context { handle }
    }

    /// The handle of the context.
    #[verifier::when_used_as_spec(spec_handle)]
    pub fn handle(&self) -> (handle: u64)
        ensures
            handle == self.spec_handle(),
    {
        self.handle
    }

    /// The driver call that loads the code object given as text.
    pub fn create_module_request(&self, data: &str) -> (request: Request)
        ensures
            request@ == (RequestView::ModuleLoadData {
                image: zero_terminated(data.spec_bytes()),
            }),
    {
        Request::ModuleLoadData { image: terminate(data) }
    }

    /// The module loaded from text, from the driver's reply to the load: on
    /// success the module with the handle that the driver returned, bound to
    /// this context; any other status is the error.
    pub fn create_module(&self, reply: Reply) -> (r: Result<Module<'_>, CudaError>)
        ensures
            self.loaded(reply, r),
    {
        self.module_from(reply)
    }

    /// The driver call that loads the code object `data`, whose last byte is zero.
    pub fn create_module_null_terminated_request(&self, data: &[u8]) -> (request: Request)
        requires
            data@.len() > 0,
            data@.last() == 0,
        ensures
            request@ == (RequestView::ModuleLoadData { image: data@ }),
    {
        Request::ModuleLoadData { image: slice_to_vec(data) }
    }

    /// The module loaded from zero-terminated bytes, from the driver's reply
    /// to the load; as for text.
    pub fn create_module_null_terminated(&self, reply: Reply) -> (r: Result<Module<'_>, CudaError>)
        ensures
            self.loaded(reply, r),
    {
        self.module_from(reply)
    }

    /// `r` is what a load into this context gives when the driver answered `reply`.
    pub open spec fn loaded(&self, reply: Reply, r: Result<Module<'_>, CudaError>) -> bool {
        match r {
            Ok(module) => {
                &&& reply.status == CUDA_SUCCESS
                &&& module.spec_handle() == reply.value
                &&& module.spec_context() == *self
            },
            Err(e) => reply.status != CUDA_SUCCESS && e == CudaError::Other(reply.status),
        }
    }

    fn module_from(&self, reply: Reply) -> (r: Result<Module<'_>, CudaError>)
        ensures
            self.loaded(reply, r),
    {
        if reply.status != CUDA_SUCCESS {
            return Err(CudaError::Other(reply.status));
        }
        Ok(Module { module: reply.value, context: self })
    }

    /// Gives the context up: the driver call that destroys it. No module
    /// loaded into it can still be held.
    pub fn release(self) -> (request: Request)
        ensures
            request@ == (RequestView::CtxDestroy { context: self.spec_handle() }),
    {
        Request::CtxDestroy { context: self.handle }
    }
}

/// A code object loaded into a context. It cannot outlive the context.
pub struct Module<'a> {
    module: u64,
    context: &'a Context,
}

impl<'a> Module<'a> {
    /// The handle of the module.
    pub closed spec fn spec_handle(&self) -> u64 {
        self.module
    }

    /// The context that the module was loaded into.
    pub closed spec fn spec_context(&self) -> Context {
        *self.context
    }

    /// The handle of the module.
    #[verifier::when_used_as_spec(spec_handle)]
    pub fn handle(&self) -> (handle: u64)
        ensures
            handle == self.spec_handle(),
    {
        self.module
    }

    /// The context that the module was loaded into.
    pub fn context(&self) -> (context: &'a Context)
        ensures
            *context == self.spec_context(),
    {
        self.context
    }

    /// The driver call that resolves the entry point `name` in this module.
    pub fn get_request(&self, name: &str) -> (request: Request)
        ensures
            request@ == (RequestView::ModuleGetFunction {
                module: self.spec_handle(),
                name: zero_terminated(name.spec_bytes()),
            }),
    {
        Request::ModuleGetFunction { module: self.module, name: terminate(name) }
    }

    /// The entry point `name`, from the driver's reply to the lookup: on
    /// success the function with the handle that the driver returned, under its
    /// name and bound to this module; any other status is the error.
    pub fn get(&self, name: &str, reply: Reply) -> (r: Result<Function<'_>, CudaError>)
        ensures
            match r {
                Ok(function) => {
                    &&& reply.status == CUDA_SUCCESS
                    &&& function.spec_handle() == reply.value
                    &&& function.spec_name() == name@
                    &&& function.spec_module() == *self
                },
                Err(e) => reply.status != CUDA_SUCCESS && e == CudaError::Other(reply.status),
            },
    {
        if reply.status != CUDA_SUCCESS {
            return Err(CudaError::Other(reply.status));
        }
        Ok(Function::new(reply.value, name, self))
    }
}

} // verus!

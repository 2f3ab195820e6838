//! Kernel functions: named entry points of a loaded module.

use vstd::prelude::*;
use crate::buffer::Buffer;
use crate::context::Module;
use crate::launch::{launch_call, Launch, SimpleLaunch, SimplePlan, Stage, Step};

verus! {

/// A named entry point of a module. It cannot outlive the module.
pub struct Function<'a> {
    func: u64,
    name: String,
    module: &'a Module<'a>,
}

impl<'a> Function<'a> {
    /// The handle of the function.
    pub closed spec fn spec_handle(&self) -> u64 {
        self.func
    }

    /// The name under which the function was resolved.
    pub closed spec fn spec_name(&self) -> Seq<char> {
        self.name@
    }

    /// The module that the function belongs to.
    pub closed spec fn spec_module(&self) -> Module<'a> {
        *self.module
    }

    /// The function that the driver resolved as `func` for `name` in `module`.
    pub(crate) fn new(func: u64, name: &str, module: &'a Module<'a>) -> (function: Function<'a>)
        ensures
            function.spec_handle() == func,
            function.spec_name() == name@,
            function.spec_module() == *module,
    {
        Function { func, name: name.to_owned(), module }
    }

    /// The handle of the function.
    #[verifier::when_used_as_spec(spec_handle)]
    pub fn handle(&self) -> (handle: u64)
        ensures
            handle == self.spec_handle(),
    {
        self.func
    }

    /// The name under which the function was resolved.
    pub fn name(&self) -> (name: &str)
        ensures
            name@ == self.spec_name(),
    {
        self.name.as_str()
    }

    /// The module that the function belongs to.
    pub fn module(&self) -> (module: &'a Module<'a>)
        ensures
            *module == self.spec_module(),
    {
        self.module
    }

    /// Starts a synchronous dispatch of this function on the default stream,
    /// over a grid of `grid` blocks of `block` threads each, with `shared_mem`
    /// bytes of shared memory. `args` holds the kernel's arguments in order,
    /// one 64-bit word each; their number and meaning must be those that the
    /// kernel declares, which nothing here can check.
    pub fn launch(&self, grid: [u32; 3], block: [u32; 3], shared_mem: u32, args: &[u64]) -> (run:
        Launch)
        ensures
            run.stage() == Stage::Submit,
            run.call() == launch_call(self.spec_handle(), grid@, block@, shared_mem, args@),
    {
        Launch::new(self.func, grid, block, shared_mem, args)
    }

    /// Starts a simple launch of this function: one block of `BATCH` threads
    /// for each full batch of elements of `data_in`, with the device addresses
    /// of the two regions as the arguments. The output must have room for as
    /// many elements as the input holds.
    pub fn launch_simple<T: Copy>(&self, data_in: &Buffer<T>, data_out: &Buffer<T>) -> (run:
        SimpleLaunch)
        requires
            data_in.spec_len() <= data_out.spec_capacity(),
        ensures
            run.step() == Step::Source,
            run.plan() == (SimplePlan {
                func: self.spec_handle(),
                source: data_in.spec_host_ptr(),
                destination: data_out.spec_host_ptr(),
                count: data_in.spec_len(),
            }),
    {
        SimpleLaunch::new(
            SimplePlan {
                func: self.func,
                source: data_in.host_ptr(),
                destination: data_out.host_ptr(),
                count: data_in.len(),
            },
        )
    }
}

} // verus!

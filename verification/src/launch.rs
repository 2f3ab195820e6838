//! The synchronous dispatch of a kernel, as a sequence of driver calls.
//!
//! A dispatch is a value that says which driver call is due and moves on by
//! the driver's reply to it, until it has ended. Whoever holds it performs the
//! calls; the decisions are made here.

use vstd::prelude::*;
use vstd::slice::slice_to_vec;
use crate::buffer::{overlay, Buffer};
use crate::driver::{CUresult, Reply, Request, RequestView, CUDA_SUCCESS};
use crate::error::{check, status_result, CudaError};

verus! {

/// Threads per block, and elements per block, in a simple launch.
pub const BATCH: u32 = 512;

/// Where a synchronous dispatch stands.
#[derive(Clone, Copy, Debug, PartialEq, Eq)]
pub enum Stage {
    /// The dispatch is to be submitted.
    Submit,
    /// The dispatch was submitted; the device's completion is to be awaited.
    Synchronize,
    /// Nothing is left to do.
    Finished(Result<(), CudaError>),
}

impl Stage {
    /// The stage after the driver answered the call of this stage with `status`.
    pub open spec fn after(self, status: CUresult) -> Stage {
        match self {
            Stage::Submit => if status == CUDA_SUCCESS {
                Stage::Synchronize
            } else {
                Stage::Finished(Err(CudaError::Other(status)))
            },
            Stage::Synchronize => Stage::Finished(status_result(status)),
            Stage::Finished(r) => Stage::Finished(r),
        }
    }

    /// How the dispatch ended, once it has.
    pub open spec fn outcome(self) -> Option<Result<(), CudaError>> {
        match self {
            Stage::Finished(r) => Some(r),
            _ => None,
        }
    }

    /// Moves on by the driver's answer to the call of this stage.
    pub fn advance(self, status: CUresult) -> (next: Stage)
        ensures
            next == self.after(status),
    {
        match self {
            Stage::Submit => {
                if status == CUDA_SUCCESS {
                    Stage::Synchronize
                } else {
                    Stage::Finished(Err(CudaError::Other(status)))
                }
            },
            Stage::Synchronize => Stage::Finished(check(status)),
            Stage::Finished(r) => Stage::Finished(r),
        }
    }

    /// How the dispatch ended, once it has.
    pub fn result(self) -> (r: Option<Result<(), CudaError>>)
        ensures
            r == self.outcome(),
    {
        match self {
            Stage::Finished(r) => Some(r),
            _ => None,
        }
    }
}

/// How a dispatch ends whose submission was answered with `submitted` and,
/// if that was success, whose wait for completion was answered with
/// `synchronized`.
pub open spec fn launch_outcome(submitted: CUresult, synchronized: CUresult) -> Result<
    (),
    CudaError,
> {
    if submitted != CUDA_SUCCESS {
        Err(CudaError::Other(submitted))
    } else {
        status_result(synchronized)
    }
}

/// A dispatch has ended once its submission and its wait for completion were
/// answered, with the first status that is not success as its error. When the
/// submission fails it ends at once, and no wait is asked for. It succeeds
/// exactly if both statuses are success.
pub proof fn lemma_launch_outcome(submitted: CUresult, synchronized: CUresult)
    ensures
        Stage::Submit.after(submitted).after(synchronized).outcome() == Some(
            launch_outcome(submitted, synchronized),
        ),
        submitted != CUDA_SUCCESS ==> Stage::Submit.after(submitted).outcome() == Some(
            launch_outcome(submitted, synchronized),
        ),
        submitted == CUDA_SUCCESS ==> Stage::Submit.after(submitted) == Stage::Synchronize,
        launch_outcome(submitted, synchronized) is Ok <==> submitted == CUDA_SUCCESS
            && synchronized == CUDA_SUCCESS,
{
}

/// The driver call that dispatches `func` on the default stream.
pub open spec fn launch_call(
    func: u64,
    grid: Seq<u32>,
    block: Seq<u32>,
    shared_mem: u32,
    args: Seq<u64>,
) -> RequestView {
    RequestView::LaunchKernel { func, grid, block, shared_mem, stream: 0, args }
}

/// A synchronous dispatch in progress: the submission, then the wait for the
/// device.
pub struct Launch {
    stage: Stage,
    func: u64,
    grid: [u32; 3],
    block: [u32; 3],
    shared_mem: u32,
    args: Vec<u64>,
}

impl Launch {
    /// Where the dispatch stands.
    pub closed spec fn spec_stage(&self) -> Stage {
        self.stage
    }

    /// Where the dispatch stands.
    #[verifier::when_used_as_spec(spec_stage)]
    pub fn stage(&self) -> (stage: Stage)
        ensures
            stage == self.spec_stage(),
    {
        self.stage
    }

    /// The driver call that submits the dispatch.
    pub closed spec fn call(&self) -> RequestView {
        launch_call(self.func, self.grid@, self.block@, self.shared_mem, self.args@)
    }

    /// The driver call that is due, if any.
    pub open spec fn pending(&self) -> Option<RequestView> {
        match self.stage() {
            Stage::Submit => Some(self.call()),
            Stage::Synchronize => Some(RequestView::CtxSynchronize),
            Stage::Finished(_) => None,
        }
    }

    /// A dispatch of `func` that is yet to be submitted.
    pub(crate) fn new(func: u64, grid: [u32; 3], block: [u32; 3], shared_mem: u32, args: &[u64]) -> (run:
        Launch)
        ensures
            run.stage() == Stage::Submit,
            run.call() == launch_call(func, grid@, block@, shared_mem, args@),
    {
        Launch { stage: Stage::Submit, func, grid, block, shared_mem, args: slice_to_vec(args) }
    }

    /// The driver call that is due; none once the dispatch has ended.
    pub fn request(&self) -> (request: Option<Request>)
        ensures
            match request {
                Some(r) => self.pending() == Some(r@),
                None => self.pending() is None,
            },
            request is None <==> self.stage().outcome() is Some,
    {
        match self.stage {
            Stage::Submit => Some(
                Request::LaunchKernel {
                    func: self.func,
                    grid: self.grid,
                    block: self.block,
                    shared_mem: self.shared_mem,
                    stream: 0,
                    args: slice_to_vec(self.args.as_slice()),
                },
            ),
            Stage::Synchronize => Some(Request::CtxSynchronize),
            Stage::Finished(_) => None,
        }
    }

    /// The dispatch after the driver answered the call that was due with
    /// `reply`. A dispatch that has ended stays as it is.
    pub fn reply(self, reply: Reply) -> (next: Launch)
        ensures
            next.stage() == self.stage().after(reply.status),
            next.call() == self.call(),
    {
        Launch {
            stage: self.stage.advance(reply.status),
            func: self.func,
            grid: self.grid,
            block: self.block,
            shared_mem: self.shared_mem,
            args: self.args,
        }
    }

    /// How the dispatch ended; none while a driver call is due.
    pub fn result(&self) -> (r: Option<Result<(), CudaError>>)
        ensures
            r == self.stage().outcome(),
    {
        self.stage.result()
    }
}

/// What a simple launch works on: the function, the host addresses of the
/// input and the output region, and the number of input elements.
#[derive(Clone, Copy, Debug, PartialEq, Eq)]
pub struct SimplePlan {
    pub func: u64,
    pub source: u64,
    pub destination: u64,
    pub count: usize,
}

/// Where a simple launch stands.
#[derive(Clone, Copy, Debug, PartialEq, Eq)]
pub enum Step {
    /// The device address of the input region is to be asked for.
    Source,
    /// The input region is at the device address `src`; that of the output
    /// region is to be asked for.
    Destination { src: u64 },
    /// Both device addresses are known, and the dispatch is at `stage`.
    Dispatch { src: u64, dst: u64, stage: Stage },
    /// A query for a device address failed.
    Failed { error: CudaError },
}

impl Step {
    /// The step after the driver answered the call of this step with `reply`.
    pub open spec fn after(self, reply: Reply) -> Step {
        match self {
            Step::Source => if reply.status == CUDA_SUCCESS {
                Step::Destination { src: reply.value }
            } else {
                Step::Failed { error: CudaError::Other(reply.status) }
            },
            Step::Destination { src } => if reply.status == CUDA_SUCCESS {
                Step::Dispatch { src, dst: reply.value, stage: Stage::Submit }
            } else {
                Step::Failed { error: CudaError::Other(reply.status) }
            },
            Step::Dispatch { src, dst, stage } => Step::Dispatch {
                src,
                dst,
                stage: stage.after(reply.status),
            },
            Step::Failed { error } => Step::Failed { error },
        }
    }

    /// How the launch ended, once it has.
    pub open spec fn outcome(self) -> Option<Result<(), CudaError>> {
        match self {
            Step::Dispatch { stage, .. } => stage.outcome(),
            Step::Failed { error } => Some(Err(error)),
            _ => None,
        }
    }

    /// Moves on by the driver's answer to the call of this step.
    pub fn advance(self, reply: Reply) -> (next: Step)
        ensures
            next == self.after(reply),
    {
        match self {
            Step::Source => {
                if reply.status == CUDA_SUCCESS {
                    Step::Destination { src: reply.value }
                } else {
                    Step::Failed { error: CudaError::Other(reply.status) }
                }
            },
            Step::Destination { src } => {
                if reply.status == CUDA_SUCCESS {
                    Step::Dispatch { src, dst: reply.value, stage: Stage::Submit }
                } else {
                    Step::Failed { error: CudaError::Other(reply.status) }
                }
            },
            Step::Dispatch { src, dst, stage } => Step::Dispatch {
                src,
                dst,
                stage: stage.advance(reply.status),
            },
            Step::Failed { error } => Step::Failed { error },
        }
    }

    /// How the launch ended, once it has.
    pub fn result(self) -> (r: Option<Result<(), CudaError>>)
        ensures
            r == self.outcome(),
    {
        match self {
            Step::Dispatch { stage, .. } => stage.result(),
            Step::Failed { error } => Some(Err(error)),
            _ => None,
        }
    }
}

/// How a simple launch ends whose four driver calls, as far as they were
/// made, were answered with these statuses: the first that is not success is
/// its error.
pub open spec fn simple_outcome(
    source: CUresult,
    destination: CUresult,
    submitted: CUresult,
    synchronized: CUresult,
) -> Result<(), CudaError> {
    if source != CUDA_SUCCESS {
        Err(CudaError::Other(source))
    } else if destination != CUDA_SUCCESS {
        Err(CudaError::Other(destination))
    } else {
        launch_outcome(submitted, synchronized)
    }
}

/// A simple launch has ended once four replies were taken, with the first
/// status that is not success as its error, and it has ended already at the
/// first such status. It succeeds exactly if all four are success. The
/// dispatch is submitted with the device addresses from the first two replies.
pub proof fn lemma_simple_outcome(source: Reply, destination: Reply, submitted: Reply, synchronized: Reply)
    ensures
        Step::Source.after(source).after(destination).after(submitted).after(synchronized).outcome()
            == Some(
            simple_outcome(
                source.status,
                destination.status,
                submitted.status,
                synchronized.status,
            ),
        ),
        source.status != CUDA_SUCCESS ==> Step::Source.after(source).outcome() is Some,
        source.status == CUDA_SUCCESS && destination.status != CUDA_SUCCESS ==> Step::Source.after(
            source,
        ).after(destination).outcome() is Some,
        source.status == CUDA_SUCCESS && destination.status == CUDA_SUCCESS ==> Step::Source.after(
            source,
        ).after(destination) == (Step::Dispatch {
            src: source.value,
            dst: destination.value,
            stage: Stage::Submit,
        }),
        simple_outcome(source.status, destination.status, submitted.status, synchronized.status)
            is Ok <==> source.status == CUDA_SUCCESS && destination.status == CUDA_SUCCESS
            && submitted.status == CUDA_SUCCESS && synchronized.status == CUDA_SUCCESS,
{
}

/// A launch that has ended is not changed by a further reply.
pub proof fn lemma_ended_stays(step: Step, reply: Reply)
    requires
        step.outcome() is Some,
    ensures
        step.after(reply) == step,
{
}

impl SimplePlan {
    /// The number of blocks: one for each full batch of input elements, cut to
    /// the 32 bits of a grid dimension.
    pub open spec fn blocks(self) -> u32 {
        (self.count / (BATCH as usize)) as u32
    }

    /// The driver call that dispatches the function over the two regions at
    /// the device addresses `src` and `dst`.
    pub open spec fn call(self, src: u64, dst: u64) -> RequestView {
        launch_call(
            self.func,
            seq![self.blocks(), 1u32, 1u32],
            seq![BATCH, 1u32, 1u32],
            0,
            seq![src, dst],
        )
    }

    /// The driver call that is due at `step`, if any.
    pub open spec fn pending(self, step: Step) -> Option<RequestView> {
        match step {
            Step::Source => Some(
                RequestView::MemHostGetDevicePointer { host: self.source, flags: 0 },
            ),
            Step::Destination { .. } => Some(
                RequestView::MemHostGetDevicePointer { host: self.destination, flags: 0 },
            ),
            Step::Dispatch { src, dst, stage } => match stage {
                Stage::Submit => Some(self.call(src, dst)),
                Stage::Synchronize => Some(RequestView::CtxSynchronize),
                Stage::Finished(_) => None,
            },
            Step::Failed { .. } => None,
        }
    }
}

/// A simple launch in progress: the two queries for the device addresses,
/// then the dispatch.
pub struct SimpleLaunch {
    plan: SimplePlan,
    step: Step,
}

impl SimpleLaunch {
    /// What the launch works on.
    pub closed spec fn spec_plan(&self) -> SimplePlan {
        self.plan
    }

    /// Where the launch stands.
    pub closed spec fn spec_step(&self) -> Step {
        self.step
    }

    /// What the launch works on.
    #[verifier::when_used_as_spec(spec_plan)]
    pub fn plan(&self) -> (plan: SimplePlan)
        ensures
            plan == self.spec_plan(),
    {
        self.plan
    }

    /// Where the launch stands.
    #[verifier::when_used_as_spec(spec_step)]
    pub fn step(&self) -> (step: Step)
        ensures
            step == self.spec_step(),
    {
        self.step
    }

    /// A simple launch on `plan` that has made no driver call yet.
    pub fn new(plan: SimplePlan) -> (run: SimpleLaunch)
        ensures
            run.plan() == plan,
            run.step() == Step::Source,
    {
        SimpleLaunch { plan, step: Step::Source }
    }

    /// The driver call that is due; none once the launch has ended.
    pub fn request(&self) -> (request: Option<Request>)
        ensures
            match request {
                Some(r) => self.plan().pending(self.step()) == Some(r@),
                None => self.plan().pending(self.step()) is None,
            },
            request is None <==> self.step().outcome() is Some,
    {
        match self.step {
            Step::Source => Some(
                Request::MemHostGetDevicePointer { host: self.plan.source, flags: 0 },
            ),
            Step::Destination { .. } => Some(
                Request::MemHostGetDevicePointer { host: self.plan.destination, flags: 0 },
            ),
            Step::Dispatch { src, dst, stage } => match stage {
                Stage::Submit => {
                    let blocks: u32 = #[verifier::truncate]
                    ((self.plan.count / (BATCH as usize)) as u32);
                    let grid: [u32; 3] = [blocks, 1, 1];
                    let block: [u32; 3] = [BATCH, 1, 1];
                    let mut args: Vec<u64> = Vec::new();
                    args.push(src);
                    args.push(dst);
                    assert(args@ =~= seq![src, dst]);
                    Some(
                        Request::LaunchKernel {
                            func: self.plan.func,
                            grid,
                            block,
                            shared_mem: 0,
                            stream: 0,
                            args,
                        },
                    )
                },
                Stage::Synchronize => Some(Request::CtxSynchronize),
                Stage::Finished(_) => None,
            },
            Step::Failed { .. } => None,
        }
    }

    /// The launch after the driver answered the call that was due with
    /// `reply`. A launch that has ended stays as it is.
    pub fn reply(self, reply: Reply) -> (next: SimpleLaunch)
        ensures
            next.step() == self.step().after(reply),
            next.plan() == self.plan(),
    {
        SimpleLaunch { plan: self.plan, step: self.step.advance(reply) }
    }

    /// How the launch ended; none while a driver call is due.
    pub fn result(&self) -> (r: Option<Result<(), CudaError>>)
        ensures
            r == self.step().outcome(),
    {
        self.step.result()
    }

    /// Ends the launch on its output buffer. `region` is what the first slots
    /// of the output region hold now, one element for each element of the
    /// input. After success the buffer holds exactly `region`, and so has the
    /// length of the input; after an error it is left as it was.
    pub fn finish<T: Copy>(self, data_out: &mut Buffer<T>, region: &[T]) -> (r: Result<
        (),
        CudaError,
    >)
        requires
            self.step().outcome() is Some,
            old(data_out).wf(),
            old(data_out).spec_host_ptr() == self.plan().destination,
            region@.len() == self.plan().count,
            self.plan().count <= old(data_out).spec_capacity(),
        ensures
            Some(r) == self.step().outcome(),
            final(data_out).wf(),
            r is Ok ==> {
                &&& final(data_out)@ == region@
                &&& final(data_out).spec_len() == self.plan().count
                &&& final(data_out).memory() == overlay(old(data_out).memory(), 0, region@)
                &&& final(data_out).same_region(old(data_out))
            },
            r is Err ==> *final(data_out) == *old(data_out),
    {
        let r = self.step.result().unwrap();
        if r.is_ok() {
            data_out.receive(region);
            data_out.set_len(self.plan.count);
        }
        r
    }
}

} // verus!

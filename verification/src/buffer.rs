//! A fixed-capacity buffer of page-locked host memory.
//!
//! A buffer stands for one region that the driver allocated: it knows the
//! host address and the capacity of the region, which never change, and it
//! holds what has been put into the slots of the region. Slots at or beyond
//! its length may still hold values that were written earlier; they are not
//! part of its view. The code at the boundary with the device writes the
//! elements through to the region, and hands what the device wrote there to
//! [`Buffer::receive`].

use vstd::math::min;
use vstd::prelude::*;
use vstd::slice::slice_subrange;
use vstd::std_specs::iter::IteratorSpec;
use crate::driver::{Reply, Request, RequestView, CUDA_SUCCESS, CU_MEMHOSTALLOC_DEVICEMAP};
use crate::error::CudaError;

verus! {

/// The written part of a region after `values` were stored in it from slot
/// `at` on: the slots `at`, `at + 1`, ... hold `values`, every other slot keeps
/// what it held.
pub open spec fn overlay<T>(memory: Seq<T>, at: int, values: Seq<T>) -> Seq<T>
    recommends
        0 <= at <= memory.len(),
{
    Seq::new(
        if memory.len() >= at + values.len() {
            memory.len()
        } else {
            (at + values.len()) as nat
        },
        |i: int|
            if at <= i < at + values.len() {
                values[i - at]
            } else {
                memory[i]
            },
    )
}

/// A block of `capacity()` element slots in page-locked host memory that the
/// device can address too.
///
/// The view of a buffer is the sequence of its first `len()` elements.
pub struct Buffer<T: Copy> {
    host: u64,
    slots: Vec<T>,
    len: usize,
    cap: usize,
}

impl<T: Copy> View for Buffer<T> {
    type V = Seq<T>;

    closed spec fn view(&self) -> Seq<T> {
        self.slots@.take(min(self.len as int, self.slots@.len() as int))
    }
}

/// Stores `value` in slot `at`, which is the first unwritten slot or one before it.
fn store<T: Copy>(slots: &mut Vec<T>, at: usize, value: T)
    requires
        at <= old(slots)@.len(),
    ensures
        final(slots)@ == overlay(old(slots)@, at as int, seq![value]),
{
    if at < slots.len() {
        slots[at] = value;
    } else {
        slots.push(value);
    }
}

impl<T: Copy> Buffer<T> {
    /// The number of element slots of the region.
    pub closed spec fn spec_capacity(&self) -> usize {
        self.cap
    }

    /// The number of elements in the buffer.
    pub closed spec fn spec_len(&self) -> usize {
        self.len
    }

    /// The host address of the region.
    pub closed spec fn spec_host_ptr(&self) -> u64 {
        self.host
    }

    /// What the written slots of the region hold, from the first slot on. The
    /// view is a prefix of it; what follows the prefix is stale.
    pub closed spec fn memory(&self) -> Seq<T> {
        self.slots@
    }

    /// The buffer is well formed: its elements are the first `len()` of the
    /// written slots, and no more slots are written than the region has.
    pub open spec fn wf(&self) -> bool {
        &&& self.spec_len() <= self.memory().len() <= self.spec_capacity()
        &&& self@ == self.memory().take(self.spec_len() as int)
    }

    /// The region is the same: same host address, same capacity.
    pub open spec fn same_region(&self, other: &Buffer<T>) -> bool {
        &&& self.spec_host_ptr() == other.spec_host_ptr()
        &&& self.spec_capacity() == other.spec_capacity()
    }

    /// The driver call that allocates the region for a buffer of `count` elements.
    pub fn with_capacity_request(count: usize) -> (request: Request)
        requires
            count * vstd::layout::size_of::<T>() <= usize::MAX,
        ensures
            request@ == (RequestView::MemHostAlloc {
                bytes: (count * vstd::layout::size_of::<T>()) as usize,
                flags: CU_MEMHOSTALLOC_DEVICEMAP,
            }),
    {
        Request::MemHostAlloc {
            bytes: count * core::mem::size_of::<T>(),
            flags: CU_MEMHOSTALLOC_DEVICEMAP,
        }
    }

    /// Makes the buffer of `count` elements from the driver's reply to the
    /// allocation. On success the buffer is empty and owns the region at the
    /// address that the driver returned; any other status is the error.
    pub fn with_capacity(count: usize, reply: Reply) -> (r: Result<Buffer<T>, CudaError>)
        requires
            reply.status == CUDA_SUCCESS ==> reply.value != 0,
        ensures
            match r {
                Ok(buffer) => {
                    &&& reply.status == CUDA_SUCCESS
                    &&& buffer.wf()
                    &&& buffer@ == Seq::<T>::empty()
                    &&& buffer.memory() == Seq::<T>::empty()
                    &&& buffer.spec_len() == 0
                    &&& buffer.spec_capacity() == count
                    &&& buffer.spec_host_ptr() == reply.value
                },
                Err(e) => reply.status != CUDA_SUCCESS && e == CudaError::Other(reply.status),
            },
    {
        if reply.status != CUDA_SUCCESS {
            return Err(CudaError::Other(reply.status));
        }
        Ok(Buffer { host: reply.value, slots: Vec::new(), len: 0, cap: count })
    }

    /// Appends `t`. The buffer must not be full.
    pub fn push(&mut self, t: T)
        requires
            old(self).wf(),
            old(self).spec_len() < old(self).spec_capacity(),
        ensures
            final(self).wf(),
            final(self)@ == old(self)@.push(t),
            final(self).spec_len() == old(self).spec_len() + 1,
            final(self).memory() == overlay(old(self).memory(), old(self).spec_len() as int, seq![t]),
            final(self).same_region(old(self)),
    {
        store(&mut self.slots, self.len, t);
        self.len = self.len + 1;
    }

    /// The driver call that asks for the device address of the region.
    pub fn dev_ptr_request(&self) -> (request: Request)
        ensures
            request@ == (RequestView::MemHostGetDevicePointer {
                host: self.spec_host_ptr(),
                flags: 0,
            }),
    {
        Request::MemHostGetDevicePointer { host: self.host, flags: 0 }
    }

    /// The device address of the region, from the driver's reply to the query
    /// for it; any status but success is the error.
    pub fn dev_ptr(&self, reply: Reply) -> (r: Result<u64, CudaError>)
        ensures
            r == (if reply.status == CUDA_SUCCESS {
                Ok::<u64, CudaError>(reply.value)
            } else {
                Err::<u64, CudaError>(CudaError::Other(reply.status))
            }),
    {
        if reply.status != CUDA_SUCCESS {
            return Err(CudaError::Other(reply.status));
        }
        Ok(reply.value)
    }

    /// The number of elements in the buffer.
    #[verifier::when_used_as_spec(spec_len)]
    pub fn len(&self) -> (n: usize)
        ensures
            n == self.spec_len(),
            self.wf() ==> n == self@.len(),
    {
        self.len
    }

    /// The number of element slots, fixed when the buffer was created.
    #[verifier::when_used_as_spec(spec_capacity)]
    pub fn capacity(&self) -> (n: usize)
        ensures
            n == self.spec_capacity(),
    {
        self.cap
    }

    /// The number of slots, from the first on, that have been written.
    pub fn initialized(&self) -> (n: usize)
        ensures
            n == self.memory().len(),
    {
        self.slots.len()
    }

    /// The host address of the region, for the boundary with the device.
    #[verifier::when_used_as_spec(spec_host_ptr)]
    pub fn host_ptr(&self) -> (host: u64)
        ensures
            host == self.spec_host_ptr(),
    {
        self.host
    }

    /// Appends the items that `items` yields, in order, until the buffer is
    /// full or `items` is exhausted; what `items` would yield after that is
    /// ignored. The result is stated for a source that yields a finite
    /// sequence and then ends, as the iterators of the standard collections do.
    pub fn extend<I: Iterator<Item = T>>(&mut self, items: I)
        requires
            old(self).wf(),
        ensures
            final(self).wf(),
            final(self).same_region(old(self)),
            old(self).spec_len() <= final(self).spec_len() <= old(self).spec_capacity(),
            final(self)@.take(old(self).spec_len() as int) == old(self)@,
            items.obeys_prophetic_iter_laws() ==> {
                let taken = items.remaining().take(
                    min(
                        items.remaining().len() as int,
                        old(self).spec_capacity() - old(self).spec_len(),
                    ),
                );
                &&& final(self)@ == old(self)@ + taken
                &&& final(self).spec_len() == old(self).spec_len() + taken.len()
                &&& final(self).memory() == overlay(
                    old(self).memory(),
                    old(self).spec_len() as int,
                    taken,
                )
            },
    {
        let mut items = items;
        let ghost all = items.remaining();
        let ghost laws = items.obeys_prophetic_iter_laws();
        let ghost mut written: Seq<T> = Seq::empty();
        while self.len < self.cap
            invariant
                self.wf(),
                self.same_region(old(self)),
                self.spec_len() == old(self).spec_len() + written.len(),
                self@ == old(self)@ + written,
                self.memory() == overlay(old(self).memory(), old(self).spec_len() as int, written),
                laws == items.obeys_prophetic_iter_laws(),
                laws ==> written.len() <= all.len(),
                laws ==> written == all.take(written.len() as int),
                laws ==> items.remaining() == all.skip(written.len() as int),
            ensures
                self.wf(),
                self.same_region(old(self)),
                self.spec_len() == old(self).spec_len() + written.len(),
                self@ == old(self)@ + written,
                self.memory() == overlay(old(self).memory(), old(self).spec_len() as int, written),
                laws ==> written.len() <= all.len(),
                laws ==> written == all.take(written.len() as int),
                laws && self.spec_len() < self.spec_capacity() ==> written.len() == all.len(),
            decreases self.spec_capacity() - self.spec_len(),
        {
            match items.next() {
                Some(t) => {
                    self.push(t);
                    proof {
                        written = written.push(t);
                    }
                },
                None => {
                    break;
                },
            }
        }
    }

    /// Shortens the buffer to `len` elements if it holds more; what the slots
    /// hold is left as it is.
    pub fn truncate(&mut self, len: usize)
        requires
            old(self).wf(),
        ensures
            final(self).wf(),
            len < old(self).spec_len() ==> final(self)@ == old(self)@.take(len as int)
                && final(self).spec_len() == len,
            len >= old(self).spec_len() ==> final(self)@ == old(self)@ && final(self).spec_len()
                == old(self).spec_len(),
            final(self).memory() == old(self).memory(),
            final(self).same_region(old(self)),
    {
        if len < self.len {
            self.len = len;
        }
    }

    /// Writes `val` into every slot of the region; the buffer is then full.
    pub fn set(&mut self, val: T)
        requires
            old(self).wf(),
        ensures
            final(self).wf(),
            final(self)@ == Seq::new(old(self).spec_capacity() as nat, |i: int| val),
            final(self).spec_len() == old(self).spec_capacity(),
            final(self).memory() == final(self)@,
            final(self).same_region(old(self)),
    {
        let mut i: usize = 0;
        while i < self.cap
            invariant
                i <= self.cap,
                self.cap == old(self).cap,
                self.host == old(self).host,
                self.slots@.len() <= self.cap,
                i <= self.slots@.len(),
                forall|j: int| 0 <= j < i ==> self.slots@[j] == val,
            decreases self.cap - i,
        {
            store(&mut self.slots, i, val);
            i = i + 1;
        }
        self.len = self.cap;
    }

    /// Sets the length to `len`. The first `len` slots must have been written,
    /// so `len` cannot exceed the capacity.
    pub fn set_len(&mut self, len: usize)
        requires
            old(self).wf(),
            len <= old(self).memory().len(),
        ensures
            final(self).wf(),
            final(self)@ == old(self).memory().take(len as int),
            final(self).spec_len() == len,
            final(self).memory() == old(self).memory(),
            final(self).same_region(old(self)),
    {
        self.len = len;
    }

    /// Takes over what the device has written: the first slots of the region
    /// now hold `region`. The length is unchanged.
    pub fn receive(&mut self, region: &[T])
        requires
            old(self).wf(),
            region@.len() <= old(self).spec_capacity(),
        ensures
            final(self).wf(),
            final(self).memory() == overlay(old(self).memory(), 0, region@),
            final(self).spec_len() == old(self).spec_len(),
            final(self).same_region(old(self)),
    {
        let mut i: usize = 0;
        while i < region.len()
            invariant
                i <= region@.len() <= self.cap,
                self.cap == old(self).cap,
                self.host == old(self).host,
                self.len == old(self).len,
                old(self).slots@.len() <= self.cap,
                self.slots@ == overlay(old(self).slots@, 0, region@.take(i as int)),
            decreases region@.len() - i,
        {
            store(&mut self.slots, i, region[i]);
            i = i + 1;
        }
    }

    /// Gives the buffer up: the driver call that releases its region.
    pub fn release(self) -> (request: Request)
        ensures
            request@ == (RequestView::MemFreeHost { host: self.spec_host_ptr() }),
    {
        Request::MemFreeHost { host: self.host }
    }
}

impl<T: Copy> core::ops::Deref for Buffer<T> {
    type Target = [T];

    /// The elements of the buffer as a slice.
    fn deref(&self) -> (s: &[T])
        ensures
            s@ == self@,
    {
        let slots = self.slots.as_slice();
        if self.len <= slots.len() {
            slice_subrange(slots, 0, self.len)
        } else {
            slots
        }
    }
}

impl<T: Copy> core::ops::DerefMut for Buffer<T> {
    /// The elements of the buffer as a mutable slice. What is written through
    /// it is written to the buffer; nothing else changes.
    fn deref_mut(&mut self) -> (s: &mut [T])
        ensures
            s@ == old(self)@,
            final(s)@.len() == s@.len() ==> {
                &&& final(self)@ == final(s)@
                &&& final(self).memory() == final(s)@ + old(self).memory().skip(s@.len() as int)
                &&& final(self).spec_len() == old(self).spec_len()
                &&& final(self).same_region(old(self))
                &&& old(self).wf() ==> final(self).wf()
            },
    {
        let n: usize = if self.len <= self.slots.len() {
            self.len
        } else {
            self.slots.len()
        };
        let (head, _tail) = self.slots.as_mut_slice().split_at_mut(n);
        head
    }
}

} // verus!

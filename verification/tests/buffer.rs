use cuda_host::{Buffer, CudaError, Reply, Request, CUDA_SUCCESS, CU_MEMHOSTALLOC_DEVICEMAP};

fn allocated<T: Copy>(count: usize, host: u64) -> Buffer<T> {
    match Buffer::with_capacity(count, Reply { status: CUDA_SUCCESS, value: host }) {
        Ok(buffer) => buffer,
        Err(e) => panic!("allocation failed: {:?}", e),
    }
}

#[test]
fn allocation_request_asks_for_the_byte_size() {
    assert_eq!(
        Buffer::<u32>::with_capacity_request(1024),
        Request::MemHostAlloc { bytes: 4096, flags: CU_MEMHOSTALLOC_DEVICEMAP }
    );
    assert_eq!(
        Buffer::<u8>::with_capacity_request(7),
        Request::MemHostAlloc { bytes: 7, flags: 2 }
    );
    assert_eq!(
        Buffer::<u64>::with_capacity_request(0),
        Request::MemHostAlloc { bytes: 0, flags: 2 }
    );
}

#[test]
fn allocated_buffer_is_empty_with_the_capacity_asked_for() {
    for count in [1usize, 2, 512, 1024, 4097] {
        let buffer: Buffer<u32> = allocated(count, 0x7f00_0000_1000);
        assert_eq!(buffer.len(), 0);
        assert_eq!(buffer.capacity(), count);
        assert_eq!(buffer.initialized(), 0);
        assert_eq!(buffer.host_ptr(), 0x7f00_0000_1000);
        assert!(buffer.is_empty());
    }
}

#[test]
fn allocation_failure_is_the_driver_error() {
    let r = Buffer::<u32>::with_capacity(16, Reply { status: 2, value: 0 });
    assert_eq!(r.err(), Some(CudaError::Other(2)));
    let r = Buffer::<u32>::with_capacity(16, Reply { status: 999, value: 0x1000 });
    assert_eq!(r.err(), Some(CudaError::Other(999)));
}

#[test]
fn push_appends_one_element() {
    let mut buffer: Buffer<u32> = allocated(3, 0x1000);
    buffer.push(11);
    assert_eq!(buffer.len(), 1);
    assert_eq!(buffer.last(), Some(&11));
    buffer.push(22);
    assert_eq!(buffer.len(), 2);
    assert_eq!(buffer.last(), Some(&22));
    buffer.push(33);
    assert_eq!(buffer.len(), 3);
    assert_eq!(&buffer[..], &[11, 22, 33]);
    assert_eq!(buffer.capacity(), 3);
}

#[test]
fn extend_stops_silently_at_capacity() {
    let mut buffer: Buffer<u32> = allocated(5, 0x1000);
    buffer.push(1);
    buffer.push(2);
    buffer.extend(vec![10, 20, 30, 40, 50, 60].into_iter());
    assert_eq!(buffer.len(), 5);
    assert_eq!(&buffer[..], &[1, 2, 10, 20, 30]);
    assert_eq!(buffer.initialized(), 5);
    buffer.extend(vec![70, 80].into_iter());
    assert_eq!(&buffer[..], &[1, 2, 10, 20, 30]);
}

#[test]
fn extend_takes_everything_that_fits() {
    let mut buffer: Buffer<u8> = allocated(8, 0x1000);
    buffer.extend(vec![1u8, 2, 3].into_iter());
    assert_eq!(&buffer[..], &[1, 2, 3]);
    buffer.extend(std::iter::empty());
    assert_eq!(&buffer[..], &[1, 2, 3]);
    buffer.extend(4u8..=8);
    assert_eq!(&buffer[..], &[1, 2, 3, 4, 5, 6, 7, 8]);
    assert_eq!(buffer.len(), buffer.capacity());
}

#[test]
fn extend_from_an_endless_source_fills_the_buffer() {
    let mut buffer: Buffer<u16> = allocated(4, 0x1000);
    buffer.extend(std::iter::repeat(9u16));
    assert_eq!(&buffer[..], &[9, 9, 9, 9]);
}

#[test]
fn set_fills_every_slot() {
    let mut buffer: Buffer<u32> = allocated(6, 0x1000);
    buffer.set(7);
    assert_eq!(buffer.len(), 6);
    assert_eq!(&buffer[..], &[7, 7, 7, 7, 7, 7]);
    assert_eq!(buffer.initialized(), 6);
}

#[test]
fn set_overwrites_whatever_was_there() {
    let mut buffer: Buffer<u32> = allocated(4, 0x1000);
    buffer.push(1);
    buffer.push(2);
    buffer.push(3);
    buffer.truncate(1);
    buffer.set(5);
    assert_eq!(&buffer[..], &[5, 5, 5, 5]);
    buffer.truncate(0);
    buffer.set_len(4);
    assert_eq!(&buffer[..], &[5, 5, 5, 5]);
}

#[test]
fn set_on_a_buffer_without_slots_leaves_it_empty() {
    let mut buffer: Buffer<u32> = allocated(0, 0x1000);
    buffer.set(5);
    assert_eq!(buffer.len(), 0);
    buffer.extend(vec![1, 2].into_iter());
    assert_eq!(buffer.len(), 0);
}

#[test]
fn truncate_shortens_and_keeps_the_prefix() {
    let mut buffer: Buffer<u32> = allocated(8, 0x1000);
    buffer.extend(vec![1, 2, 3, 4, 5].into_iter());
    buffer.truncate(3);
    assert_eq!(buffer.len(), 3);
    assert_eq!(&buffer[..], &[1, 2, 3]);
    buffer.truncate(0);
    assert_eq!(buffer.len(), 0);
    assert_eq!(buffer.capacity(), 8);
}

#[test]
fn truncate_to_the_length_or_more_changes_nothing() {
    let mut buffer: Buffer<u32> = allocated(8, 0x1000);
    buffer.extend(vec![1, 2, 3].into_iter());
    buffer.truncate(3);
    assert_eq!(&buffer[..], &[1, 2, 3]);
    buffer.truncate(4);
    assert_eq!(&buffer[..], &[1, 2, 3]);
    buffer.truncate(usize::MAX);
    assert_eq!(&buffer[..], &[1, 2, 3]);
}

#[test]
fn truncate_leaves_the_slots_as_they_are() {
    let mut buffer: Buffer<u32> = allocated(8, 0x1000);
    buffer.extend(vec![1, 2, 3, 4].into_iter());
    buffer.truncate(1);
    assert_eq!(buffer.initialized(), 4);
    buffer.set_len(4);
    assert_eq!(&buffer[..], &[1, 2, 3, 4]);
}

#[test]
fn push_after_truncate_overwrites_one_stale_slot() {
    let mut buffer: Buffer<u32> = allocated(8, 0x1000);
    buffer.extend(vec![1, 2, 3, 4].into_iter());
    buffer.truncate(1);
    buffer.push(9);
    assert_eq!(&buffer[..], &[1, 9]);
    buffer.set_len(4);
    assert_eq!(&buffer[..], &[1, 9, 3, 4]);
}

#[test]
fn set_len_sets_the_length_directly() {
    let mut buffer: Buffer<u32> = allocated(4, 0x1000);
    buffer.set(3);
    buffer.set_len(2);
    assert_eq!(buffer.len(), 2);
    buffer.set_len(4);
    assert_eq!(buffer.len(), 4);
    buffer.set_len(0);
    assert!(buffer.is_empty());
}

#[test]
fn receive_takes_over_what_the_device_wrote() {
    let mut buffer: Buffer<u32> = allocated(4, 0x1000);
    buffer.receive(&[5, 6, 7]);
    assert_eq!(buffer.len(), 0);
    assert_eq!(buffer.initialized(), 3);
    buffer.set_len(3);
    assert_eq!(&buffer[..], &[5, 6, 7]);
    buffer.receive(&[8]);
    assert_eq!(&buffer[..], &[8, 6, 7]);
    buffer.receive(&[1, 2, 3, 4]);
    assert_eq!(&buffer[..], &[1, 2, 3]);
    buffer.set_len(4);
    assert_eq!(&buffer[..], &[1, 2, 3, 4]);
}

#[test]
fn the_mutable_view_writes_to_the_elements() {
    let mut buffer: Buffer<u32> = allocated(4, 0x1000);
    buffer.extend(vec![1, 2, 3].into_iter());
    buffer[1] = 20;
    assert_eq!(&buffer[..], &[1, 20, 3]);
    buffer[2] += 1;
    assert_eq!(&buffer[..], &[1, 20, 4]);
    for element in buffer.iter_mut() {
        *element *= 2;
    }
    assert_eq!(&buffer[..], &[2, 40, 8]);
    buffer.reverse();
    assert_eq!(&buffer[..], &[8, 40, 2]);
    assert_eq!(buffer.len(), 3);
    assert_eq!(buffer.capacity(), 4);
}

#[test]
fn the_mutable_view_ends_at_the_length() {
    let mut buffer: Buffer<u32> = allocated(4, 0x1000);
    buffer.set(1);
    buffer.truncate(2);
    {
        let view: &mut [u32] = &mut buffer;
        assert_eq!(view.len(), 2);
        view.fill(9);
    }
    assert_eq!(&buffer[..], &[9, 9]);
    buffer.set_len(4);
    assert_eq!(&buffer[..], &[9, 9, 1, 1]);
    buffer.truncate(0);
    let view: &mut [u32] = &mut buffer;
    assert!(view.is_empty());
}

#[test]
fn the_view_is_a_slice_of_the_first_elements() {
    let mut buffer: Buffer<u32> = allocated(4, 0x1000);
    buffer.extend(vec![4, 5, 6].into_iter());
    let total: u32 = buffer.iter().sum();
    assert_eq!(total, 15);
    assert_eq!(buffer.first(), Some(&4));
    assert_eq!(buffer.get(3), None);
    buffer.truncate(2);
    assert_eq!(buffer.to_vec(), vec![4, 5]);
}

#[test]
fn device_address_query_names_the_region() {
    let buffer: Buffer<u32> = allocated(4, 0xabc000);
    assert_eq!(
        buffer.dev_ptr_request(),
        Request::MemHostGetDevicePointer { host: 0xabc000, flags: 0 }
    );
}

#[test]
fn device_address_is_what_the_driver_answered() {
    let buffer: Buffer<u32> = allocated(4, 0xabc000);
    assert_eq!(buffer.dev_ptr(Reply { status: 0, value: 0xd000_0000 }), Ok(0xd000_0000));
    assert_eq!(buffer.dev_ptr(Reply { status: 0, value: 0 }), Ok(0));
}

#[test]
fn device_address_failure_is_the_driver_error() {
    let buffer: Buffer<u32> = allocated(4, 0xabc000);
    assert_eq!(buffer.dev_ptr(Reply { status: 1, value: 0xd000_0000 }), Err(CudaError::Other(1)));
    assert_eq!(buffer.dev_ptr(Reply { status: 201, value: 0 }), Err(CudaError::Other(201)));
}

#[test]
fn release_frees_the_region_of_the_buffer() {
    let mut buffer: Buffer<u32> = allocated(4, 0xabc000);
    buffer.push(1);
    assert_eq!(buffer.release(), Request::MemFreeHost { host: 0xabc000 });
}

struct Allocator {
    next: u64,
    live: Vec<u64>,
    allocations: usize,
    frees: usize,
}

impl Allocator {
    fn perform(&mut self, request: &Request) -> Reply {
        match request {
            Request::MemHostAlloc { .. } => {
                self.next += 0x1000;
                self.live.push(self.next);
                self.allocations += 1;
                Reply { status: CUDA_SUCCESS, value: self.next }
            }
            Request::MemFreeHost { host } => {
                let before = self.live.len();
                self.live.retain(|region| region != host);
                assert_eq!(self.live.len() + 1, before);
                self.frees += 1;
                Reply { status: CUDA_SUCCESS, value: 0 }
            }
            _ => Reply { status: 1, value: 0 },
        }
    }
}

#[test]
fn every_allocation_is_matched_by_one_release() {
    let mut driver = Allocator { next: 0, live: Vec::new(), allocations: 0, frees: 0 };
    let mut buffers: Vec<Buffer<u32>> = Vec::new();
    for count in [4usize, 8, 16] {
        let reply = driver.perform(&Buffer::<u32>::with_capacity_request(count));
        buffers.push(Buffer::with_capacity(count, reply).ok().unwrap());
    }
    assert_eq!(driver.allocations, 3);
    assert_eq!(driver.live, vec![0x1000, 0x2000, 0x3000]);
    buffers[0].push(1);
    buffers[1].set(2);
    buffers[2].extend(vec![1, 2, 3].into_iter());
    buffers[2].truncate(1);
    for buffer in buffers {
        let reply = driver.perform(&buffer.release());
        assert_eq!(reply.status, CUDA_SUCCESS);
    }
    assert_eq!(driver.allocations, 3);
    assert_eq!(driver.frees, 3);
    assert!(driver.live.is_empty());
}

use std::sync::Arc;

use vstd::prelude::*;

use crate::buf_mmap::BufMmap;
use crate::mmap_area::MmapArea;
use crate::util::{is_pow_of_two, min, power_of_two, spec_min};
use crate::AF_XDP_RESERVED;

verus! {

/// The headroom that is asked for in front of each packet (`XSK_UMEM__DEFAULT_FRAME_HEADROOM`).
pub const FRAME_HEADROOM: u32 = 0;

/// The Umem is a shared region of memory, backed by MMap, that is shared between userspace and the
/// NIC(s). Bufs (descriptors) represent packets stored in this area.
#[derive(Debug)]
pub struct Umem<'a, T: Default + Copy> {
    area: Arc<MmapArea<'a, T>>,
}

/// The completion queue is used by the kernel to signal to the application using AF_XDP that the
/// buffer has been transmitted and is free to be used again.
#[derive(Debug)]
pub struct UmemCompletionQueue<'a, T: Default + Copy> {
    umem: Arc<Umem<'a, T>>,
}

/// The fill queue is used to provide the AF_XDP socket (kernel) with buffers where it can write
/// incoming packets.
#[derive(Debug)]
pub struct UmemFillQueue<'a, T: Default + Copy> {
    umem: Arc<Umem<'a, T>>,
}

#[derive(Debug, PartialEq, Eq, Structural)]
pub enum UmemNewError {
    /// The kernel refused the umem. Holds what the create call returned.
    Create(i32),
    /// A ring size is not a power of two.
    RingNotPowerOfTwo,
}

#[derive(Debug, PartialEq, Eq, Structural)]
pub enum UmemError {
    Failed,
}

/// How a umem is set up.
#[derive(Debug, Clone, Copy)]
pub struct UmemConfig {
    pub fill_size: u32,
    pub comp_size: u32,
    pub frame_size: u32,
    pub frame_headroom: u32,
    pub flags: u32,
}

/// What the kernel is asked for when a umem is created: a configuration, and the size in bytes of the
/// memory that it covers.
#[derive(Debug, Clone, Copy)]
pub struct UmemRequest {
    pub config: UmemConfig,
    pub size: u64,
}

/// A transmitted frame that the kernel gives back: its address in the umem area, and the bytes there.
#[derive(Debug)]
pub struct CompletedFrame<'a> {
    pub addr: u64,
    pub data: &'a mut [u8],
}

/// `Vec::capacity`: how many elements the vector can hold before it has to allocate again, which is
/// never below its length. How far above is the allocator's choice.
#[verifier::external_body]
fn vec_capacity<E>(vec: &Vec<E>) -> (capacity: usize)
    ensures
        capacity >= vec@.len(),
{
    vec.capacity()
}

/// `capacity` is what asking the vector for its capacity gave.
pub closed spec fn capacity_reported<E>(vec: Vec<E>, capacity: usize) -> bool {
    call_ensures(vec_capacity::<E>, (&vec,), capacity)
}

/// No number counts as the capacity of a vector but what [`vec_capacity`] returned for that vector.
proof fn law_capacity_is_asked_for<E>(vec: Vec<E>, capacity: usize)
    ensures
        capacity_reported(vec, capacity) == call_ensures(vec_capacity::<E>, (&vec,), capacity),
        capacity_reported(vec, capacity) ==> capacity >= vec@.len(),
{
}

impl<'a, T: Default + Copy> Umem<'a, T> {
    /// The area that the umem shares with the NIC(s).
    pub closed spec fn area(&self) -> MmapArea<'a, T> {
        *self.area
    }

    /// What to ask the kernel for, to share `area`. Both ring sizes must be a power of two.
    pub fn create_request(
        area: &MmapArea<'a, T>,
        completion_ring_size: u32,
        fill_ring_size: u32,
    ) -> (r: Result<UmemRequest, UmemNewError>)
        ensures
            !(power_of_two(completion_ring_size as int) && power_of_two(fill_ring_size as int))
                ==> r == Err::<UmemRequest, UmemNewError>(UmemNewError::RingNotPowerOfTwo),
            power_of_two(completion_ring_size as int) && power_of_two(fill_ring_size as int) ==> r
                is Ok,
            r matches Ok(request) ==> {
                &&& request.config.fill_size == fill_ring_size
                &&& request.config.comp_size == completion_ring_size
                &&& request.config.frame_size == area.buf_len() as u32
                &&& request.config.frame_headroom == FRAME_HEADROOM
                &&& request.config.frame_headroom == 0
                &&& request.config.flags == 0
                &&& request.size == area.buf_num() * area.buf_len()
            },
    {
        if !is_pow_of_two(completion_ring_size) || !is_pow_of_two(fill_ring_size) {
            return Err(UmemNewError::RingNotPowerOfTwo);
        }
        let config = UmemConfig {
            fill_size: fill_ring_size,
            comp_size: completion_ring_size,
            frame_size: area.get_buf_len() as u32,
            frame_headroom: FRAME_HEADROOM,
            flags: 0,
        };
        Ok(UmemRequest { config, size: area.get_size() as u64 })
    }

    /// Create a new Umem using the passed memory mapped area.
    ///
    /// `ret` is what the kernel answered to [`Umem::create_request`]: zero if it made the umem. It is
    /// of no account if the ring sizes already rule the request out.
    pub fn new(
        area: Arc<MmapArea<'a, T>>,
        completion_ring_size: u32,
        fill_ring_size: u32,
        ret: i32,
    ) -> (r: Result<
        (Arc<Umem<'a, T>>, UmemCompletionQueue<'a, T>, UmemFillQueue<'a, T>),
        UmemNewError,
    >)
        ensures
            match r {
                Ok((umem, cq, fq)) => {
                    &&& power_of_two(completion_ring_size as int)
                    &&& power_of_two(fill_ring_size as int)
                    &&& ret == 0
                    &&& umem.area() == *area
                    &&& cq.umem() == *umem
                    &&& fq.umem() == *umem
                },
                Err(UmemNewError::RingNotPowerOfTwo) => !(power_of_two(completion_ring_size as int)
                    && power_of_two(fill_ring_size as int)),
                Err(UmemNewError::Create(code)) => {
                    &&& power_of_two(completion_ring_size as int)
                    &&& power_of_two(fill_ring_size as int)
                    &&& ret != 0
                    &&& code == ret
                },
            },
    {
        match Self::create_request(&area, completion_ring_size, fill_ring_size) {
            Ok(_) => {},
            Err(e) => return Err(e),
        }
        if ret != 0 {
            return Err(UmemNewError::Create(ret));
        }
        let umem = Arc::new(Umem { area });
        let cq = UmemCompletionQueue { umem: umem.clone() };
        let fq = UmemFillQueue { umem: umem.clone() };
        Ok((umem, cq, fq))
    }

    /// The number of bytes of a frame that are left for packet data.
    pub fn frame_len(&self) -> (len: usize)
        requires
            AF_XDP_RESERVED <= self.area().buf_len(),
        ensures
            len == self.area().buf_len() - AF_XDP_RESERVED,
    {
        self.area.get_buf_len() - AF_XDP_RESERVED as usize
    }
}

/// `buf` is what becomes of a completed frame: an empty buf over the same bytes, with an address
/// behind the reserved part.
pub open spec fn is_serviced<'a, T: Default + Copy>(
    frame: CompletedFrame<'a>,
    buf: BufMmap<'a, T>,
) -> bool {
    &&& buf.addr == frame.addr + AF_XDP_RESERVED
    &&& buf.len == 0
    &&& buf.data@ == frame.data@
    &&& call_ensures(T::default, (), buf.user)
}

/// The completed frames were appended to the bufs.
pub open spec fn frames_serviced<'a, T: Default + Copy>(
    before: Seq<BufMmap<'a, T>>,
    completed: Seq<CompletedFrame<'a>>,
    after: Seq<BufMmap<'a, T>>,
) -> bool {
    &&& after.len() == before.len() + completed.len()
    &&& after.take(before.len() as int) == before
    &&& forall|i: int|
        before.len() <= i < after.len() ==> is_serviced(
            completed[i - before.len()],
            #[trigger] after[i],
        )
}

/// The last `ready` of the bufs were taken, the last one first, for their addresses.
pub open spec fn bufs_filled<'a, T: Default + Copy>(
    before: Seq<BufMmap<'a, T>>,
    ready: int,
    addrs: Seq<u64>,
    after: Seq<BufMmap<'a, T>>,
) -> bool {
    &&& 0 <= ready <= before.len()
    &&& addrs == Seq::new(ready as nat, |i: int| before[before.len() - 1 - i].addr)
    &&& after == before.take(before.len() - ready)
}

/// How many frames to take from a completion queue: at most `batch_size`, and no more than a vector
/// of `len` bufs with the given capacity has room for.
pub fn service_quota(capacity: usize, len: usize, batch_size: usize) -> (quota: usize)
    requires
        len <= capacity,
    ensures
        quota == spec_min(capacity - len, batch_size as int),
        batch_size <= capacity - len ==> quota == batch_size,
        batch_size > capacity - len ==> quota == capacity - len,
{
    min(capacity - len, batch_size)
}

impl<'a, T: Default + Copy> UmemCompletionQueue<'a, T> {
    /// The umem that the queue belongs to.
    pub closed spec fn umem(&self) -> Umem<'a, T> {
        *self.umem
    }

    /// How many frames to ask the ring for: at most `batch_size`, and no more than `bufs` has room
    /// for without another allocation. The room is what the capacity of `bufs` leaves.
    pub fn quota(&self, bufs: &Vec<BufMmap<'a, T>>, batch_size: usize) -> (quota: usize)
        ensures
            exists|capacity: usize|
                bufs@.len() <= capacity && quota == #[trigger] spec_min(
                    capacity - bufs@.len(),
                    batch_size as int,
                ),
            exists|capacity: usize| #[trigger]
                capacity_reported(*bufs, capacity) && {
                    &&& capacity >= bufs@.len()
                    &&& batch_size <= capacity - bufs@.len() ==> quota == batch_size
                    &&& batch_size > capacity - bufs@.len() ==> quota == capacity - bufs@.len()
                },
    {
        let capacity = vec_capacity(bufs);
        proof {
            law_capacity_is_asked_for(*bufs, capacity);
        }
        service_quota(capacity, bufs.len(), batch_size)
    }

    /// The number of bytes of a completed frame that its buf covers.
    pub fn frame_len(&self) -> (len: usize)
        requires
            AF_XDP_RESERVED <= self.umem().area().buf_len(),
        ensures
            len == self.umem().area().buf_len() - AF_XDP_RESERVED,
    {
        self.umem.frame_len()
    }

    /// After packets have been transmitted, the buffer is returned via the completion queue. The
    /// service method processes the completion queue: it makes a buf for each of the frames that the
    /// ring gave back and appends it to `bufs`. Returns how many there were.
    ///
    /// `completed` are at most as many frames as [`UmemCompletionQueue::quota`] asks for, with
    /// [`UmemCompletionQueue::frame_len`] bytes each.
    pub fn service(
        &mut self,
        bufs: &mut Vec<BufMmap<'a, T>>,
        batch_size: usize,
        completed: Vec<CompletedFrame<'a>>,
    ) -> (r: Result<usize, UmemError>)
        requires
            completed@.len() <= batch_size,
            forall|i: int|
                0 <= i < completed@.len() ==> {
                    &&& (#[trigger] completed@[i]).addr + AF_XDP_RESERVED <= u64::MAX
                    &&& completed@[i].data@.len() == old(self).umem().area().buf_len()
                        - AF_XDP_RESERVED
                },
        ensures
            *final(self) == *old(self),
            r == Ok::<usize, UmemError>(completed@.len() as usize),
            frames_serviced(old(bufs)@, completed@, final(bufs)@),
            final(bufs)@.len() == old(bufs)@.len() + completed@.len(),
            forall|i: int|
                0 <= i < old(bufs)@.len() ==> #[trigger] final(bufs)@[i] == old(bufs)@[i],
            forall|i: int|
                old(bufs)@.len() <= i < final(bufs)@.len() ==> {
                    &&& (#[trigger] final(bufs)@[i]).addr == completed@[i - old(bufs)@.len()].addr
                        + AF_XDP_RESERVED
                    &&& final(bufs)@[i].len == 0
                    &&& final(bufs)@[i].data@ == completed@[i - old(bufs)@.len()].data@
                    &&& call_ensures(T::default, (), final(bufs)@[i].user)
                },
            forall|i: int|
                0 <= i < completed@.len() ==> (#[trigger] final(completed@[i].data))@ == final(
                    final(bufs)@[old(bufs)@.len() + i].data
                )@,
    {
        let ready = completed.len();
        let ghost frames = completed@;
        let ghost before = bufs@;
        for frame in it: completed
            invariant
                it.seq() == frames,
                forall|i: int|
                    0 <= i < frames.len() ==> (#[trigger] frames[i]).addr + AF_XDP_RESERVED
                        <= u64::MAX,
                bufs@.len() == before.len() + it.index(),
                bufs@.take(before.len() as int) == before,
                forall|i: int|
                    before.len() <= i < bufs@.len() ==> is_serviced(
                        frames[i - before.len()],
                        #[trigger] bufs@[i],
                    ),
                forall|i: int|
                    0 <= i < it.index() ==> (#[trigger] final(frames[i].data))@ == final(
                        bufs@[before.len() + i].data
                    )@,
        {
            let ghost pushed = bufs@;
            bufs.push(
                BufMmap {
                    addr: frame.addr + AF_XDP_RESERVED,
                    len: 0,
                    data: frame.data,
                    user: T::default(),
                },
            );
            proof {
                assert(bufs@.take(before.len() as int) == pushed.take(before.len() as int));
            }
        }
        proof {
            assert(forall|i: int|
                0 <= i < before.len() ==> #[trigger] bufs@[i] == bufs@.take(before.len() as int)[i]);
        }
        Ok(ready)
    }
}

impl<'a, T: Default + Copy> UmemFillQueue<'a, T> {
    /// The umem that the queue belongs to.
    pub closed spec fn umem(&self) -> Umem<'a, T> {
        *self.umem
    }

    /// How many slots to ask the ring for: one for each buf, but at most `batch_size`.
    pub fn quota(&self, bufs: &Vec<BufMmap<'a, T>>, batch_size: usize) -> (quota: usize)
        ensures
            quota == spec_min(bufs@.len() as int, batch_size as int),
            batch_size <= bufs@.len() ==> quota == batch_size,
            batch_size > bufs@.len() ==> quota == bufs@.len(),
    {
        min(bufs.len(), batch_size)
    }

    /// In order to receive packets, the link needs buffers to write the packets to. These buffers are
    /// sent from userspace to the kernel via the fill queue.
    ///
    /// Takes `ready` bufs from the end of `bufs`, one for each slot that the ring made ready, and
    /// returns the addresses to write to the slots, in the order of the slots.
    pub fn fill(
        &mut self,
        bufs: &mut Vec<BufMmap<'a, T>>,
        batch_size: usize,
        ready: usize,
    ) -> (r: Result<Vec<u64>, UmemError>)
        requires
            ready <= spec_min(old(bufs)@.len() as int, batch_size as int),
        ensures
            *final(self) == *old(self),
            r is Ok,
            r matches Ok(addrs) ==> bufs_filled(
                old(bufs)@,
                ready as int,
                addrs@,
                final(bufs)@,
            ),
            r matches Ok(addrs) ==> addrs@.len() == ready,
            r matches Ok(addrs) ==> forall|i: int|
                0 <= i < ready ==> #[trigger] addrs@[i] == old(bufs)@[old(bufs)@.len() - 1
                    - i].addr,
            final(bufs)@ == old(bufs)@.take(old(bufs)@.len() - ready),
    {
        let ghost before = bufs@;
        let mut addrs: Vec<u64> = Vec::with_capacity(ready);
        let mut i: usize = 0;
        while i < ready
            invariant
                i <= ready <= before.len(),
                bufs@ == before.take(before.len() - i),
                addrs@ == Seq::new(i as nat, |j: int| before[before.len() - 1 - j].addr),
            decreases ready - i,
        {
            let buf = bufs.pop().unwrap();
            addrs.push(buf.addr);
            i += 1;
        }
        Ok(addrs)
    }

    /// Identify if the kernel has to be woken up before it looks at the ring, given the flag that the
    /// ring shows.
    pub fn needs_wakeup(&self, flag: i32) -> (needed: bool)
        ensures
            needed == (flag != 0),
    {
        flag != 0
    }
}

/// The buffers that came back last are the first ones that the kernel gets again, and the others stay
/// as they are.
pub proof fn law_last_in_first_out<'a, T: Default + Copy>(
    bufs: Seq<BufMmap<'a, T>>,
    completed: Seq<CompletedFrame<'a>>,
    bufs_between: Seq<BufMmap<'a, T>>,
    ready: int,
    addrs: Seq<u64>,
    bufs_after: Seq<BufMmap<'a, T>>,
)
    requires
        frames_serviced(bufs, completed, bufs_between),
        bufs_filled(bufs_between, ready, addrs, bufs_after),
        ready <= completed.len(),
    ensures
        addrs.len() == ready,
        forall|i: int|
            0 <= i < ready ==> #[trigger] addrs[i] == completed[completed.len() - 1 - i].addr
                + AF_XDP_RESERVED,
        frames_serviced(bufs, completed.take(completed.len() - ready), bufs_after),
{
    let kept = completed.take(completed.len() - ready);
    assert(bufs_after.take(bufs.len() as int) == bufs_between.take(bufs.len() as int));
    assert forall|i: int| bufs.len() <= i < bufs_after.len() implies is_serviced(
        kept[i - bufs.len()],
        #[trigger] bufs_after[i],
    ) by {
        assert(bufs_after[i] == bufs_between[i]);
    }
}

/// Filling in two steps gives the kernel the same buffers, in the same order, as filling in one.
pub proof fn law_filling_in_steps<'a, T: Default + Copy>(
    bufs: Seq<BufMmap<'a, T>>,
    first: int,
    first_addrs: Seq<u64>,
    bufs_between: Seq<BufMmap<'a, T>>,
    second: int,
    second_addrs: Seq<u64>,
    bufs_after: Seq<BufMmap<'a, T>>,
)
    requires
        bufs_filled(bufs, first, first_addrs, bufs_between),
        bufs_filled(bufs_between, second, second_addrs, bufs_after),
    ensures
        bufs_filled(bufs, first + second, first_addrs + second_addrs, bufs_after),
{
    assert(first_addrs + second_addrs == Seq::new(
        (first + second) as nat,
        |i: int| bufs[bufs.len() - 1 - i].addr,
    ));
    assert(bufs_after == bufs.take(bufs.len() - (first + second)));
}

/// What servicing leaves of each completed frame: its bytes, behind the bufs that were there before.
/// Nothing is changed in those.
pub proof fn law_serviced_bufs<'a, T: Default + Copy>(
    bufs: Seq<BufMmap<'a, T>>,
    completed: Seq<CompletedFrame<'a>>,
    bufs_after: Seq<BufMmap<'a, T>>,
    i: int,
    k: int,
)
    requires
        frames_serviced(bufs, completed, bufs_after),
    ensures
        bufs_after.len() == bufs.len() + completed.len(),
        0 <= i < bufs.len() ==> bufs_after[i] == bufs[i],
        0 <= i < completed.len() ==> {
            &&& bufs_after[bufs.len() + i].addr == completed[i].addr + AF_XDP_RESERVED
            &&& bufs_after[bufs.len() + i].len == 0
            &&& bufs_after[bufs.len() + i].data@.len() == completed[i].data@.len()
            &&& 0 <= k < completed[i].data@.len() ==> bufs_after[bufs.len() + i].data@[k]
                == completed[i].data@[k]
            &&& call_ensures(T::default, (), bufs_after[bufs.len() + i].user)
        },
{
    if 0 <= i < bufs.len() {
        assert(bufs_after.take(bufs.len() as int)[i] == bufs[i]);
    }
    if 0 <= i < completed.len() {
        assert(is_serviced(completed[i], bufs_after[bufs.len() + i]));
    }
}

/// The kernel gets the address of each buf that is taken, whatever the buf holds. The bufs that are left
/// are those in front, as they were.
pub proof fn law_filled_addresses<'a, T: Default + Copy>(
    bufs: Seq<BufMmap<'a, T>>,
    ready: int,
    addrs: Seq<u64>,
    bufs_after: Seq<BufMmap<'a, T>>,
)
    requires
        bufs_filled(bufs, ready, addrs, bufs_after),
    ensures
        0 <= ready <= bufs.len(),
        addrs.len() == ready,
        forall|i: int| 0 <= i < ready ==> #[trigger] addrs[i] == bufs[bufs.len() - 1 - i].addr,
        bufs_after.len() == bufs.len() - ready,
        forall|i: int| 0 <= i < bufs.len() - ready ==> #[trigger] bufs_after[i] == bufs[i],
{
}

/// Bufs with distinct addresses give the kernel distinct addresses: no frame is handed over twice, and
/// none that is handed over is still at hand.
pub proof fn law_no_frame_is_filled_twice<'a, T: Default + Copy>(
    bufs: Seq<BufMmap<'a, T>>,
    ready: int,
    addrs: Seq<u64>,
    bufs_after: Seq<BufMmap<'a, T>>,
)
    requires
        bufs_filled(bufs, ready, addrs, bufs_after),
        forall|i: int, j: int|
            0 <= i < j < bufs.len() ==> (#[trigger] bufs[i]).addr != (#[trigger] bufs[j]).addr,
    ensures
        forall|i: int, j: int|
            0 <= i < j < addrs.len() ==> #[trigger] addrs[i] != #[trigger] addrs[j],
        forall|i: int, j: int|
            0 <= i < addrs.len() && 0 <= j < bufs_after.len() ==> #[trigger] addrs[i] != (
            #[trigger] bufs_after[j]).addr,
{
    law_filled_addresses(bufs, ready, addrs, bufs_after);
}

}

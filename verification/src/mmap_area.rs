use core::marker::PhantomData;
use std::sync::Arc;

use vstd::prelude::*;

use crate::buf_mmap::BufMmap;
use crate::frames::{frame_bytes, lemma_frame_bounds, split_frames};

verus! {

/// A mapped memory area used to move packets between the kernel and userspace.
///
/// The area records how its memory is divided: `buf_num` buffers of `buf_len` bytes each, one after
/// the other. The memory itself is handed out with the buffers.
#[derive(Debug)]
pub struct MmapArea<'a, T: Default + Copy> {
    phantom: PhantomData<&'a T>,
    buf_num: usize,
    buf_len: usize,
}

#[derive(Debug, PartialEq, Eq, Structural)]
pub enum MmapError {
    Failed,
}

/// Configuration options for MmapArea
#[derive(Debug)]
pub struct MmapAreaOptions {
    /// If set to true, the mmap call is passed MAP_HUGETLB
    pub huge_tlb: bool,
}

impl Default for MmapAreaOptions {
    fn default() -> (options: Self)
        ensures
            !options.huge_tlb,
    {
        MmapAreaOptions { huge_tlb: false }
    }
}

/// The numbers that the host's mmap gives to the protections and flags that an area is mapped with.
#[derive(Debug, Clone, Copy)]
pub struct MmapCodes {
    pub prot_read: i32,
    pub prot_write: i32,
    pub map_private: i32,
    pub map_anonymous: i32,
    pub map_hugetlb: i32,
}

/// The arguments of the mmap call that maps an area. The address is left to the kernel.
#[derive(Debug)]
pub struct MmapRequest {
    pub len: usize,
    pub prot: i32,
    pub flags: i32,
    pub fd: i32,
    pub offset: i64,
}

/// `request` maps `buf_num` buffers of `buf_len` bytes: private anonymous memory that can be read and
/// written, in huge pages if the options say so.
pub open spec fn is_mmap_request(
    request: MmapRequest,
    buf_num: usize,
    buf_len: usize,
    options: MmapAreaOptions,
    codes: MmapCodes,
) -> bool {
    &&& request.len == buf_num * buf_len
    &&& request.prot == codes.prot_read | codes.prot_write
    &&& request.flags == if options.huge_tlb {
        codes.map_private | codes.map_anonymous | codes.map_hugetlb
    } else {
        codes.map_private | codes.map_anonymous
    }
    &&& request.fd == -1
    &&& request.offset == 0
}

/// The numbers that Linux gives to the protections and flags. The flags for anonymous memory and for
/// huge pages have numbers of their own on mips; all other machines agree.
pub open spec fn linux_codes(codes: MmapCodes) -> bool {
    &&& codes.prot_read == 1
    &&& codes.prot_write == 2
    &&& codes.map_private == 2
    &&& {
        ||| codes.map_anonymous == 0x20 && codes.map_hugetlb == 0x40000
        ||| codes.map_anonymous == 0x800 && codes.map_hugetlb == 0x80000
    }
}

/// `codes` are numbers that reading the constants of this host gave.
pub closed spec fn read_from_host(codes: MmapCodes) -> bool {
    call_ensures(MmapCodes::host, (), codes)
}

/// No numbers count as read from the host but those that [`MmapCodes::host`] returned.
proof fn law_host_is_read(codes: MmapCodes)
    ensures
        read_from_host(codes) == call_ensures(MmapCodes::host, (), codes),
        read_from_host(codes) ==> linux_codes(codes),
{
}

impl MmapCodes {
    /// The constants `PROT_READ`, `PROT_WRITE`, `MAP_PRIVATE`, `MAP_ANONYMOUS` and `MAP_HUGETLB` of
    /// libc. Each Linux target of libc defines them with the numbers that [`linux_codes`] lists. Which
    /// of the two sets it is depends on the machine and is left open.
    /// Nothing is claimed of other systems, which have no AF_XDP.
    #[verifier::external_body]
    fn host() -> (codes: MmapCodes)
        ensures
            linux_codes(codes),
    {
        MmapCodes {
            prot_read: libc::PROT_READ,
            prot_write: libc::PROT_WRITE,
            map_private: libc::MAP_PRIVATE,
            map_anonymous: libc::MAP_ANONYMOUS,
            map_hugetlb: libc::MAP_HUGETLB,
        }
    }

    /// The arguments of the mmap call for `buf_num` buffers of `buf_len` bytes, on a host with these
    /// numbers.
    pub fn request(&self, buf_num: usize, buf_len: usize, options: &MmapAreaOptions) -> (request:
        MmapRequest)
        requires
            buf_num * buf_len <= usize::MAX,
        ensures
            is_mmap_request(request, buf_num, buf_len, *options, *self),
            request.len == buf_num * buf_len,
            request.prot == self.prot_read | self.prot_write,
            !options.huge_tlb ==> request.flags == self.map_private | self.map_anonymous,
            options.huge_tlb ==> request.flags == self.map_private | self.map_anonymous
                | self.map_hugetlb,
            request.fd == -1,
            request.offset == 0,
    {
        let mut flags: i32 = self.map_private | self.map_anonymous;
        if options.huge_tlb {
            flags = flags | self.map_hugetlb;
        }
        MmapRequest {
            len: buf_num * buf_len,
            prot: self.prot_read | self.prot_write,
            flags,
            fd: -1,
            offset: 0,
        }
    }
}

/// The arguments of the mmap call for `buf_num` buffers of `buf_len` bytes, on this host.
///
/// The memory can be read and written, is private and anonymous, and is in huge pages exactly if the
/// options say so. The numbers that say this are those of the host, whatever the size of the area.
pub fn mmap_request(buf_num: usize, buf_len: usize, options: &MmapAreaOptions) -> (request:
    MmapRequest)
    requires
        buf_num * buf_len <= usize::MAX,
    ensures
        exists|codes: MmapCodes|
            #[trigger] is_mmap_request(request, buf_num, buf_len, *options, codes) && linux_codes(
                codes,
            ),
        exists|codes: MmapCodes| #[trigger]
            read_from_host(codes) && {
                &&& linux_codes(codes)
                &&& request.prot == codes.prot_read | codes.prot_write
                &&& !options.huge_tlb ==> request.flags == codes.map_private | codes.map_anonymous
                &&& options.huge_tlb ==> request.flags == codes.map_private | codes.map_anonymous
                    | codes.map_hugetlb
            },
        request.len == buf_num * buf_len,
        request.prot == 3,
        request.fd == -1,
        request.offset == 0,
        request.flags & 2 == 2,
        request.flags & 0x820 != 0,
        (request.flags & 0xc0000 != 0) == options.huge_tlb,
{
    let codes = MmapCodes::host();
    let request = codes.request(buf_num, buf_len, options);
    proof {
        law_host_is_read(codes);
        let flags = request.flags;
        let huge_tlb = options.huge_tlb;
        assert(1i32 | 2 == 3) by (bit_vector);
        assert(flags & 2 == 2 && flags & 0x820 != 0 && (flags & 0xc0000 != 0) == huge_tlb)
            by (bit_vector)
            requires
                !huge_tlb ==> flags == 2i32 | 0x20 || flags == 2i32 | 0x800,
                huge_tlb ==> flags == 2i32 | 0x20 | 0x40000 || flags == 2i32 | 0x800 | 0x80000,
        ;
    }
    request
}

/// Two requests with the same numbers and options differ in their length alone, and setting the option
/// for huge pages adds exactly that flag.
pub proof fn law_requests(
    one: MmapRequest,
    one_num: usize,
    one_len: usize,
    other: MmapRequest,
    other_num: usize,
    other_len: usize,
    huge: MmapRequest,
    plain_options: MmapAreaOptions,
    huge_options: MmapAreaOptions,
    codes: MmapCodes,
)
    requires
        !plain_options.huge_tlb,
        huge_options.huge_tlb,
        is_mmap_request(one, one_num, one_len, plain_options, codes),
        is_mmap_request(other, other_num, other_len, plain_options, codes),
        is_mmap_request(huge, one_num, one_len, huge_options, codes),
    ensures
        one.len == one_num * one_len,
        other.len == other_num * other_len,
        huge.len == one.len,
        one.prot == codes.prot_read | codes.prot_write,
        other.prot == one.prot,
        huge.prot == one.prot,
        one.flags == codes.map_private | codes.map_anonymous,
        other.flags == one.flags,
        huge.flags == one.flags | codes.map_hugetlb,
        one.fd == -1 && other.fd == -1 && huge.fd == -1,
        one.offset == 0 && other.offset == 0 && huge.offset == 0,
{
}

impl<'a, T: Default + Copy> MmapArea<'a, T> {
    /// The number of buffers in the area.
    pub closed spec fn buf_num(&self) -> usize {
        self.buf_num
    }

    /// The length of each buffer.
    pub closed spec fn buf_len(&self) -> usize {
        self.buf_len
    }

    #[verifier::type_invariant]
    spec fn wf(&self) -> bool {
        self.buf_num * self.buf_len <= usize::MAX
    }

    /// Divide a newly mapped region into buffers
    ///
    /// Buffer `i` covers the bytes from `i * buf_len` up to `(i + 1) * buf_len`, and its address is
    /// the offset of the first of them. What is written through one buffer shows in that part of the
    /// region alone.
    ///
    /// # Arguments
    ///
    /// * buf_num: The number of buffers in the memory mapped area
    /// * buf_len: The length of each buffer
    /// * memory: What the kernel mapped for [`mmap_request`], or None if it did not map anything
    pub fn new(buf_num: usize, buf_len: usize, memory: Option<&'a mut [u8]>) -> (r: Result<
        (Arc<MmapArea<'a, T>>, Vec<BufMmap<'a, T>>),
        MmapError,
    >)
        requires
            memory is Some ==> memory->Some_0@.len() == buf_num * buf_len,
            memory is Some && buf_num > 0 ==> buf_len <= u16::MAX,
        ensures
            memory is None ==> r == Err::<(Arc<MmapArea<'a, T>>, Vec<BufMmap<'a, T>>), MmapError>(
                MmapError::Failed,
            ),
            memory is Some ==> r is Ok,
            r matches Ok((area, bufs)) ==> {
                &&& area.buf_num() == buf_num
                &&& area.buf_len() == buf_len
                &&& bufs@.len() == buf_num
                &&& forall|i: int|
                    0 <= i < buf_num ==> {
                        &&& (#[trigger] bufs@[i]).addr == i * buf_len
                        &&& bufs@[i].len == buf_len
                        &&& bufs@[i].data@ == frame_bytes(memory->Some_0@, buf_len as nat, i)
                        &&& call_ensures(T::default, (), bufs@[i].user)
                    }
            },
            r matches Ok((area, bufs)) ==> (forall|i: int|
                0 <= i < buf_num ==> final((#[trigger] bufs@[i]).data)@.len() == buf_len)
                ==> final(memory->Some_0)@.len() == buf_num * buf_len,
            r matches Ok((area, bufs)) ==> (forall|i: int|
                0 <= i < buf_num ==> final((#[trigger] bufs@[i]).data)@.len() == buf_len) ==> forall|
                i: int,
            |
                0 <= i < buf_num ==> final((#[trigger] bufs@[i]).data)@ == frame_bytes(
                    final(memory->Some_0)@,
                    buf_len as nat,
                    i,
                ),
    {
        let ghost given = memory;
        let region = match memory {
            Some(region) => region,
            None => return Err(MmapError::Failed),
        };
        let total: usize = region.len();
        let area = Arc::new(MmapArea { phantom: PhantomData, buf_num, buf_len });

        let frames = split_frames(region, buf_num, buf_len);
        let ghost all = frames@;
        let mut bufs: Vec<BufMmap<'a, T>> = Vec::with_capacity(buf_num);
        for data in it: frames
            invariant
                it.seq() == all,
                all.len() == buf_num,
                buf_num * buf_len == total,
                buf_num > 0 ==> buf_len <= u16::MAX,
                bufs@.len() == it.index(),
                forall|j: int|
                    0 <= j < bufs@.len() ==> {
                        &&& (#[trigger] bufs@[j]).addr == j * buf_len
                        &&& bufs@[j].len == buf_len
                        &&& bufs@[j].data@ == all[j]@
                        &&& call_ensures(T::default, (), bufs@[j].user)
                    },
                forall|j: int|
                    0 <= j < bufs@.len() ==> final((#[trigger] bufs@[j]).data)@ == final(all[j])@,
        {
            let i: usize = bufs.len();
            proof {
                lemma_frame_bounds(i as int, buf_num as int, buf_len as int);
            }
            bufs.push(
                BufMmap {
                    addr: (i * buf_len) as u64,
                    len: buf_len as u16,
                    data,
                    user: T::default(),
                },
            );
        }
        let r = Ok((area, bufs));
        proof {
            let made = r->Ok_0.1@;
            assert(forall|i: int|
                0 <= i < buf_num ==> (#[trigger] final(all[i]))@ == final(made[i].data)@);
            assert((forall|i: int|
                0 <= i < buf_num ==> final((#[trigger] made[i]).data)@.len() == buf_len)
                ==> final(given->Some_0)@.len() == buf_num * buf_len);
        }
        r
    }

    /// Returns the number of buffers in the area
    pub fn get_buf_num(&self) -> (buf_num: usize)
        ensures
            buf_num == self.buf_num(),
    {
        self.buf_num
    }

    /// Returns the length of each buffer
    pub fn get_buf_len(&self) -> (buf_len: usize)
        ensures
            buf_len == self.buf_len(),
    {
        self.buf_len
    }

    /// Returns the size of the whole area, in bytes
    pub fn get_size(&self) -> (size: usize)
        ensures
            size == self.buf_num() * self.buf_len(),
    {
        proof {
            use_type_invariant(self);
        }
        self.buf_num * self.buf_len
    }
}

}

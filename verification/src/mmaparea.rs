use core::marker::PhantomData;
use std::sync::Arc;

use vstd::prelude::*;

use crate::bufpool::BufPool;
use crate::frames::frame_bytes;

pub use crate::mmap_area::{mmap_request, MmapAreaOptions, MmapCodes, MmapError, MmapRequest};

verus! {

/// A mapped memory area whose buffers are kept in a [`BufPool`].
#[derive(Debug)]
pub struct MmapArea<'a, T: Default + Copy> {
    pub phantom: PhantomData<&'a T>,
    pub buf_num: usize,
    pub buf_len: usize,
}

impl<'a, T: Default + Copy> MmapArea<'a, T> {
    /// Divide a newly mapped region into the buffers of a pool
    ///
    /// # Arguments
    ///
    /// * buf_num: The number of buffers in the memory mapped area
    /// * buf_len: The length of each buffer
    /// * memory: What the kernel mapped for [`mmap_request`], or None if it did not map anything
    pub fn new(buf_num: usize, buf_len: usize, memory: Option<&'a mut [u8]>) -> (r: Result<
        (Arc<MmapArea<'a, T>>, BufPool<'a, T>),
        MmapError,
    >)
        requires
            memory is Some ==> memory->Some_0@.len() == buf_num * buf_len,
        ensures
            memory is None ==> r == Err::<(Arc<MmapArea<'a, T>>, BufPool<'a, T>), MmapError>(
                MmapError::Failed,
            ),
            memory is Some ==> r is Ok,
            r matches Ok((area, pool)) ==> {
                &&& area.buf_num == buf_num
                &&& area.buf_len == buf_len
                &&& pool.area() == *area
                &&& pool.bufs().len() == buf_num
                &&& forall|i: int|
                    0 <= i < buf_num ==> {
                        &&& (#[trigger] pool.bufs()[i]).addr == i
                        &&& pool.bufs()[i].len == buf_len as u32
                        &&& pool.bufs()[i].data@ == frame_bytes(
                            memory->Some_0@,
                            buf_len as nat,
                            i,
                        )
                        &&& call_ensures(T::default, (), pool.bufs()[i].custom)
                    }
            },
            r matches Ok((area, pool)) ==> {
                (forall|i: int|
                    0 <= i < buf_num ==> (#[trigger] final(pool.bufs()[i].data))@.len() == buf_len)
                    ==> (final(memory->Some_0)@.len() == buf_num * buf_len && forall|i: int|
                    0 <= i < buf_num ==> (#[trigger] final(pool.bufs()[i].data))@ == frame_bytes(
                        final(memory->Some_0)@,
                        buf_len as nat,
                        i,
                    ))
            },
    {
        let memory = match memory {
            Some(memory) => memory,
            None => return Err(MmapError::Failed),
        };
        let area = Arc::new(MmapArea { phantom: PhantomData, buf_num, buf_len });
        match BufPool::new(area.clone(), buf_num, buf_len, memory) {
            Ok(pool) => Ok((area, pool)),
            Err(_) => Err(MmapError::Failed),
        }
    }
}

}

use std::sync::Arc;

use vstd::prelude::*;

use crate::frames::{frame_bytes, split_frames};
use crate::mmaparea::MmapArea;
use crate::util::{min, spec_min};

verus! {

/// A packet buffer of a [`BufPool`].
#[derive(Debug)]
pub struct PoolBuf<'a, T> where T: Default + Copy {
    /// addr is the number of the buffer in its area
    pub addr: u64,
    /// len is the length of the buffer
    pub len: u32,
    /// data is the slice of u8 that the buffer covers
    pub data: &'a mut [u8],
    /// custom is the user defined type
    pub custom: T,
}

/// BufPool stores bufs. It can be used in a single thread or wrapped in a Mutex to provide a buffer
/// pool to multiple threads.
///
/// Bufs are moved one at a time, each from the end of where it was to the end of where it goes, so
/// moving several reverses their order.
#[derive(Debug)]
pub struct BufPool<'a, T: Default + Copy> {
    area: Arc<MmapArea<'a, T>>,
    bufs: Vec<PoolBuf<'a, T>>,
}

#[derive(Debug, PartialEq, Eq, Structural)]
pub enum BufPoolError {
    Failed,
}

/// The last `count` elements of one sequence were moved to the end of the other, the last one first.
pub open spec fn tail_moved_reversed<E>(
    from_before: Seq<E>,
    to_before: Seq<E>,
    count: int,
    from_after: Seq<E>,
    to_after: Seq<E>,
) -> bool {
    &&& 0 <= count <= from_before.len()
    &&& from_after == from_before.take(from_before.len() - count)
    &&& to_after == to_before + from_before.skip(from_before.len() - count).reverse()
}

/// Moves the last `count` elements of `from` to the end of `to`, the last one first.
fn move_reversed<E>(from: &mut Vec<E>, to: &mut Vec<E>, count: usize)
    requires
        count <= old(from)@.len(),
    ensures
        tail_moved_reversed(old(from)@, old(to)@, count as int, final(from)@, final(to)@),
{
    let ghost source = from@;
    let ghost target = to@;
    let mut moved: usize = 0;
    while moved < count
        invariant
            moved <= count <= source.len(),
            from@ == source.take(source.len() - moved),
            to@ == target + source.skip(source.len() - moved).reverse(),
        decreases count - moved,
    {
        let element = from.pop().unwrap();
        to.push(element);
        moved += 1;
    }
}

impl<'a, T: Default + Copy> BufPool<'a, T> {
    /// The bufs in the pool.
    pub closed spec fn bufs(&self) -> Seq<PoolBuf<'a, T>> {
        self.bufs@
    }

    /// The area that the bufs of the pool are in.
    pub closed spec fn area(&self) -> MmapArea<'a, T> {
        *self.area
    }

    /// Makes a pool of `buf_num` bufs of `buf_len` bytes each, which divide `memory`, the region that
    /// was mapped for `area`.
    pub fn new(
        area: Arc<MmapArea<'a, T>>,
        buf_num: usize,
        buf_len: usize,
        memory: &'a mut [u8],
    ) -> (r: Result<BufPool<'a, T>, BufPoolError>)
        requires
            old(memory)@.len() == buf_num * buf_len,
        ensures
            r is Ok,
            r matches Ok(pool) ==> {
                &&& pool.area() == *area
                &&& pool.bufs().len() == buf_num
                &&& forall|i: int|
                    0 <= i < buf_num ==> {
                        &&& (#[trigger] pool.bufs()[i]).addr == i
                        &&& pool.bufs()[i].len == buf_len as u32
                        &&& pool.bufs()[i].data@ == frame_bytes(old(memory)@, buf_len as nat, i)
                        &&& call_ensures(T::default, (), pool.bufs()[i].custom)
                    }
            },
            r matches Ok(pool) ==> {
                (forall|i: int|
                    0 <= i < buf_num ==> (#[trigger] final(pool.bufs()[i].data))@.len() == buf_len)
                    ==> (final(memory)@.len() == buf_num * buf_len && forall|i: int|
                    0 <= i < buf_num ==> (#[trigger] final(pool.bufs()[i].data))@ == frame_bytes(
                        final(memory)@,
                        buf_len as nat,
                        i,
                    ))
            },
    {
        let frames = split_frames(memory, buf_num, buf_len);
        let ghost all = frames@;
        let mut bufs: Vec<PoolBuf<'a, T>> = Vec::with_capacity(buf_num);
        for data in it: frames
            invariant
                it.seq() == all,
                all.len() == buf_num,
                bufs@.len() == it.index(),
                forall|j: int|
                    0 <= j < bufs@.len() ==> {
                        &&& (#[trigger] bufs@[j]).addr == j
                        &&& bufs@[j].len == buf_len as u32
                        &&& bufs@[j].data@ == all[j]@
                        &&& call_ensures(T::default, (), bufs@[j].custom)
                    },
                forall|j: int|
                    0 <= j < bufs@.len() ==> (#[trigger] final(bufs@[j].data))@ == final(all[j])@,
        {
            let i: usize = bufs.len();
            bufs.push(
                PoolBuf { addr: i as u64, len: buf_len as u32, data, custom: T::default() },
            );
        }
        Ok(BufPool { area, bufs })
    }

    /// Get up to `num` bufs from the pool. Returns how many were moved to `bufs`.
    pub fn get(&mut self, bufs: &mut Vec<PoolBuf<'a, T>>, num: usize) -> (r: Result<
        usize,
        BufPoolError,
    >)
        ensures
            final(self).area() == old(self).area(),
            r is Ok,
            r matches Ok(count) ==> {
                &&& count == spec_min(num as int, old(self).bufs().len() as int)
                &&& tail_moved_reversed(
                    old(self).bufs(),
                    old(bufs)@,
                    count as int,
                    final(self).bufs(),
                    final(bufs)@,
                )
            },
    {
        let ready = min(num, self.bufs.len());
        move_reversed(&mut self.bufs, bufs, ready);
        Ok(ready)
    }

    /// Add up to `num` bufs to the pool. Returns how many were taken from `bufs`.
    pub fn put(&mut self, bufs: &mut Vec<PoolBuf<'a, T>>, num: usize) -> (r: Result<
        usize,
        BufPoolError,
    >)
        ensures
            final(self).area() == old(self).area(),
            r is Ok,
            r matches Ok(count) ==> {
                &&& count == spec_min(num as int, old(bufs)@.len() as int)
                &&& tail_moved_reversed(
                    old(bufs)@,
                    old(self).bufs(),
                    count as int,
                    final(bufs)@,
                    final(self).bufs(),
                )
            },
    {
        let ready = min(num, bufs.len());
        move_reversed(bufs, &mut self.bufs, ready);
        Ok(ready)
    }

    /// Get the number of bufs in the pool.
    pub fn len(&self) -> (len: usize)
        ensures
            len == self.bufs().len(),
    {
        self.bufs.len()
    }

    /// Indicate whether or not the pool is empty.
    pub fn is_empty(&self) -> (empty: bool)
        ensures
            empty == (self.bufs().len() == 0),
    {
        self.bufs.is_empty()
    }
}

/// Bufs that are put into a pool come back, in their order, if as many are then got from it: the
/// vector and the pool are what they were. The same holds of bufs that are got from a pool and put
/// back.
pub proof fn law_round_trip<E>(
    from: Seq<E>,
    to: Seq<E>,
    count: int,
    from_between: Seq<E>,
    to_between: Seq<E>,
    from_after: Seq<E>,
    to_after: Seq<E>,
)
    requires
        tail_moved_reversed(from, to, count, from_between, to_between),
        tail_moved_reversed(to_between, from_between, count, to_after, from_after),
    ensures
        from_after == from,
        to_after == to,
{
    let tail = from.skip(from.len() - count);
    assert(to_between.take(to.len() as int) == to);
    assert(to_between.skip(to.len() as int) == tail.reverse());
    assert(tail.reverse().reverse() == tail);
    assert(from.take(from.len() - count) + tail == from);
}

/// Moving bufs between a pool and a vector neither loses nor duplicates one.
pub proof fn law_moving_conserves<E>(
    from: Seq<E>,
    to: Seq<E>,
    count: int,
    from_after: Seq<E>,
    to_after: Seq<E>,
)
    requires
        tail_moved_reversed(from, to, count, from_after, to_after),
    ensures
        from_after.to_multiset().add(to_after.to_multiset()) == from.to_multiset().add(
            to.to_multiset(),
        ),
{
    let head = from.take(from.len() - count);
    let tail = from.skip(from.len() - count);
    assert(from == head + tail);
    vstd::seq_lib::lemma_multiset_commutative(head, tail);
    vstd::seq_lib::lemma_multiset_commutative(to, tail.reverse());
    tail.lemma_reverse_to_multiset();
}

/// Where each element is after a move: what stays keeps its place on either side, and of what moves the
/// last element comes first.
pub proof fn law_moved_elements<E>(
    from: Seq<E>,
    to: Seq<E>,
    count: int,
    from_after: Seq<E>,
    to_after: Seq<E>,
)
    requires
        tail_moved_reversed(from, to, count, from_after, to_after),
    ensures
        0 <= count <= from.len(),
        from_after.len() == from.len() - count,
        forall|i: int| 0 <= i < from.len() - count ==> #[trigger] from_after[i] == from[i],
        to_after.len() == to.len() + count,
        forall|i: int| 0 <= i < to.len() ==> #[trigger] to_after[i] == to[i],
        forall|i: int|
            to.len() <= i < to.len() + count ==> #[trigger] to_after[i] == from[from.len() - 1 - (i
                - to.len())],
{
}

}

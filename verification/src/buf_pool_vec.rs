use core::marker::PhantomData;

use vstd::prelude::*;

use crate::buf::Buf;
use crate::buf_pool::BufPool;
use crate::util::{min, spec_min};

verus! {

/// An implementation of the [`BufPool`] trait based on Vec. It hands out the bufs that were added
/// last, in the order in which they were added.
#[derive(Debug)]
pub struct BufPoolVec<T, U> where T: Buf<U>, U: Default {
    phantom: PhantomData<U>,
    bufs: Vec<T>,
}

impl<T, U> BufPoolVec<T, U> where T: Buf<U>, U: Default {
    /// Makes an empty pool with room for `capacity` bufs.
    pub fn new(capacity: usize) -> (pool: BufPoolVec<T, U>)
        ensures
            pool.bufs() == Seq::<T>::empty(),
    {
        BufPoolVec { phantom: PhantomData, bufs: Vec::with_capacity(capacity) }
    }
}

/// The last `count` elements of one sequence were moved to the end of the other, in the same order.
pub open spec fn tail_moved<E>(
    from_before: Seq<E>,
    to_before: Seq<E>,
    count: int,
    from_after: Seq<E>,
    to_after: Seq<E>,
) -> bool {
    &&& 0 <= count <= from_before.len()
    &&& from_after == from_before.take(from_before.len() - count)
    &&& to_after == to_before + from_before.skip(from_before.len() - count)
}

/// Moves the last `count` elements of `from` to the end of `to`, in the same order.
fn move_tail<E>(from: &mut Vec<E>, to: &mut Vec<E>, count: usize)
    requires
        count <= old(from)@.len(),
    ensures
        tail_moved(old(from)@, old(to)@, count as int, final(from)@, final(to)@),
        final(from)@.to_multiset().add(final(to)@.to_multiset()) == old(from)@.to_multiset().add(
            old(to)@.to_multiset(),
        ),
{
    let start = from.len() - count;
    let mut tail = from.split_off(start);
    proof {
        let all = old(from)@;
        vstd::seq_lib::lemma_multiset_commutative(all.take(start as int), all.skip(start as int));
        vstd::seq_lib::lemma_multiset_commutative(old(to)@, all.skip(start as int));
        assert(all == all.take(start as int) + all.skip(start as int));
    }
    to.append(&mut tail);
}

impl<T, U> BufPool<T, U> for BufPoolVec<T, U> where T: Buf<U>, U: Default {
    closed spec fn bufs(&self) -> Seq<T> {
        self.bufs@
    }

    fn get(&mut self, bufs: &mut Vec<T>, num: usize) -> (count: usize)
        ensures
            count == spec_min(num as int, old(self).bufs().len() as int),
            tail_moved(
                old(self).bufs(),
                old(bufs)@,
                count as int,
                final(self).bufs(),
                final(bufs)@,
            ),
    {
        let ready = min(num, self.bufs.len());
        move_tail(&mut self.bufs, bufs, ready);
        ready
    }

    fn put(&mut self, bufs: &mut Vec<T>, num: usize) -> (count: usize)
        ensures
            count == spec_min(num as int, old(bufs)@.len() as int),
            tail_moved(
                old(bufs)@,
                old(self).bufs(),
                count as int,
                final(bufs)@,
                final(self).bufs(),
            ),
    {
        let ready = min(num, bufs.len());
        move_tail(bufs, &mut self.bufs, ready);
        proof {
            assert(self.bufs@.to_multiset().add(bufs@.to_multiset()) =~= bufs@.to_multiset().add(
                self.bufs@.to_multiset(),
            ));
            assert(old(self).bufs@.to_multiset().add(old(bufs)@.to_multiset()) =~= old(
                bufs,
            )@.to_multiset().add(old(self).bufs@.to_multiset()));
        }
        ready
    }

    fn put_buf(&mut self, buf: T) -> (count: usize)
        ensures
            final(self).bufs() == old(self).bufs().push(buf),
    {
        proof {
            broadcast use vstd::seq_lib::group_to_multiset_ensures;
        }
        self.bufs.push(buf);
        1
    }

    fn len(&self) -> usize {
        self.bufs.len()
    }

    fn is_empty(&self) -> bool {
        self.bufs.is_empty()
    }
}

/// Bufs that are put into a pool come back if as many are then got from it: the vector and the pool
/// are what they were. The same holds of bufs that are got from a pool and put back.
pub proof fn law_round_trip<E>(
    from: Seq<E>,
    to: Seq<E>,
    count: int,
    from_between: Seq<E>,
    to_between: Seq<E>,
    from_after: Seq<E>,
    to_after: Seq<E>,
)
    requires
        tail_moved(from, to, count, from_between, to_between),
        tail_moved(to_between, from_between, count, to_after, from_after),
    ensures
        from_after == from,
        to_after == to,
{
    assert(to_between.take(to.len() as int) == to);
    assert(to_between.skip(to.len() as int) == from.skip(from.len() - count));
    assert(from.take(from.len() - count) + from.skip(from.len() - count) == from);
}

/// A single buf that was added to a pool is the first one to come back.
pub proof fn law_added_buf_comes_back<E>(
    pool: Seq<E>,
    buf: E,
    bufs: Seq<E>,
    pool_after: Seq<E>,
    bufs_after: Seq<E>,
)
    requires
        tail_moved(pool.push(buf), bufs, 1, pool_after, bufs_after),
    ensures
        pool_after == pool,
        bufs_after == bufs.push(buf),
{
}

/// Where each element is after a move: what stays keeps its place on either side, and what moves keeps
/// its order.
pub proof fn law_moved_elements<E>(
    from: Seq<E>,
    to: Seq<E>,
    count: int,
    from_after: Seq<E>,
    to_after: Seq<E>,
)
    requires
        tail_moved(from, to, count, from_after, to_after),
    ensures
        0 <= count <= from.len(),
        from_after.len() == from.len() - count,
        forall|i: int| 0 <= i < from.len() - count ==> #[trigger] from_after[i] == from[i],
        to_after.len() == to.len() + count,
        forall|i: int| 0 <= i < to.len() ==> #[trigger] to_after[i] == to[i],
        forall|i: int|
            to.len() <= i < to.len() + count ==> #[trigger] to_after[i] == from[from.len() - count
                + (i - to.len())],
{
}

}

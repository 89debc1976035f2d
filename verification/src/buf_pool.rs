use vstd::prelude::*;

use crate::buf::Buf;
use crate::util::spec_min;

verus! {

/// A pool of [`Buf`]s.
///
/// Whatever order a pool keeps its bufs in, it neither loses nor duplicates one: each buf that leaves
/// the pool is in the caller's vector, and the other way round.
pub trait BufPool<T, U> where T: Buf<U>, U: Default {
    /// The bufs in the pool.
    spec fn bufs(&self) -> Seq<T>;

    /// Get up to `num` bufs from the pool. Returns how many were moved to `bufs`.
    fn get(&mut self, bufs: &mut Vec<T>, num: usize) -> (count: usize)
        ensures
            count <= spec_min(num as int, old(self).bufs().len() as int),
            final(self).bufs().to_multiset().add(final(bufs)@.to_multiset())
                == old(self).bufs().to_multiset().add(old(bufs)@.to_multiset()),
            final(self).bufs().len() == old(self).bufs().len() - count,
    ;

    /// Add up to `num` bufs to the pool. Returns how many were taken from `bufs`.
    fn put(&mut self, bufs: &mut Vec<T>, num: usize) -> (count: usize)
        ensures
            count <= spec_min(num as int, old(bufs)@.len() as int),
            final(self).bufs().to_multiset().add(final(bufs)@.to_multiset())
                == old(self).bufs().to_multiset().add(old(bufs)@.to_multiset()),
            final(self).bufs().len() == old(self).bufs().len() + count,
    ;

    /// Add a single `buf` to the pool. Returns how many were added.
    fn put_buf(&mut self, buf: T) -> (count: usize)
        ensures
            count == 1,
            final(self).bufs().to_multiset() == old(self).bufs().to_multiset().insert(buf),
    ;

    /// Get the number of bufs in the pool.
    fn len(&self) -> (len: usize)
        ensures
            len == self.bufs().len(),
    ;

    /// Indicate whether or not the pool is empty.
    fn is_empty(&self) -> (empty: bool)
        ensures
            empty == (self.bufs().len() == 0),
    ;
}

}

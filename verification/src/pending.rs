use arraydeque::{ArrayDeque, Wrapping};
use vstd::prelude::*;

use crate::buf_mmap::BufMmap;
use crate::PENDING_LEN;

verus! {

/// The circular buffer that holds the bufs. Its size is part of its type.
#[verifier::external_body]
#[verifier::reject_recursive_types(T)]
struct Ring<'a, T>(ArrayDeque<[BufMmap<'a, T>; PENDING_LEN], Wrapping>) where T: Default;

/// Bufs that were received and wait to be sent, or that wait to be processed: a queue with room for
/// [`PENDING_LEN`] of them.
///
/// `bufs` records what the ring holds, front first. The two fields are private to this file, and only
/// the functions below that are marked `external_body` change either of them.
#[verifier::reject_recursive_types(T)]
pub struct PendingBufs<'a, T> where T: Default {
    ring: Ring<'a, T>,
    bufs: Ghost<Seq<BufMmap<'a, T>>>,
}

impl<'a, T> View for PendingBufs<'a, T> where T: Default {
    type V = Seq<BufMmap<'a, T>>;

    /// The bufs in the queue, front first.
    closed spec fn view(&self) -> Seq<BufMmap<'a, T>> {
        self.bufs@
    }
}

impl<'a, T> PendingBufs<'a, T> where T: Default {
    /// `ArrayDeque::new`: makes a ring that holds nothing.
    #[verifier::external_body]
    fn ring_new() -> (r: Self)
        ensures
            r@.len() == 0,
    {
        PendingBufs { ring: Ring(ArrayDeque::new()), bufs: Ghost(Seq::empty()) }
    }

    /// `ArrayDeque::len`: the number of elements held, which is never above the size of the array
    /// behind the ring.
    #[verifier::external_body]
    fn ring_len(&self) -> (len: usize)
        ensures
            len == self@.len(),
            len <= PENDING_LEN,
    {
        self.ring.0.len()
    }

    /// `ArrayDeque::capacity`: the size of the array behind the ring.
    #[verifier::external_body]
    fn ring_capacity(&self) -> (capacity: usize)
        ensures
            capacity == PENDING_LEN,
    {
        self.ring.0.capacity()
    }

    /// `ArrayDeque::push_back` with the `Wrapping` behavior: appends the element. A full ring first
    /// gives up its frontmost element, which is returned.
    #[verifier::external_body]
    fn ring_push_back(&mut self, buf: BufMmap<'a, T>) -> (evicted: Option<BufMmap<'a, T>>)
        ensures
            old(self)@.len() < PENDING_LEN ==> evicted is None && final(self)@ == old(self)@.push(
                buf,
            ),
            old(self)@.len() >= PENDING_LEN ==> evicted == Some(old(self)@[0]) && final(self)@
                == old(self)@.skip(1).push(buf),
    {
        self.ring.0.push_back(buf)
    }

    /// `ArrayDeque::pop_front`: removes and returns the frontmost element, if there is one.
    #[verifier::external_body]
    fn ring_pop_front(&mut self) -> (buf: Option<BufMmap<'a, T>>)
        ensures
            old(self)@.len() == 0 ==> buf is None && final(self)@ == old(self)@,
            old(self)@.len() > 0 ==> buf == Some(old(self)@[0]) && final(self)@ == old(self)@.skip(
                1,
            ),
    {
        self.ring.0.pop_front()
    }

    /// Makes an empty queue.
    pub fn new() -> (r: Self)
        ensures
            r@.len() == 0,
    {
        Self::ring_new()
    }

    /// Returns the number of bufs in the queue
    pub fn len(&self) -> (len: usize)
        ensures
            len == self@.len(),
            len <= PENDING_LEN,
    {
        self.ring_len()
    }

    /// Returns the number of bufs that the queue has room for
    pub fn capacity(&self) -> (capacity: usize)
        ensures
            capacity == PENDING_LEN,
            capacity == 4096,
    {
        self.ring_capacity()
    }

    /// Indicates whether or not the queue is empty
    pub fn is_empty(&self) -> (empty: bool)
        ensures
            empty == (self@.len() == 0),
    {
        self.ring_len() == 0
    }

    /// Appends a buf. If the queue is full, its frontmost buf makes room and is returned.
    pub fn push_back(&mut self, buf: BufMmap<'a, T>) -> (evicted: Option<BufMmap<'a, T>>)
        ensures
            old(self)@.len() < PENDING_LEN ==> evicted is None && final(self)@ == old(self)@.push(
                buf,
            ),
            old(self)@.len() >= PENDING_LEN ==> evicted == Some(old(self)@[0]) && final(self)@
                == old(self)@.skip(1).push(buf),
    {
        self.ring_push_back(buf)
    }

    /// Removes and returns the frontmost buf.
    pub fn pop_front(&mut self) -> (buf: Option<BufMmap<'a, T>>)
        ensures
            old(self)@.len() == 0 ==> buf is None && final(self)@ == old(self)@,
            old(self)@.len() > 0 ==> buf == Some(old(self)@[0]) && final(self)@ == old(self)@.skip(
                1,
            ),
    {
        self.ring_pop_front()
    }
}

}

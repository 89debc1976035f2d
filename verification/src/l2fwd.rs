use vstd::prelude::*;

use crate::buf::Buf;
use crate::buf_mmap::BufMmap;
use crate::pending::PendingBufs;
use crate::socket::{bufs_sent, desc_of, frames_received, RxFrame, TxDesc};
use crate::umem::{bufs_filled, frames_serviced, CompletedFrame};
use crate::util::{min, spec_min};
use crate::PENDING_LEN;

verus! {

/// The length of an Ethernet address.
pub const MAC_LEN: usize = 6;

/// A frame with its destination and source addresses exchanged. They are the first two fields of an
/// Ethernet frame.
pub open spec fn macs_swapped(frame: Seq<u8>) -> Seq<u8> {
    frame.subrange(MAC_LEN as int, 2 * MAC_LEN) + frame.subrange(0, MAC_LEN as int) + frame.skip(
        2 * MAC_LEN,
    )
}

/// Exchanging the addresses of a frame twice leaves the frame as it was. Nothing behind the addresses
/// changes at any time.
pub proof fn law_swapping_twice(frame: Seq<u8>)
    requires
        frame.len() >= 2 * MAC_LEN,
    ensures
        macs_swapped(macs_swapped(frame)) == frame,
        macs_swapped(frame).skip(2 * MAC_LEN) == frame.skip(2 * MAC_LEN),
{
    let once = macs_swapped(frame);
    assert(once.skip(2 * MAC_LEN) == frame.skip(2 * MAC_LEN));
    assert(macs_swapped(once) == frame);
}

/// Exchanging the addresses of a frame puts each byte of the source where the byte of the destination
/// was, and the other way round. Whatever the length of the frame, no other byte changes.
pub proof fn law_swapped_addresses(frame: Seq<u8>, k: int)
    requires
        frame.len() >= 12,
    ensures
        macs_swapped(frame).len() == frame.len(),
        0 <= k < 6 ==> {
            &&& macs_swapped(frame)[k] == frame[k + 6]
            &&& macs_swapped(frame)[k + 6] == frame[k]
        },
        12 <= k < frame.len() ==> macs_swapped(frame)[k] == frame[k],
{
}

/// Exchanges the destination and source addresses of a frame.
pub fn swap_frame_macs(frame: &mut [u8])
    requires
        old(frame)@.len() >= 2 * MAC_LEN,
    ensures
        final(frame)@ == macs_swapped(old(frame)@),
        final(frame)@.len() == old(frame)@.len(),
        forall|k: int|
            0 <= k < old(frame)@.len() ==> #[trigger] final(frame)@[k] == if k < 6 {
                old(frame)@[k + 6]
            } else if k < 12 {
                old(frame)@[k - 6]
            } else {
                old(frame)@[k]
            },
{
    let ghost before = frame@;
    let mut i: usize = 0;
    while i < MAC_LEN
        invariant
            i <= MAC_LEN,
            before.len() >= 2 * MAC_LEN,
            frame@.len() == before.len(),
            forall|j: int|
                0 <= j < before.len() ==> #[trigger] frame@[j] == if j < i {
                    before[j + MAC_LEN]
                } else if MAC_LEN <= j < MAC_LEN + i {
                    before[j - MAC_LEN]
                } else {
                    before[j]
                },
        decreases MAC_LEN - i,
    {
        let destination = frame[i];
        let source = frame[i + MAC_LEN];
        frame[i] = source;
        frame[i + MAC_LEN] = destination;
        i += 1;
    }
}

/// The addresses of each packet were exchanged, and nothing else was changed.
pub open spec fn all_macs_swapped<'a, T: Default + Copy>(
    before: Seq<BufMmap<'a, T>>,
    after: Seq<BufMmap<'a, T>>,
) -> bool {
    &&& after.len() == before.len()
    &&& forall|i: int|
        0 <= i < before.len() ==> {
            &&& (#[trigger] after[i]).bytes() == macs_swapped(before[i].bytes())
            &&& after[i].addr == before[i].addr
            &&& after[i].len == before[i].len
            &&& after[i].user == before[i].user
        }
}

/// Exchanging the addresses of the pending packets does so byte for byte in each of them, however many
/// there are and however long they are, and changes nothing else.
pub proof fn law_swapped_packets<'a, T: Default + Copy>(
    pending: Seq<BufMmap<'a, T>>,
    swapped: Seq<BufMmap<'a, T>>,
    i: int,
    k: int,
)
    requires
        all_macs_swapped(pending, swapped),
        0 <= i < pending.len(),
        pending[i].data@.len() >= 12,
    ensures
        swapped.len() == pending.len(),
        swapped[i].addr == pending[i].addr,
        swapped[i].len == pending[i].len,
        swapped[i].user == pending[i].user,
        swapped[i].data@.len() == pending[i].data@.len(),
        0 <= k < 6 ==> {
            &&& swapped[i].data@[k] == pending[i].data@[k + 6]
            &&& swapped[i].data@[k + 6] == pending[i].data@[k]
        },
        12 <= k < pending[i].data@.len() ==> swapped[i].data@[k] == pending[i].data@[k],
{
    law_swapped_addresses(pending[i].data@, k);
    assert(swapped[i].bytes() == macs_swapped(pending[i].bytes()));
}

/// Exchanging the addresses of all pending packets twice leaves them as they were.
pub proof fn law_swapping_all_twice<'a, T: Default + Copy>(
    pending: Seq<BufMmap<'a, T>>,
    once: Seq<BufMmap<'a, T>>,
    twice: Seq<BufMmap<'a, T>>,
)
    requires
        forall|i: int|
            0 <= i < pending.len() ==> (#[trigger] pending[i]).bytes().len() >= 2 * MAC_LEN,
        all_macs_swapped(pending, once),
        all_macs_swapped(once, twice),
    ensures
        twice.len() == pending.len(),
        forall|i: int|
            0 <= i < pending.len() ==> {
                &&& (#[trigger] twice[i]).bytes() == pending[i].bytes()
                &&& twice[i].addr == pending[i].addr
                &&& twice[i].len == pending[i].len
                &&& twice[i].user == pending[i].user
            },
{
    assert forall|i: int| 0 <= i < pending.len() implies (#[trigger] twice[i]).bytes()
        == pending[i].bytes() by {
        assert(once[i].bytes() == macs_swapped(pending[i].bytes()));
        law_swapping_twice(pending[i].bytes());
    }
}

/// Exchanging the addresses of pending packets does not change what the transmit ring is told of them:
/// where they are, how long they are and in which order they go.
pub proof fn law_swapping_keeps_descs<'a, T: Default + Copy>(
    pending: Seq<BufMmap<'a, T>>,
    swapped: Seq<BufMmap<'a, T>>,
    ready: int,
    descs: Seq<TxDesc>,
    pending_after: Seq<BufMmap<'a, T>>,
)
    requires
        all_macs_swapped(pending, swapped),
        bufs_sent(pending, ready, descs, pending_after),
    ensures
        bufs_sent(swapped, ready, descs, swapped.skip(ready)),
        all_macs_swapped(pending_after, swapped.skip(ready)),
{
    assert(descs == Seq::new(ready as nat, |i: int| desc_of(swapped[i])));
}

/// Exchanges the destination and source addresses of each pending packet.
pub fn swap_macs<'a, T: Default + Copy>(bufs: &mut PendingBufs<'a, T>) -> (r: Result<(), ()>)
    requires
        forall|i: int|
            0 <= i < old(bufs)@.len() ==> (#[trigger] old(bufs)@[i]).bytes().len() >= 2 * MAC_LEN,
    ensures
        r is Ok,
        all_macs_swapped(old(bufs)@, final(bufs)@),
        final(bufs)@.len() == old(bufs)@.len(),
        forall|i: int|
            0 <= i < old(bufs)@.len() ==> {
                &&& (#[trigger] final(bufs)@[i]).addr == old(bufs)@[i].addr
                &&& final(bufs)@[i].len == old(bufs)@[i].len
                &&& final(bufs)@[i].user == old(bufs)@[i].user
                &&& final(bufs)@[i].data@ == old(bufs)@[i].data@.subrange(6, 12)
                    + old(bufs)@[i].data@.subrange(0, 6) + old(bufs)@[i].data@.skip(12)
            },
        forall|i: int|
            0 <= i < old(bufs)@.len() ==> (#[trigger] final(final(bufs)@[i].data))@ == final(
                old(bufs)@[i].data
            )@,
{
    let ghost before = bufs@;
    let num = bufs.len();
    let mut i: usize = 0;
    while i < num
        invariant
            i <= num <= PENDING_LEN,
            num == before.len(),
            bufs@.len() == num,
            forall|j: int|
                0 <= j < before.len() ==> (#[trigger] before[j]).bytes().len() >= 2 * MAC_LEN,
            forall|j: int| i <= j < num ==> bufs@[j - i] == #[trigger] before[j],
            forall|j: int|
                0 <= j < i ==> {
                    &&& bufs@[num - i + j].bytes() == macs_swapped((#[trigger] before[j]).bytes())
                    &&& bufs@[num - i + j].addr == before[j].addr
                    &&& bufs@[num - i + j].len == before[j].len
                    &&& bufs@[num - i + j].user == before[j].user
                },
            forall|j: int|
                0 <= j < i ==> final(bufs@[num - i + j].data)@ == (#[trigger] final(
                    before[j].data
                ))@,
        decreases num - i,
    {
        let ghost first = before[i as int];
        let ghost rotated = bufs@;
        assert(rotated[0] == first);
        let mut buf = bufs.pop_front().unwrap();
        swap_frame_macs(buf.get_data_mut());
        let _ = bufs.push_back(buf);
        proof {
            assert(forall|j: int| 0 <= j < num - 1 ==> #[trigger] bufs@[j] == rotated[j + 1]);
        }
        i += 1;
    }
    Ok(())
}

/// What a link has been through.
#[derive(Debug, Clone, Copy)]
pub struct Stats {
    /// Bufs that came back from the completion queue
    pub cq_bufs: usize,
    /// Bufs that were put on the fill queue
    pub fq_bufs: usize,
    /// Packets that were received
    pub rx_packets: usize,
    /// Packets that were sent
    pub tx_packets: usize,
}

/// What to do once the receive ring has been looked at.
#[derive(Debug, Clone, Copy, PartialEq, Eq, Structural)]
pub enum AfterRecv {
    /// There are packets to forward.
    Forward,
    /// There are none: wake up the receive ring if the fill queue asks for it.
    CheckWakeup,
}

/// When a link gets new buffers.
#[derive(Debug, Clone, Copy)]
pub enum FillThreshold {
    /// When it is more than so many buffers short
    Above(usize),
    /// When it is at least so many buffers short
    AtLeast(usize),
}

/// The bookkeeping of a link that packets are forwarded from.
///
/// Each received packet uses up one buffer that was on the fill queue. The deficit counts the buffers
/// that are still to be made up for.
#[derive(Debug)]
pub struct LinkState {
    fq_deficit: usize,
    stats: Stats,
}

impl LinkState {
    /// How many buffers the fill queue is short of.
    pub closed spec fn deficit(&self) -> usize {
        self.fq_deficit
    }

    /// What the link has been through.
    pub closed spec fn stats(&self) -> Stats {
        self.stats
    }

    #[verifier::type_invariant]
    spec fn wf(&self) -> bool {
        self.stats.fq_bufs + self.fq_deficit == self.stats.rx_packets
    }

    /// A link that nothing has happened on yet.
    pub fn new() -> (link: LinkState)
        ensures
            link.deficit() == 0,
            link.stats() == (Stats { cq_bufs: 0, fq_bufs: 0, rx_packets: 0, tx_packets: 0 }),
    {
        LinkState {
            fq_deficit: 0,
            stats: Stats { cq_bufs: 0, fq_bufs: 0, rx_packets: 0, tx_packets: 0 },
        }
    }

    /// Returns what the link has been through
    pub fn get_stats(&self) -> (stats: Stats)
        ensures
            stats == self.stats(),
            stats.fq_bufs + self.deficit() == stats.rx_packets,
    {
        proof {
            use_type_invariant(self);
        }
        self.stats
    }

    /// The completion queue gave back `n` bufs.
    pub fn serviced(&mut self, n: usize)
        requires
            old(self).stats().cq_bufs + n <= usize::MAX,
        ensures
            final(self).deficit() == old(self).deficit(),
            final(self).stats() == (Stats {
                cq_bufs: (old(self).stats().cq_bufs + n) as usize,
                ..old(self).stats()
            }),
    {
        proof {
            use_type_invariant(&*self);
        }
        self.stats.cq_bufs = self.stats.cq_bufs + n;
    }

    /// The receive ring had `n` packets. Tells what to do next.
    pub fn received(&mut self, n: usize) -> (next: AfterRecv)
        requires
            old(self).stats().rx_packets + n <= usize::MAX,
        ensures
            next == if n > 0 {
                AfterRecv::Forward
            } else {
                AfterRecv::CheckWakeup
            },
            final(self).deficit() == old(self).deficit() + n,
            final(self).stats() == (Stats {
                rx_packets: (old(self).stats().rx_packets + n) as usize,
                ..old(self).stats()
            }),
    {
        proof {
            use_type_invariant(&*self);
        }
        if n > 0 {
            *self = LinkState {
                fq_deficit: self.fq_deficit + n,
                stats: Stats { rx_packets: self.stats.rx_packets + n, ..self.stats },
            };
            AfterRecv::Forward
        } else {
            AfterRecv::CheckWakeup
        }
    }

    /// The transmit ring took `n` packets.
    pub fn sent(&mut self, n: usize)
        requires
            old(self).stats().tx_packets + n <= usize::MAX,
        ensures
            final(self).deficit() == old(self).deficit(),
            final(self).stats() == (Stats {
                tx_packets: (old(self).stats().tx_packets + n) as usize,
                ..old(self).stats()
            }),
    {
        proof {
            use_type_invariant(&*self);
        }
        self.stats.tx_packets = self.stats.tx_packets + n;
    }

    /// How many bufs to put on the fill queue, if it is time to do so: all that it is short of.
    pub fn fill_request(&self, threshold: FillThreshold) -> (request: Option<usize>)
        ensures
            request == match threshold {
                FillThreshold::Above(level) => if self.deficit() > level {
                    Some(self.deficit())
                } else {
                    None
                },
                FillThreshold::AtLeast(level) => if self.deficit() >= level {
                    Some(self.deficit())
                } else {
                    None
                },
            },
    {
        let due = match threshold {
            FillThreshold::Above(level) => self.fq_deficit > level,
            FillThreshold::AtLeast(level) => self.fq_deficit >= level,
        };
        if due {
            Some(self.fq_deficit)
        } else {
            None
        }
    }

    /// The fill queue took `n` bufs.
    pub fn filled(&mut self, n: usize)
        requires
            n <= old(self).deficit(),
        ensures
            final(self).deficit() == old(self).deficit() - n,
            final(self).stats() == (Stats {
                fq_bufs: (old(self).stats().fq_bufs + n) as usize,
                ..old(self).stats()
            }),
    {
        proof {
            use_type_invariant(&*self);
        }
        *self = LinkState {
            fq_deficit: self.fq_deficit - n,
            stats: Stats { fq_bufs: self.stats.fq_bufs + n, ..self.stats },
        };
    }
}

/// A round of a forwarder neither loses a buffer nor makes one: what it takes from the completion queue
/// and the receive ring is put on the transmit ring and the fill queue, or is still at hand.
pub proof fn law_round_conserves_bufs<'a, T: Default + Copy>(
    bufs: Seq<BufMmap<'a, T>>,
    completed: Seq<CompletedFrame<'a>>,
    bufs_serviced: Seq<BufMmap<'a, T>>,
    pending: Seq<BufMmap<'a, T>>,
    frames: Seq<RxFrame<'a>>,
    user: T,
    pending_received: Seq<BufMmap<'a, T>>,
    pending_swapped: Seq<BufMmap<'a, T>>,
    sent: int,
    descs: Seq<TxDesc>,
    pending_after: Seq<BufMmap<'a, T>>,
    filled: int,
    addrs: Seq<u64>,
    bufs_after: Seq<BufMmap<'a, T>>,
)
    requires
        frames_serviced(bufs, completed, bufs_serviced),
        frames_received(pending, frames, user, pending_received),
        all_macs_swapped(pending_received, pending_swapped) || pending_swapped == pending_received,
        bufs_sent(pending_swapped, sent, descs, pending_after),
        bufs_filled(bufs_serviced, filled, addrs, bufs_after),
    ensures
        bufs_after.len() + pending_after.len() + descs.len() + addrs.len() == bufs.len()
            + pending.len() + completed.len() + frames.len(),
{
}

/// How many bufs to put on each fill queue at the start, if two links share `buf_num` bufs: half of
/// them each, as far as the ring has room.
pub fn initial_fill(buf_num: usize, ring_size: u32) -> (num: usize)
    ensures
        num == spec_min(buf_num as int / 2, ring_size as int),
        num <= ring_size,
        2 * num <= buf_num,
        num == ring_size || num == buf_num / 2,
{
    min(buf_num / 2, ring_size as usize)
}

/// The other one of two links.
pub fn other_link(pos: usize) -> (other: usize)
    requires
        pos < 2,
    ensures
        other == 1 - pos,
{
    (pos + 1) % 2
}

/// Counts the seconds of a run of limited length.
#[derive(Debug)]
pub struct RunLimit {
    ticks: usize,
}

/// The run ends with the first second after this many.
pub const MAX_TICKS: usize = 60;

impl RunLimit {
    /// How many seconds were counted.
    pub closed spec fn ticks(&self) -> usize {
        self.ticks
    }

    #[verifier::type_invariant]
    spec fn wf(&self) -> bool {
        self.ticks <= MAX_TICKS + 1
    }

    /// A run that begins now.
    pub fn new() -> (limit: RunLimit)
        ensures
            limit.ticks() == 0,
    {
        RunLimit { ticks: 0 }
    }

    /// A second has passed. Tells whether the run is over; otherwise the second is counted.
    pub fn tick(&mut self) -> (over: bool)
        ensures
            over == (old(self).ticks() > MAX_TICKS),
            over == (old(self).ticks() > 60),
            final(self).ticks() == if over {
                old(self).ticks() as int
            } else {
                old(self).ticks() + 1
            },
    {
        proof {
            use_type_invariant(&*self);
        }
        if self.ticks > MAX_TICKS {
            return true;
        }
        self.ticks = self.ticks + 1;
        false
    }
}

}

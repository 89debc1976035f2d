//! Packet buffers, buffer pools and queue bookkeeping for AF_XDP (XSK) Linux sockets.
//!
//! For information on AF_XDP, see the Linux kernel
//! [docs](https://www.kernel.org/doc/html/latest/networking/af_xdp.html).
//!
//! This library holds what can be decided without the kernel: how a mapped region is divided into
//! buffers, what a request to the kernel asks for, what becomes of the descriptors that a ring hands
//! out, and what is written back. The calls themselves are made by the program around it, which
//! passes their results in as plain values.

use vstd::prelude::*;

/// Buf is the trait that is used to represent a packet buffer.
pub mod buf;
/// BufMmap is the primary implementation of [Buf](crate::buf::Buf) for use with AF_XDP sockets.
pub mod buf_mmap;
/// BufPool is a trait which represents a pool of buffers.
pub mod buf_pool;
/// BufPoolVec is an implementation of the [BufPool](crate::buf_pool::BufPool) trait based on Vec.
pub mod buf_pool_vec;
/// BufVec is an implementation of the [Buf](crate::buf::Buf) trait that is easier to use in tests.
pub mod buf_vec;
/// The pool of the buffers of a [mmaparea::MmapArea](crate::mmaparea::MmapArea).
pub mod bufpool;
/// Dividing a mapped region into frames.
pub mod frames;
/// What a layer 2 forwarder decides between its calls to the kernel.
pub mod l2fwd;
/// MmapArea is a region of memory that is shared with one or more NICs via one or more
/// [Umem](crate::umem::Umem)s.
pub mod mmap_area;
/// A mapped area that keeps its buffers in a pool.
pub mod mmaparea;
/// The circular buffer between receiving packets and sending them.
pub mod pending;
/// The Socket module represents an AF_XDP (XSK) socket which is used to transmit or receive packets.
pub mod socket;
/// The Umem module represents a shared memory area shared with the NIC and one or more sockets.
pub mod umem;
/// Utilities
pub mod util;

verus! {

/// The size of the circular buffer used when reading from and writing to the socket.
pub const PENDING_LEN: usize = 4096;

/// The number of bytes at the start of a frame that the kernel keeps for itself
/// (`XDP_PACKET_HEADROOM`).
pub const AF_XDP_RESERVED: u64 = 256;

}

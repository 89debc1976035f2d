# afxdp

Packet buffers, buffer pools and queue bookkeeping for AF_XDP sockets, written and verified in
[Verus](https://github.com/verus-lang/verus).

AF_XDP:

* <https://www.kernel.org/doc/html/latest/networking/af_xdp.html>
* <https://lwn.net/Articles/750845/>

## Layout

* `src/` is the library. It holds everything that can be decided without the kernel:
  * `buf`, `buf_vec`, `buf_mmap`: packet buffers
  * `buf_pool`, `buf_pool_vec`, `bufpool`: pools of them
  * `frames`, `mmap_area`, `mmaparea`: dividing a mapped region into buffers that do not overlap
  * `pending`: the circular buffer between receiving and sending
  * `umem`, `socket`: what the kernel is asked for, and what becomes of the descriptors on the four
    rings
  * `l2fwd`: what a layer 2 forwarder decides
* `app/` makes the system calls and reads and writes the rings. It is an ordinary Rust program with
  two commands, `l2fwd-1link` and `l2fwd-2link`.
* `tests/` runs the library on concrete values.

A function of the library whose work depends on the kernel takes the kernel's answer as an argument.
For the rings this takes two steps: a `quota` method says how many descriptors to ask for, and
`service`, `fill`, `try_recv` or `try_send` says what becomes of those that the ring came up with.

## What is trusted

* `pending.rs`: the methods of `arraydeque::ArrayDeque` that the queue uses.
* `umem.rs`: `Vec::capacity` is never below the length.
* `mmap_area.rs`, `socket.rs`: constants of libc have the numbers that Linux gives them. Where these
  differ between machines, each set of them is allowed for.

A mutable slice never changes its length. Clauses about what is later written through one are guarded
by that fact.

Only the chunked memory mode is supported. Bufs can outlive the memory that they are in, if the
program around the library unmaps it too early.

use std::sync::Arc;

use vstd::prelude::*;

use crate::buf_mmap::BufMmap;
use crate::pending::PendingBufs;
use crate::umem::Umem;
use crate::util::{is_pow_of_two, min, power_of_two, spec_min};
use crate::{AF_XDP_RESERVED, PENDING_LEN};

verus! {

/// Leave an XDP program that is already loaded in place (`XDP_FLAGS_UPDATE_IF_NOEXIST`).
pub const XDP_FLAGS_UPDATE_IF_NOEXIST: u32 = 1;

/// Bind flag: force copy mode.
pub const XDP_COPY: u16 = 2;

/// Bind flag: force zero copy mode.
pub const XDP_ZEROCOPY: u16 = 4;

/// Bind flag: the kernel tells when it has to be woken up.
pub const XDP_USE_NEED_WAKEUP: u16 = 8;

/// How long waking up a receive ring waits for packets, in milliseconds: busy polling.
pub const POLL_TIMEOUT: i32 = 0;

/// A Rx and Tx AF_XDP socket which is used to receive and transmit packets via AF_XDP.
#[derive(Debug)]
pub struct Socket<'a, T: Default + Copy> {
    umem: Arc<Umem<'a, T>>,
    if_name: String,
}

/// A Rx only AF_XDP socket
#[derive(Debug)]
pub struct SocketRx<'a, T: Default + Copy> {
    socket: Arc<Socket<'a, T>>,
    fd: i32,
}

/// A Tx only AF_XDP socket
#[derive(Debug)]
pub struct SocketTx<'a, T: Default + Copy> {
    socket: Arc<Socket<'a, T>>,
    fd: i32,
}

#[derive(Debug, PartialEq, Eq, Structural)]
pub enum SocketNewError {
    /// The kernel refused the socket. Holds the error number that it left behind.
    Create(i32),
    /// A ring size is not a power of two.
    RingNotPowerOfTwo,
}

#[derive(Debug, PartialEq, Eq, Structural)]
pub enum SocketError {
    Failed,
}

/// Configuration options for AF_XDP sockets
#[derive(Copy, Clone, Debug)]
pub struct SocketOptions {
    /// Force XDP zero copy mode (XDP_ZEROCOPY flag)
    pub zero_copy_mode: bool,
    /// Force XDP copy mode (XDP_COPY flag)
    pub copy_mode: bool,
    /// Tx ring size (must be a power of two)
    pub tx_ring_size: u32,
    /// Rx ring size (must be a power of two)
    pub rx_ring_size: u32,
}

impl Default for SocketOptions {
    fn default() -> (options: Self)
        ensures
            !options.zero_copy_mode,
            !options.copy_mode,
            options.tx_ring_size == 0,
            options.rx_ring_size == 0,
    {
        SocketOptions { zero_copy_mode: false, copy_mode: false, tx_ring_size: 0, rx_ring_size: 0 }
    }
}

/// How a socket is set up.
#[derive(Debug, Clone, Copy)]
pub struct SocketConfig {
    pub rx_size: u32,
    pub tx_size: u32,
    pub xdp_flags: u32,
    pub bind_flags: u16,
    pub libbpf_flags: u32,
}

/// What the kernel is asked for when a socket is created.
#[derive(Debug)]
pub struct SocketRequest {
    /// The link to bind to
    pub if_name: String,
    /// The NIC queue/channel to bind to
    pub queue: u32,
    /// Whether the socket has a receive ring
    pub rx: bool,
    /// Whether the socket has a transmit ring
    pub tx: bool,
    pub config: SocketConfig,
}

/// What the kernel answered to a [`SocketRequest`].
#[derive(Debug, Clone, Copy)]
pub struct SocketReply {
    /// What the create call returned: zero if it made the socket
    pub ret: i32,
    /// The error number that the call left behind; of no account if it made the socket
    pub errno: i32,
    /// The file descriptor of the socket; of no account if the call failed
    pub fd: i32,
}

/// The bind flags for the given options.
pub open spec fn spec_bind_flags(options: SocketOptions) -> u16 {
    match (options.zero_copy_mode, options.copy_mode) {
        (false, false) => XDP_USE_NEED_WAKEUP,
        (true, false) => XDP_USE_NEED_WAKEUP | XDP_ZEROCOPY,
        (false, true) => XDP_USE_NEED_WAKEUP | XDP_COPY,
        (true, true) => XDP_USE_NEED_WAKEUP | XDP_ZEROCOPY | XDP_COPY,
    }
}

/// The configuration of a socket with the given ring sizes; zero stands for a ring that the socket
/// does not have.
pub open spec fn spec_socket_config(
    rx_size: u32,
    tx_size: u32,
    options: SocketOptions,
) -> SocketConfig {
    SocketConfig {
        rx_size,
        tx_size,
        xdp_flags: XDP_FLAGS_UPDATE_IF_NOEXIST,
        bind_flags: spec_bind_flags(options),
        libbpf_flags: 0,
    }
}

fn socket_config(rx_size: u32, tx_size: u32, options: &SocketOptions) -> (config: SocketConfig)
    ensures
        config == spec_socket_config(rx_size, tx_size, *options),
{
    let mut bind_flags: u16 = XDP_USE_NEED_WAKEUP;
    if options.zero_copy_mode {
        bind_flags = bind_flags | XDP_ZEROCOPY;
    }
    if options.copy_mode {
        bind_flags = bind_flags | XDP_COPY;
    }
    SocketConfig {
        rx_size,
        tx_size,
        xdp_flags: XDP_FLAGS_UPDATE_IF_NOEXIST,
        bind_flags,
        libbpf_flags: 0,
    }
}

/// `request` is what the kernel is to be asked for.
pub open spec fn is_request(
    request: SocketRequest,
    if_name: Seq<char>,
    queue: usize,
    rx_ring_size: Option<u32>,
    tx_ring_size: Option<u32>,
    options: SocketOptions,
) -> bool {
    &&& request.if_name@ == if_name
    &&& request.queue == queue as u32
    &&& request.rx == rx_ring_size is Some
    &&& request.tx == tx_ring_size is Some
    &&& request.config == spec_socket_config(
        match rx_ring_size {
            Some(size) => size,
            None => 0,
        },
        match tx_ring_size {
            Some(size) => size,
            None => 0,
        },
        options,
    )
}

/// A ring is either left out or has a size that is a power of two.
pub open spec fn valid_ring(ring_size: Option<u32>) -> bool {
    match ring_size {
        Some(size) => power_of_two(size as int),
        None => true,
    }
}

impl<'a, T: Default + Copy> Socket<'a, T> {
    /// The umem that the socket uses.
    pub closed spec fn umem(&self) -> Umem<'a, T> {
        *self.umem
    }

    /// The link that the socket is bound to.
    pub closed spec fn if_name(&self) -> Seq<char> {
        self.if_name@
    }

    /// The number of bytes of a frame of the umem that are left for packet data.
    pub fn frame_len(&self) -> (len: usize)
        requires
            AF_XDP_RESERVED <= self.umem().area().buf_len(),
        ensures
            len == self.umem().area().buf_len() - AF_XDP_RESERVED,
    {
        self.umem.frame_len()
    }

    /// What to ask the kernel for, to get a socket with the given rings. The size of each ring must
    /// be a power of two.
    pub fn create_request(
        if_name: &str,
        queue: usize,
        rx_ring_size: Option<u32>,
        tx_ring_size: Option<u32>,
        options: SocketOptions,
    ) -> (r: Result<SocketRequest, SocketNewError>)
        ensures
            match r {
                Ok(request) => {
                    &&& valid_ring(rx_ring_size)
                    &&& valid_ring(tx_ring_size)
                    &&& is_request(
                        request,
                        if_name@,
                        queue,
                        rx_ring_size,
                        tx_ring_size,
                        options,
                    )
                },
                Err(e) => {
                    &&& e == SocketNewError::RingNotPowerOfTwo
                    &&& !(valid_ring(rx_ring_size) && valid_ring(tx_ring_size))
                },
            },
            r is Ok == ((rx_ring_size is Some ==> power_of_two(rx_ring_size->Some_0 as int)) && (
            tx_ring_size is Some ==> power_of_two(tx_ring_size->Some_0 as int))),
            r matches Ok(request) ==> {
                &&& request.if_name@ == if_name@
                &&& request.queue == queue as u32
                &&& request.rx == rx_ring_size is Some
                &&& request.tx == tx_ring_size is Some
                &&& rx_ring_size is Some ==> request.config.rx_size == rx_ring_size->Some_0
                &&& rx_ring_size is None ==> request.config.rx_size == 0
                &&& tx_ring_size is Some ==> request.config.tx_size == tx_ring_size->Some_0
                &&& tx_ring_size is None ==> request.config.tx_size == 0
                &&& request.config.xdp_flags == XDP_FLAGS_UPDATE_IF_NOEXIST
                &&& request.config.bind_flags == 8 + (if options.zero_copy_mode {
                    4int
                } else {
                    0
                }) + (if options.copy_mode {
                    2int
                } else {
                    0
                })
                &&& request.config.libbpf_flags == 0
            },
    {
        let rx_size: u32 = match rx_ring_size {
            Some(size) => {
                if !is_pow_of_two(size) {
                    return Err(SocketNewError::RingNotPowerOfTwo);
                }
                size
            },
            None => 0,
        };
        let tx_size: u32 = match tx_ring_size {
            Some(size) => {
                if !is_pow_of_two(size) {
                    return Err(SocketNewError::RingNotPowerOfTwo);
                }
                size
            },
            None => 0,
        };
        proof {
            law_bind_flags(options);
        }
        Ok(
            SocketRequest {
                if_name: if_name.to_owned(),
                queue: queue as u32,
                rx: rx_ring_size.is_some(),
                tx: tx_ring_size.is_some(),
                config: socket_config(rx_size, tx_size, &options),
            },
        )
    }

    /// Create a new Rx/Tx AF_XDP socket
    ///
    /// # Arguments
    /// * umem: The Umem the new socket will use
    /// * if_name: The link this socket is bound to
    /// * queue: The NIC queue/channel this socket is bound to
    /// * rx_ring_size: The size of the Rx ring
    /// * tx_ring_size: The size of the Tx ring
    /// * options: Configuration options
    /// * reply: What the kernel answered to [`Socket::create_request`]; of no account if the ring
    ///   sizes already rule the request out
    pub fn new(
        umem: Arc<Umem<'a, T>>,
        if_name: &str,
        queue: usize,
        rx_ring_size: u32,
        tx_ring_size: u32,
        options: SocketOptions,
        reply: SocketReply,
    ) -> (r: Result<(Arc<Socket<'a, T>>, SocketRx<'a, T>, SocketTx<'a, T>), SocketNewError>)
        ensures
            match r {
                Ok((socket, rx, tx)) => {
                    &&& power_of_two(rx_ring_size as int) && power_of_two(tx_ring_size as int)
                    &&& reply.ret == 0
                    &&& socket.umem() == *umem
                    &&& socket.if_name() == if_name@
                    &&& rx.socket() == *socket
                    &&& rx.fd() == reply.fd
                    &&& tx.socket() == *socket
                    &&& tx.fd() == reply.fd
                },
                Err(SocketNewError::RingNotPowerOfTwo) => !(power_of_two(rx_ring_size as int)
                    && power_of_two(tx_ring_size as int)),
                Err(SocketNewError::Create(code)) => {
                    &&& power_of_two(rx_ring_size as int) && power_of_two(tx_ring_size as int)
                    &&& reply.ret != 0
                    &&& code == reply.errno
                },
            },
    {
        let request = match Self::create_request(
            if_name,
            queue,
            Some(rx_ring_size),
            Some(tx_ring_size),
            options,
        ) {
            Ok(request) => request,
            Err(e) => return Err(e),
        };
        if reply.ret != 0 {
            return Err(SocketNewError::Create(reply.errno));
        }
        let socket = Arc::new(Socket { umem, if_name: request.if_name });
        let rx = SocketRx { socket: socket.clone(), fd: reply.fd };
        let tx = SocketTx { socket: socket.clone(), fd: reply.fd };
        Ok((socket, rx, tx))
    }

    /// Create a new Rx-only AF_XDP socket. The arguments are those of [`Socket::new`].
    pub fn new_rx(
        umem: Arc<Umem<'a, T>>,
        if_name: &str,
        queue: usize,
        rx_ring_size: u32,
        options: SocketOptions,
        reply: SocketReply,
    ) -> (r: Result<(Arc<Socket<'a, T>>, SocketRx<'a, T>), SocketNewError>)
        ensures
            match r {
                Ok((socket, rx)) => {
                    &&& power_of_two(rx_ring_size as int)
                    &&& reply.ret == 0
                    &&& socket.umem() == *umem
                    &&& socket.if_name() == if_name@
                    &&& rx.socket() == *socket
                    &&& rx.fd() == reply.fd
                },
                Err(SocketNewError::RingNotPowerOfTwo) => !power_of_two(rx_ring_size as int),
                Err(SocketNewError::Create(code)) => {
                    &&& power_of_two(rx_ring_size as int)
                    &&& reply.ret != 0
                    &&& code == reply.errno
                },
            },
    {
        let request = match Self::create_request(
            if_name,
            queue,
            Some(rx_ring_size),
            None,
            options,
        ) {
            Ok(request) => request,
            Err(e) => return Err(e),
        };
        if reply.ret != 0 {
            return Err(SocketNewError::Create(reply.errno));
        }
        let socket = Arc::new(Socket { umem, if_name: request.if_name });
        let rx = SocketRx { socket: socket.clone(), fd: reply.fd };
        Ok((socket, rx))
    }

    /// Create a new Tx-only AF_XDP socket. The arguments are those of [`Socket::new`].
    pub fn new_tx(
        umem: Arc<Umem<'a, T>>,
        if_name: &str,
        queue: usize,
        tx_ring_size: u32,
        options: SocketOptions,
        reply: SocketReply,
    ) -> (r: Result<(Arc<Socket<'a, T>>, SocketTx<'a, T>), SocketNewError>)
        ensures
            match r {
                Ok((socket, tx)) => {
                    &&& power_of_two(tx_ring_size as int)
                    &&& reply.ret == 0
                    &&& socket.umem() == *umem
                    &&& socket.if_name() == if_name@
                    &&& tx.socket() == *socket
                    &&& tx.fd() == reply.fd
                },
                Err(SocketNewError::RingNotPowerOfTwo) => !power_of_two(tx_ring_size as int),
                Err(SocketNewError::Create(code)) => {
                    &&& power_of_two(tx_ring_size as int)
                    &&& reply.ret != 0
                    &&& code == reply.errno
                },
            },
    {
        let request = match Self::create_request(
            if_name,
            queue,
            None,
            Some(tx_ring_size),
            options,
        ) {
            Ok(request) => request,
            Err(e) => return Err(e),
        };
        if reply.ret != 0 {
            return Err(SocketNewError::Create(reply.errno));
        }
        let socket = Arc::new(Socket { umem, if_name: request.if_name });
        let tx = SocketTx { socket: socket.clone(), fd: reply.fd };
        Ok((socket, tx))
    }
}

/// A received frame, as the receive ring describes it: the address of the packet in the umem area, its
/// length, and the bytes at that address that the buf is to cover.
#[derive(Debug)]
pub struct RxFrame<'a> {
    pub addr: u64,
    pub len: u32,
    pub data: &'a mut [u8],
}

/// What to write to a slot of the transmit ring.
#[derive(Debug, Clone, Copy, PartialEq, Eq)]
pub struct TxDesc {
    pub addr: u64,
    pub len: u32,
}

/// The packets to put on the transmit ring, in the order of the slots.
#[derive(Debug)]
pub struct TxBatch {
    pub descs: Vec<TxDesc>,
    /// Whether to check, once the packets are submitted, if the kernel has to be woken up.
    pub check_wakeup: bool,
}

/// The arguments of the poll call that wakes up a receive ring: wait for input on `fd`.
#[derive(Debug, Clone, Copy)]
pub struct PollRequest {
    pub fd: i32,
    pub timeout: i32,
}

/// A poll call that failed, with what it returned and the error number that it left behind.
#[derive(Debug, Clone, Copy)]
pub struct PollError {
    pub ret: i32,
    pub errno: i32,
}

/// The error numbers that the host gives to the failures that a wakeup call may have.
#[derive(Debug, Clone, Copy)]
pub struct WakeupErrnos {
    pub enobufs: i32,
    pub eagain: i32,
    pub ebusy: i32,
    pub enetdown: i32,
}

/// The sendto call that wakes up a transmit ring: an empty message on `fd`, without waiting.
#[derive(Debug, Clone, Copy)]
pub struct WakeupRequest {
    pub fd: i32,
}

/// What a sendto call returned, and the error number that it left behind.
#[derive(Debug, Clone, Copy)]
pub struct WakeupReply {
    pub ret: isize,
    pub errno: i32,
}

/// The wakeup call failed, and not in one of the ways that the kernel's own sample application takes
/// for harmless.
pub open spec fn spec_wakeup_is_fatal(reply: WakeupReply, errnos: WakeupErrnos) -> bool {
    &&& reply.ret < 0
    &&& reply.errno != errnos.enobufs
    &&& reply.errno != errnos.eagain
    &&& reply.errno != errnos.ebusy
    &&& reply.errno != errnos.enetdown
}

/// The numbers that Linux gives to the errors. Those of the network have numbers of their own on mips
/// and on sparc; all other machines agree.
pub open spec fn linux_errnos(errnos: WakeupErrnos) -> bool {
    &&& errnos.eagain == 11
    &&& errnos.ebusy == 16
    &&& {
        ||| errnos.enobufs == 105 && errnos.enetdown == 100
        ||| errnos.enobufs == 132 && errnos.enetdown == 127
        ||| errnos.enobufs == 55 && errnos.enetdown == 50
    }
}

/// `errnos` are numbers that reading the constants of this host gave.
pub closed spec fn read_from_host(errnos: WakeupErrnos) -> bool {
    call_ensures(WakeupErrnos::host, (), errnos)
}

/// No numbers count as read from the host but those that [`WakeupErrnos::host`] returned.
proof fn law_host_is_read(errnos: WakeupErrnos)
    ensures
        read_from_host(errnos) == call_ensures(WakeupErrnos::host, (), errnos),
        read_from_host(errnos) ==> linux_errnos(errnos),
{
}

impl WakeupErrnos {
    /// The constants `ENOBUFS`, `EAGAIN`, `EBUSY` and `ENETDOWN` of libc. Each Linux target of libc
    /// defines them with the numbers that [`linux_errnos`] lists. Which of the three sets it is
    /// depends on the machine and is left open.
    /// Nothing is claimed of other systems, which have no AF_XDP.
    #[verifier::external_body]
    fn host() -> (errnos: WakeupErrnos)
        ensures
            linux_errnos(errnos),
    {
        WakeupErrnos {
            enobufs: libc::ENOBUFS,
            eagain: libc::EAGAIN,
            ebusy: libc::EBUSY,
            enetdown: libc::ENETDOWN,
        }
    }

    /// Tells whether a wakeup call failed in a way that is not harmless, on a host with these error
    /// numbers.
    pub fn is_fatal(&self, reply: WakeupReply) -> (fatal: bool)
        ensures
            fatal == spec_wakeup_is_fatal(reply, *self),
            fatal == (reply.ret < 0 && reply.errno != self.enobufs && reply.errno != self.eagain
                && reply.errno != self.ebusy && reply.errno != self.enetdown),
    {
        if reply.ret >= 0 {
            return false;
        }
        !(reply.errno == self.enobufs || reply.errno == self.eagain || reply.errno == self.ebusy
            || reply.errno == self.enetdown)
    }
}

/// Tells whether a wakeup call failed in a way that is not harmless, on this host.
///
/// A call that did not fail is harmless. So are the errors that have the same number on every machine.
/// An error that is none of the harmless ones on any machine is fatal.
pub fn wakeup_is_fatal(reply: WakeupReply) -> (fatal: bool)
    ensures
        exists|errnos: WakeupErrnos|
            linux_errnos(errnos) && fatal == #[trigger] spec_wakeup_is_fatal(reply, errnos),
        exists|errnos: WakeupErrnos| #[trigger]
            read_from_host(errnos) && {
                &&& linux_errnos(errnos)
                &&& fatal == (reply.ret < 0 && reply.errno != errnos.enobufs && reply.errno
                    != errnos.eagain && reply.errno != errnos.ebusy && reply.errno
                    != errnos.enetdown)
            },
        reply.ret >= 0 ==> !fatal,
        reply.ret < 0 && (reply.errno == 11 || reply.errno == 16) ==> !fatal,
        reply.ret < 0 && !(reply.errno == 11 || reply.errno == 16 || reply.errno == 105
            || reply.errno == 132 || reply.errno == 55 || reply.errno == 100 || reply.errno == 127
            || reply.errno == 50) ==> fatal,
{
    let errnos = WakeupErrnos::host();
    proof {
        law_host_is_read(errnos);
    }
    errnos.is_fatal(reply)
}

/// A wakeup call that did not fail is never fatal, nor is one that failed in one of the four harmless
/// ways. Every other failure is.
pub proof fn law_fatal_wakeups(reply: WakeupReply, errnos: WakeupErrnos)
    ensures
        reply.ret >= 0 ==> !spec_wakeup_is_fatal(reply, errnos),
        reply.errno == errnos.enobufs ==> !spec_wakeup_is_fatal(reply, errnos),
        reply.errno == errnos.eagain ==> !spec_wakeup_is_fatal(reply, errnos),
        reply.errno == errnos.ebusy ==> !spec_wakeup_is_fatal(reply, errnos),
        reply.errno == errnos.enetdown ==> !spec_wakeup_is_fatal(reply, errnos),
        !spec_wakeup_is_fatal(reply, errnos) && reply.ret < 0 ==> {
            ||| reply.errno == errnos.enobufs
            ||| reply.errno == errnos.eagain
            ||| reply.errno == errnos.ebusy
            ||| reply.errno == errnos.enetdown
        },
{
}

/// `buf` is what becomes of a received frame.
pub open spec fn is_received<'a, T: Default + Copy>(
    frame: RxFrame<'a>,
    user: T,
    buf: BufMmap<'a, T>,
) -> bool {
    &&& buf.addr == frame.addr
    &&& buf.len == frame.len
    &&& buf.data@ == frame.data@
    &&& buf.user == user
}

/// The received frames were appended to the pending bufs.
pub open spec fn frames_received<'a, T: Default + Copy>(
    before: Seq<BufMmap<'a, T>>,
    frames: Seq<RxFrame<'a>>,
    user: T,
    after: Seq<BufMmap<'a, T>>,
) -> bool {
    &&& after.len() == before.len() + frames.len()
    &&& after.take(before.len() as int) == before
    &&& forall|i: int|
        before.len() <= i < after.len() ==> is_received(
            frames[i - before.len()],
            user,
            #[trigger] after[i],
        )
}

/// What is written to a slot of the transmit ring for a buf.
pub open spec fn desc_of<'a, T: Default + Copy>(buf: BufMmap<'a, T>) -> TxDesc {
    TxDesc { addr: buf.addr, len: buf.len as u32 }
}

/// The first `ready` of the pending bufs were taken and described.
pub open spec fn bufs_sent<'a, T: Default + Copy>(
    before: Seq<BufMmap<'a, T>>,
    ready: int,
    descs: Seq<TxDesc>,
    after: Seq<BufMmap<'a, T>>,
) -> bool {
    &&& 0 <= ready <= before.len()
    &&& descs == Seq::new(ready as nat, |i: int| desc_of(before[i]))
    &&& after == before.skip(ready)
}

impl<'a, T: Default + Copy> SocketRx<'a, T> {
    /// The socket that this is the receiving side of.
    pub closed spec fn socket(&self) -> Socket<'a, T> {
        *self.socket
    }

    /// The file descriptor of the socket.
    pub closed spec fn fd(&self) -> i32 {
        self.fd
    }

    /// The poll call that wakes up the receive ring.
    pub fn wake_request(&self) -> (request: PollRequest)
        ensures
            request.fd == self.fd(),
            request.timeout == POLL_TIMEOUT,
    {
        PollRequest { fd: self.fd, timeout: POLL_TIMEOUT }
    }

    /// Wakes up the receive ring, given what the poll call of [`SocketRx::wake_request`] came to.
    /// Returns the error to report, if there is one: a ring that could not be woken up is not fatal.
    pub fn wake(&mut self, ret: i32, errno: i32) -> (error: Option<PollError>)
        ensures
            *final(self) == *old(self),
            error is Some == (ret < 0),
            error is Some ==> error->Some_0.ret == ret && error->Some_0.errno == errno,
    {
        if ret < 0 {
            Some(PollError { ret, errno })
        } else {
            None
        }
    }

    /// How many packets to ask the receive ring for: at most `batch_size`, and no more than `bufs`
    /// has room for.
    pub fn quota(&self, bufs: &PendingBufs<'a, T>, batch_size: usize) -> (quota: usize)
        ensures
            quota == spec_min(PENDING_LEN - bufs@.len(), batch_size as int),
            bufs@.len() + quota <= PENDING_LEN,
            bufs@.len() + batch_size <= 4096 ==> quota == batch_size,
            bufs@.len() + batch_size > 4096 ==> quota == 4096 - bufs@.len(),
    {
        min(bufs.capacity() - bufs.len(), batch_size)
    }

    /// The number of bytes of a received frame that its buf covers.
    pub fn frame_len(&self) -> (len: usize)
        requires
            AF_XDP_RESERVED <= self.socket().umem().area().buf_len(),
        ensures
            len == self.socket().umem().area().buf_len() - AF_XDP_RESERVED,
    {
        self.socket.frame_len()
    }

    /// Attempt to receive up to `batch_size` buffers from the socket.
    ///
    /// `frames` are the packets that the receive ring had, which are at most as many as
    /// [`SocketRx::quota`] asks for, with [`SocketRx::frame_len`] bytes each. They are appended to
    /// `bufs` in their order. Returns how many there were.
    pub fn try_recv(
        &mut self,
        bufs: &mut PendingBufs<'a, T>,
        batch_size: usize,
        user: T,
        frames: Vec<RxFrame<'a>>,
    ) -> (r: Result<usize, SocketError>)
        requires
            frames@.len() <= spec_min(PENDING_LEN - old(bufs)@.len(), batch_size as int),
            forall|i: int|
                0 <= i < frames@.len() ==> {
                    &&& (#[trigger] frames@[i]).len <= u16::MAX
                    &&& frames@[i].data@.len() == old(self).socket().umem().area().buf_len()
                        - AF_XDP_RESERVED
                },
        ensures
            *final(self) == *old(self),
            r == Ok::<usize, SocketError>(frames@.len() as usize),
            frames_received(old(bufs)@, frames@, user, final(bufs)@),
            final(bufs)@.len() == old(bufs)@.len() + frames@.len(),
            forall|i: int|
                0 <= i < old(bufs)@.len() ==> #[trigger] final(bufs)@[i] == old(bufs)@[i],
            forall|i: int|
                old(bufs)@.len() <= i < final(bufs)@.len() ==> {
                    &&& (#[trigger] final(bufs)@[i]).addr == frames@[i - old(bufs)@.len()].addr
                    &&& final(bufs)@[i].len == frames@[i - old(bufs)@.len()].len
                    &&& final(bufs)@[i].data@ == frames@[i - old(bufs)@.len()].data@
                    &&& final(bufs)@[i].user == user
                },
            forall|i: int|
                0 <= i < frames@.len() ==> (#[trigger] final(frames@[i].data))@ == final(
                    final(bufs)@[old(bufs)@.len() + i].data
                )@,
    {
        let rcvd = frames.len();
        let ghost all = frames@;
        let ghost before = bufs@;
        for frame in it: frames
            invariant
                it.seq() == all,
                before.len() + all.len() <= PENDING_LEN,
                forall|i: int| 0 <= i < all.len() ==> (#[trigger] all[i]).len <= u16::MAX,
                bufs@.len() == before.len() + it.index(),
                bufs@.take(before.len() as int) == before,
                forall|i: int|
                    before.len() <= i < bufs@.len() ==> is_received(
                        all[i - before.len()],
                        user,
                        #[trigger] bufs@[i],
                    ),
                forall|i: int|
                    0 <= i < it.index() ==> (#[trigger] final(all[i].data))@ == final(
                        bufs@[before.len() + i].data
                    )@,
        {
            let ghost pushed = bufs@;
            let _ = bufs.push_back(
                BufMmap { addr: frame.addr, len: frame.len as u16, data: frame.data, user },
            );
            proof {
                assert(bufs@.take(before.len() as int) == pushed.take(before.len() as int));
            }
        }
        proof {
            assert(forall|i: int|
                0 <= i < before.len() ==> #[trigger] bufs@[i] == bufs@.take(before.len() as int)[i]);
        }
        Ok(rcvd)
    }
}

impl<'a, T: Default + Copy> SocketTx<'a, T> {
    /// The socket that this is the transmitting side of.
    pub closed spec fn socket(&self) -> Socket<'a, T> {
        *self.socket
    }

    /// The file descriptor of the socket.
    pub closed spec fn fd(&self) -> i32 {
        self.fd
    }

    /// How many slots to ask the transmit ring for: one for each buf, but at most `batch_size`. If it
    /// is zero there is nothing to send, and the ring is not to be touched.
    pub fn quota(&self, bufs: &PendingBufs<'a, T>, batch_size: usize) -> (quota: usize)
        ensures
            quota == spec_min(bufs@.len() as int, batch_size as int),
            batch_size <= bufs@.len() ==> quota == batch_size,
            batch_size > bufs@.len() ==> quota == bufs@.len(),
    {
        min(bufs.len(), batch_size)
    }

    /// Attempt to send up to `batch_size` buffers on the socket.
    ///
    /// Takes `ready` bufs from the front of `bufs`, one for each slot that the transmit ring made
    /// ready, and returns what to write to the slots.
    pub fn try_send(
        &mut self,
        bufs: &mut PendingBufs<'a, T>,
        batch_size: usize,
        ready: usize,
    ) -> (r: Result<TxBatch, SocketError>)
        requires
            ready <= spec_min(old(bufs)@.len() as int, batch_size as int),
        ensures
            *final(self) == *old(self),
            r is Ok,
            r matches Ok(batch) ==> {
                &&& bufs_sent(old(bufs)@, ready as int, batch.descs@, final(bufs)@)
                &&& batch.check_wakeup == (spec_min(old(bufs)@.len() as int, batch_size as int)
                    != 0)
                &&& batch.check_wakeup == (old(bufs)@.len() > 0 && batch_size > 0)
                &&& batch.descs@.len() == ready
                &&& forall|i: int|
                    0 <= i < ready ==> {
                        &&& (#[trigger] batch.descs@[i]).addr == old(bufs)@[i].addr
                        &&& batch.descs@[i].len == old(bufs)@[i].len
                    }
            },
            final(bufs)@ == old(bufs)@.skip(ready as int),
    {
        let quota = self.quota(bufs, batch_size);
        let ghost before = bufs@;
        let mut descs: Vec<TxDesc> = Vec::with_capacity(ready);
        let mut i: usize = 0;
        while i < ready
            invariant
                i <= ready <= before.len(),
                bufs@ == before.skip(i as int),
                descs@ == Seq::new(i as nat, |j: int| desc_of(before[j])),
            decreases ready - i,
        {
            let buf = bufs.pop_front().unwrap();
            descs.push(TxDesc { addr: buf.addr, len: buf.len as u32 });
            i += 1;
        }
        Ok(TxBatch { descs, check_wakeup: quota != 0 })
    }

    /// Identify if this socket needs to be woken up, given the flag that the transmit ring shows.
    pub fn needs_wakeup(&self, flag: i32) -> (needed: bool)
        ensures
            needed == (flag != 0),
    {
        flag != 0
    }

    /// The call that wakes up the transmit ring, if the flag that the ring shows asks for one.
    ///
    /// Whatever the call comes to, the ring then counts as woken up, unless [`wakeup_is_fatal`].
    pub fn wakeup_if_required(&self, flag: i32) -> (request: Option<WakeupRequest>)
        ensures
            request is Some == (flag != 0),
            request is Some ==> request->Some_0.fd == self.fd(),
    {
        if self.needs_wakeup(flag) {
            Some(WakeupRequest { fd: self.fd })
        } else {
            None
        }
    }
}

/// Packets leave in the order in which they were received: those that were already pending first, then
/// the new ones, from the first to the last.
pub proof fn law_first_in_first_out<'a, T: Default + Copy>(
    pending: Seq<BufMmap<'a, T>>,
    frames: Seq<RxFrame<'a>>,
    user: T,
    pending_between: Seq<BufMmap<'a, T>>,
    ready: int,
    descs: Seq<TxDesc>,
    pending_after: Seq<BufMmap<'a, T>>,
)
    requires
        frames_received(pending, frames, user, pending_between),
        bufs_sent(pending_between, ready, descs, pending_after),
    ensures
        descs.len() + pending_after.len() == pending.len() + frames.len(),
        forall|i: int|
            0 <= i < ready ==> if i < pending.len() {
                #[trigger] descs[i] == desc_of(pending[i])
            } else {
                &&& descs[i].addr == frames[i - pending.len()].addr
                &&& descs[i].len == frames[i - pending.len()].len
            },
        forall|i: int|
            ready <= i < pending.len() + frames.len() ==> if i < pending.len() {
                #[trigger] pending_after[i - ready] == pending[i]
            } else {
                is_received(frames[i - pending.len()], user, pending_after[i - ready])
            },
        forall|i: int|
            ready <= i < pending.len() + frames.len() && pending.len() <= i ==> {
                &&& (#[trigger] pending_after[i - ready]).addr == frames[i - pending.len()].addr
                &&& pending_after[i - ready].len == frames[i - pending.len()].len
                &&& pending_after[i - ready].data@ == frames[i - pending.len()].data@
                &&& pending_after[i - ready].user == user
            },
{
    assert forall|i: int| 0 <= i < pending.len() implies #[trigger] pending_between[i]
        == pending[i] by {
        assert(pending_between.take(pending.len() as int)[i] == pending[i]);
    }
}

/// Sending in two steps puts the same packets on the ring, in the same order, as sending in one.
pub proof fn law_sending_in_steps<'a, T: Default + Copy>(
    pending: Seq<BufMmap<'a, T>>,
    first: int,
    first_descs: Seq<TxDesc>,
    pending_between: Seq<BufMmap<'a, T>>,
    second: int,
    second_descs: Seq<TxDesc>,
    pending_after: Seq<BufMmap<'a, T>>,
)
    requires
        bufs_sent(pending, first, first_descs, pending_between),
        bufs_sent(pending_between, second, second_descs, pending_after),
    ensures
        bufs_sent(pending, first + second, first_descs + second_descs, pending_after),
{
    assert(first_descs + second_descs == Seq::new(
        (first + second) as nat,
        |i: int| desc_of(pending[i]),
    ));
    assert(pending_after == pending.skip(first + second));
}

/// The bind flags show which modes were asked for, and that the kernel is to tell when it has to be
/// woken up.
pub proof fn law_bind_flags(options: SocketOptions)
    ensures
        spec_bind_flags(options) & XDP_USE_NEED_WAKEUP != 0,
        (spec_bind_flags(options) & XDP_ZEROCOPY != 0) == options.zero_copy_mode,
        (spec_bind_flags(options) & XDP_COPY != 0) == options.copy_mode,
        spec_bind_flags(options) & !(XDP_USE_NEED_WAKEUP | XDP_ZEROCOPY | XDP_COPY) == 0,
        spec_bind_flags(options) == 8 + (if options.zero_copy_mode {
            4int
        } else {
            0
        }) + (if options.copy_mode {
            2int
        } else {
            0
        }),
{
    let flags = spec_bind_flags(options);
    let zero_copy = options.zero_copy_mode;
    let copy = options.copy_mode;
    assert(flags & 8 != 0 && (flags & 4 != 0) == zero_copy && (flags & 2 != 0) == copy && flags & !(
    8u16 | 4 | 2) == 0) by (bit_vector)
        requires
            !zero_copy && !copy ==> flags == 8,
            zero_copy && !copy ==> flags == 8u16 | 4,
            !zero_copy && copy ==> flags == 8u16 | 2,
            zero_copy && copy ==> flags == 8u16 | 4 | 2,
    ;
    assert(8u16 | 4 == 12 && 8u16 | 2 == 10 && 8u16 | 4 | 2 == 14) by (bit_vector);
}

/// Receiving leaves a packet as the NIC wrote it: of each frame the buf has the address, the length and
/// every byte. The bufs that were pending before are unchanged and stay in front.
pub proof fn law_received_bufs<'a, T: Default + Copy>(
    pending: Seq<BufMmap<'a, T>>,
    frames: Seq<RxFrame<'a>>,
    user: T,
    pending_after: Seq<BufMmap<'a, T>>,
    i: int,
    k: int,
)
    requires
        frames_received(pending, frames, user, pending_after),
    ensures
        pending_after.len() == pending.len() + frames.len(),
        0 <= i < pending.len() ==> pending_after[i] == pending[i],
        0 <= i < frames.len() ==> {
            &&& pending_after[pending.len() + i].addr == frames[i].addr
            &&& pending_after[pending.len() + i].len == frames[i].len
            &&& pending_after[pending.len() + i].data@.len() == frames[i].data@.len()
            &&& 0 <= k < frames[i].data@.len() ==> pending_after[pending.len() + i].data@[k]
                == frames[i].data@[k]
            &&& pending_after[pending.len() + i].user == user
        },
{
    if 0 <= i < pending.len() {
        assert(pending_after.take(pending.len() as int)[i] == pending[i]);
    }
    if 0 <= i < frames.len() {
        assert(is_received(frames[i], user, pending_after[pending.len() + i]));
    }
}

/// The transmit ring is told where each packet that leaves is and how long it is, the frontmost packet
/// first. The packets that do not leave keep their order.
pub proof fn law_sent_descs<'a, T: Default + Copy>(
    pending: Seq<BufMmap<'a, T>>,
    ready: int,
    descs: Seq<TxDesc>,
    pending_after: Seq<BufMmap<'a, T>>,
)
    requires
        bufs_sent(pending, ready, descs, pending_after),
    ensures
        0 <= ready <= pending.len(),
        descs.len() == ready,
        forall|i: int|
            0 <= i < ready ==> {
                &&& (#[trigger] descs[i]).addr == pending[i].addr
                &&& descs[i].len == pending[i].len
            },
        pending_after.len() == pending.len() - ready,
        forall|i: int|
            0 <= i < pending.len() - ready ==> #[trigger] pending_after[i] == pending[ready + i],
{
}

/// A request names the link and the queue, has a ring of the asked size for each size that is given, and
/// no other ring.
pub proof fn law_socket_request(
    request: SocketRequest,
    if_name: Seq<char>,
    queue: usize,
    rx_ring_size: Option<u32>,
    tx_ring_size: Option<u32>,
    options: SocketOptions,
)
    requires
        is_request(request, if_name, queue, rx_ring_size, tx_ring_size, options),
    ensures
        request.if_name@ == if_name,
        request.queue == queue as u32,
        request.rx == rx_ring_size is Some,
        request.tx == tx_ring_size is Some,
        rx_ring_size is Some ==> request.config.rx_size == rx_ring_size->Some_0,
        rx_ring_size is None ==> request.config.rx_size == 0,
        tx_ring_size is Some ==> request.config.tx_size == tx_ring_size->Some_0,
        tx_ring_size is None ==> request.config.tx_size == 0,
        request.config.xdp_flags == 1,
        request.config.libbpf_flags == 0,
        (request.config.bind_flags & 4 != 0) == options.zero_copy_mode,
        (request.config.bind_flags & 2 != 0) == options.copy_mode,
        request.config.bind_flags & 8 != 0,
{
    law_bind_flags(options);
}

}

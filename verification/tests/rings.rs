use std::sync::Arc;

use afxdp::buf_mmap::BufMmap;
use afxdp::mmap_area::{MmapArea, MmapError};
use afxdp::pending::PendingBufs;
use afxdp::socket::{
    wakeup_is_fatal, RxFrame, Socket, SocketNewError, SocketOptions, SocketReply, SocketRx,
    SocketTx, TxDesc, WakeupErrnos, WakeupReply,
};
use afxdp::umem::{
    service_quota, CompletedFrame, Umem, UmemCompletionQueue, UmemFillQueue, UmemNewError,
};
use afxdp::{AF_XDP_RESERVED, PENDING_LEN};

#[derive(Default, Copy, Clone, Debug)]
struct BufCustom {}

const BUF_NUM: usize = 1024;
const BUF_LEN: usize = 2048;
const FRAME_LEN: usize = BUF_LEN - AF_XDP_RESERVED as usize;

fn area_of(memory: &mut Vec<u8>) -> (Arc<MmapArea<BufCustom>>, Vec<BufMmap<BufCustom>>) {
    let r: Result<(Arc<MmapArea<BufCustom>>, Vec<BufMmap<BufCustom>>), MmapError> =
        MmapArea::new(BUF_NUM, BUF_LEN, Some(&mut memory[..]));
    match r {
        Ok((area, bufs)) => (area, bufs),
        Err(err) => panic!("{:?}", err),
    }
}

// Test with neither ring size as a power of two
#[test]
fn umem_ring_size1() {
    let mut memory = vec![0u8; BUF_NUM * BUF_LEN];
    let (area, _) = area_of(&mut memory);
    let r = Umem::new(area, 97, 997, 0);
    match r {
        Err(UmemNewError::RingNotPowerOfTwo) => {
            // Expected
        }
        Err(err) => panic!("wrong error: {:?}", err),
        Ok(_) => panic!("no error"),
    }
}

// Test with the first ring size not power of two and second as power of two
#[test]
fn ring_size2() {
    let mut memory = vec![0u8; BUF_NUM * BUF_LEN];
    let (area, _) = area_of(&mut memory);
    let r = Umem::new(area, 100, 1024, 0);
    match r {
        Err(UmemNewError::RingNotPowerOfTwo) => {
            // Expected
        }
        Err(err) => panic!("wrong error: {:?}", err),
        Ok(_) => panic!("no error"),
    }
}

// Test with the first ring size as a power of two and the second not
#[test]
fn ring_size3() {
    let mut memory = vec![0u8; BUF_NUM * BUF_LEN];
    let (area, _) = area_of(&mut memory);
    let r = Umem::new(area, 1024, 100, 0);
    match r {
        Err(UmemNewError::RingNotPowerOfTwo) => {
            // Expected
        }
        Err(err) => panic!("wrong error: {:?}", err),
        Ok(_) => panic!("no error"),
    }
}

// Test with both ring sizes as a power of two
#[test]
fn ring_size4() {
    let mut memory = vec![0u8; BUF_NUM * BUF_LEN];
    let (area, _) = area_of(&mut memory);
    let r = Umem::new(area, 1024, 1024, 0);
    match r {
        Err(err) => panic!("error: {:?}", err),
        Ok(_) => {
            // Expected
        }
    }
}

// Test the ring size constraints during socket creation
#[test]
fn socket_ring_size1() {
    let mut memory = vec![0u8; BUF_NUM * BUF_LEN];
    let (area, _) = area_of(&mut memory);

    let r = Umem::new(area, 1024, 1024, 0);
    let (umem, _cq, _fillq) = match r {
        Err(err) => panic!("{:?}", err),
        Ok((umem, cq, fq)) => (umem, cq, fq),
    };

    let options = SocketOptions::default();

    // There is no link of that name
    let no_such_device = SocketReply { ret: -19, errno: 19, fd: -1 };

    // With both rings set to a power of two, this should not fail with a power of two error.
    let mut rx_ring_size: u32 = 2048;
    let mut tx_ring_size: u32 = 2048;

    let r = Socket::new(
        umem.clone(),
        "link1",
        1,
        rx_ring_size,
        tx_ring_size,
        options,
        no_such_device,
    );
    match r {
        Err(SocketNewError::RingNotPowerOfTwo) => {
            panic!("this error should not have have been returned");
        }
        Err(err) => {
            // Expected
            assert_eq!(err, SocketNewError::Create(19));
        }
        Ok(_) => panic!("socket creation should have failed"),
    }

    // With the first not a power of two, it should fail.
    rx_ring_size = 101;
    tx_ring_size = 2048;

    let r = Socket::new(
        umem.clone(),
        "link1",
        1,
        rx_ring_size,
        tx_ring_size,
        options,
        no_such_device,
    );
    match r {
        Err(SocketNewError::RingNotPowerOfTwo) => {
            // Expected
        }
        Err(err) => panic!("wrong error: {:?}", err),
        Ok(_) => panic!("socket creation should have failed"),
    }

    // With the second not a power of two, it should fail.
    rx_ring_size = 2048;
    tx_ring_size = 149;

    let r = Socket::new(
        umem.clone(),
        "link1",
        1,
        rx_ring_size,
        tx_ring_size,
        options,
        no_such_device,
    );
    match r {
        Err(SocketNewError::RingNotPowerOfTwo) => {
            // Expected
        }
        Err(err) => panic!("wrong error: {:?}", err),
        Ok(_) => panic!("socket creation should have failed"),
    }

    // With both not a power of two it should fail.
    rx_ring_size = 1999;
    tx_ring_size = 149;

    let r = Socket::new(
        umem.clone(),
        "link1",
        1,
        rx_ring_size,
        tx_ring_size,
        options,
        no_such_device,
    );
    match r {
        Err(SocketNewError::RingNotPowerOfTwo) => {
            // Expected
        }
        Err(err) => panic!("wrong error: {:?}", err),
        Ok(_) => panic!("socket creation should have failed"),
    }
}

const MADE: SocketReply = SocketReply { ret: 0, errno: 0, fd: 7 };

fn small_umem(
    memory: &mut Vec<u8>,
) -> (
    Arc<Umem<BufCustom>>,
    UmemCompletionQueue<BufCustom>,
    UmemFillQueue<BufCustom>,
    Vec<BufMmap<BufCustom>>,
) {
    let (area, bufs) = area_of(memory);
    let (umem, cq, fq) = Umem::new(area, 64, 128, 0).unwrap();
    (umem, cq, fq, bufs)
}

fn sockets<'a>(
    umem: &Arc<Umem<'a, BufCustom>>,
) -> (SocketRx<'a, BufCustom>, SocketTx<'a, BufCustom>) {
    let options = SocketOptions::default();
    let (_, rx, tx) = Socket::new(umem.clone(), "veth1", 0, 64, 64, options, MADE).unwrap();
    (rx, tx)
}

#[test]
fn umem_request() {
    let mut memory = vec![0u8; BUF_NUM * BUF_LEN];
    let (area, _) = area_of(&mut memory);
    let request = Umem::create_request(&area, 64, 128).unwrap();
    assert_eq!(request.size, 2097152);
    assert_eq!(request.config.comp_size, 64);
    assert_eq!(request.config.fill_size, 128);
    assert_eq!(request.config.frame_size, 2048);
    assert_eq!(request.config.frame_headroom, 0);
    assert_eq!(request.config.flags, 0);
    assert_eq!(
        Umem::create_request(&area, 0, 128).unwrap_err(),
        UmemNewError::RingNotPowerOfTwo
    );
    assert_eq!(Umem::new(area, 64, 128, -12).unwrap_err(), UmemNewError::Create(-12));
}

#[test]
fn socket_request() {
    let mut options = SocketOptions::default();
    assert!(!options.zero_copy_mode && !options.copy_mode);
    assert_eq!(options.rx_ring_size + options.tx_ring_size, 0);

    let r = Socket::<u8>::create_request("veth1", 3, Some(64), Some(128), options).unwrap();
    assert_eq!(r.if_name, "veth1");
    assert_eq!(r.queue, 3);
    assert!(r.rx && r.tx);
    assert_eq!((r.config.rx_size, r.config.tx_size), (64, 128));
    assert_eq!(r.config.xdp_flags, 1);
    assert_eq!(r.config.bind_flags, 8);
    assert_eq!(r.config.libbpf_flags, 0);

    options.zero_copy_mode = true;
    let r = Socket::<u8>::create_request("veth1", 3, Some(64), None, options).unwrap();
    assert!(r.rx && !r.tx);
    assert_eq!((r.config.rx_size, r.config.tx_size), (64, 0));
    assert_eq!(r.config.bind_flags, 12);

    options.copy_mode = true;
    let r = Socket::<u8>::create_request("veth1", 3, None, Some(64), options).unwrap();
    assert!(!r.rx && r.tx);
    assert_eq!((r.config.rx_size, r.config.tx_size), (0, 64));
    assert_eq!(r.config.bind_flags, 14);

    options.zero_copy_mode = false;
    let r = Socket::<u8>::create_request("veth1", 3, None, Some(64), options).unwrap();
    assert_eq!(r.config.bind_flags, 10);

    let r = Socket::<u8>::create_request("veth1", 3, Some(0), None, options);
    assert_eq!(r.unwrap_err(), SocketNewError::RingNotPowerOfTwo);
}

#[test]
fn one_sided_sockets() {
    let mut memory = vec![0u8; BUF_NUM * BUF_LEN];
    let (umem, _, _, _) = small_umem(&mut memory);
    let options = SocketOptions::default();
    let refused = SocketReply { ret: -1, errno: 16, fd: -1 };

    let (_, rx) = Socket::new_rx(umem.clone(), "veth1", 0, 64, options, MADE).unwrap();
    assert_eq!(rx.wake_request().fd, 7);
    let r = Socket::new_rx(umem.clone(), "veth1", 0, 63, options, MADE);
    assert_eq!(r.unwrap_err(), SocketNewError::RingNotPowerOfTwo);
    let r = Socket::new_rx(umem.clone(), "veth1", 0, 64, options, refused);
    assert_eq!(r.unwrap_err(), SocketNewError::Create(16));

    let (_, tx) = Socket::new_tx(umem.clone(), "veth1", 0, 64, options, MADE).unwrap();
    assert_eq!(tx.wakeup_if_required(1).unwrap().fd, 7);
    let r = Socket::new_tx(umem.clone(), "veth1", 0, 63, options, MADE);
    assert_eq!(r.unwrap_err(), SocketNewError::RingNotPowerOfTwo);
    let r = Socket::new_tx(umem.clone(), "veth1", 0, 64, options, refused);
    assert_eq!(r.unwrap_err(), SocketNewError::Create(16));
}

#[test]
fn received_packets_are_sent_in_order() {
    let mut memory = vec![0u8; BUF_NUM * BUF_LEN];
    let mut packets = vec![0u8; 3 * FRAME_LEN];
    let (umem, _, _, _) = small_umem(&mut memory);
    let (mut rx, mut tx) = sockets(&umem);
    let mut pending = PendingBufs::new();

    assert_eq!(rx.quota(&pending, 64), 64);
    assert_eq!(rx.frame_len(), FRAME_LEN);
    let mut frames = Vec::new();
    for (i, data) in packets.chunks_mut(FRAME_LEN).enumerate() {
        data[0] = i as u8;
        frames.push(RxFrame { addr: 2048 * i as u64 + 256, len: 60 + i as u32, data });
    }
    assert_eq!(rx.try_recv(&mut pending, 64, BufCustom {}, frames), Ok(3));
    assert_eq!(pending.len(), 3);
    assert_eq!(rx.try_recv(&mut pending, 64, BufCustom {}, Vec::new()), Ok(0));

    assert_eq!(tx.quota(&pending, 2), 2);
    let batch = tx.try_send(&mut pending, 2, 2).unwrap();
    assert_eq!(
        batch.descs,
        vec![TxDesc { addr: 256, len: 60 }, TxDesc { addr: 2304, len: 61 }]
    );
    assert!(batch.check_wakeup);
    assert_eq!(pending.len(), 1);

    // The ring has no room
    let batch = tx.try_send(&mut pending, 2, 0).unwrap();
    assert_eq!(batch.descs, vec![]);
    assert!(batch.check_wakeup);

    let last = pending.pop_front().unwrap();
    assert_eq!((last.addr, last.len, last.data[0]), (4352, 62, 2));

    // There is nothing to send
    assert_eq!(tx.quota(&pending, 2), 0);
    let batch = tx.try_send(&mut pending, 2, 0).unwrap();
    assert_eq!(batch.descs, vec![]);
    assert!(!batch.check_wakeup);
}

#[test]
fn sending_in_steps() {
    let mut memory = vec![0u8; BUF_NUM * BUF_LEN];
    let (umem, _, _, bufs) = small_umem(&mut memory);
    let (_, mut tx) = sockets(&umem);
    let mut pending = PendingBufs::new();
    for buf in bufs.into_iter().take(4) {
        assert!(pending.push_back(buf).is_none());
    }
    let mut descs = tx.try_send(&mut pending, 3, 3).unwrap().descs;
    descs.append(&mut tx.try_send(&mut pending, 3, 1).unwrap().descs);
    let mut addrs = Vec::new();
    for desc in descs {
        assert_eq!(desc.len, 2048);
        addrs.push(desc.addr);
    }
    assert_eq!(addrs, vec![0, 2048, 4096, 6144]);
}

#[test]
fn receive_quota_leaves_room() {
    let mut memory = vec![0u8; BUF_NUM * BUF_LEN];
    let mut extra = vec![0u8; PENDING_LEN];
    let (umem, _, _, _) = small_umem(&mut memory);
    let (rx, _) = sockets(&umem);
    let mut pending = PendingBufs::new();
    for (i, data) in extra.chunks_mut(1).enumerate() {
        assert_eq!(rx.quota(&pending, 64), std::cmp::min(64, PENDING_LEN - i));
        pending.push_back(BufMmap { addr: 0, len: 1, data, user: BufCustom {} });
    }
    assert_eq!(rx.quota(&pending, 64), 0);
}

#[test]
fn completed_frames_become_bufs() {
    let mut memory = vec![0u8; BUF_NUM * BUF_LEN];
    let mut sent = vec![5u8; 2 * FRAME_LEN];
    let (_, mut cq, mut fq, _) = small_umem(&mut memory);
    assert_eq!(cq.frame_len(), FRAME_LEN);

    let mut bufs: Vec<BufMmap<BufCustom>> = Vec::with_capacity(10);
    assert_eq!(cq.quota(&bufs, 2), 2);
    assert!(cq.quota(&bufs, 1000) >= 10);
    assert_eq!(cq.quota(&Vec::new(), 64), 0);

    let mut completed = Vec::new();
    for (i, data) in sent.chunks_mut(FRAME_LEN).enumerate() {
        completed.push(CompletedFrame { addr: 2048 * i as u64, data });
    }
    assert_eq!(cq.service(&mut bufs, 2, completed), Ok(2));
    assert_eq!(bufs.len(), 2);
    assert_eq!((bufs[0].addr, bufs[0].len), (256, 0));
    assert_eq!((bufs[1].addr, bufs[1].len), (2304, 0));
    assert_eq!(bufs[1].data.len(), FRAME_LEN);
    assert_eq!(bufs[1].data[7], 5);

    // The one that came back last is used first
    assert_eq!(fq.fill(&mut bufs, 1, 1).unwrap(), vec![2304]);
    assert_eq!(bufs.len(), 1);
}

#[test]
fn service_quota_values() {
    assert_eq!(service_quota(10, 4, 64), 6);
    assert_eq!(service_quota(10, 4, 5), 5);
    assert_eq!(service_quota(10, 10, 64), 0);
}

#[test]
fn fill_takes_from_the_end() {
    let mut memory = vec![0u8; BUF_NUM * BUF_LEN];
    let (_, _, mut fq, mut bufs) = small_umem(&mut memory);
    assert_eq!(fq.quota(&bufs, 3), 3);
    assert_eq!(fq.quota(&bufs, 5000), 1024);
    let addrs = fq.fill(&mut bufs, 3, 3).unwrap();
    assert_eq!(addrs, vec![1023 * 2048, 1022 * 2048, 1021 * 2048]);
    assert_eq!(bufs.len(), 1021);
    assert_eq!(fq.fill(&mut bufs, 3, 0).unwrap(), vec![]);
    assert_eq!(bufs.len(), 1021);
}

#[test]
fn filling_in_steps() {
    let mut memory = vec![0u8; BUF_NUM * BUF_LEN];
    let (_, _, mut fq, mut bufs) = small_umem(&mut memory);
    let mut addrs = fq.fill(&mut bufs, 2, 2).unwrap();
    addrs.append(&mut fq.fill(&mut bufs, 9, 1).unwrap());
    assert_eq!(addrs, vec![1023 * 2048, 1022 * 2048, 1021 * 2048]);
}

#[test]
fn wakeups() {
    let errnos = WakeupErrnos { enobufs: 105, eagain: 11, ebusy: 16, enetdown: 100 };
    let mut memory = vec![0u8; BUF_NUM * BUF_LEN];
    let (umem, _, fq, _) = small_umem(&mut memory);
    let (mut rx, tx) = sockets(&umem);

    assert!(fq.needs_wakeup(1));
    assert!(!fq.needs_wakeup(0));
    assert!(tx.needs_wakeup(1));
    assert!(!tx.needs_wakeup(0));
    assert!(tx.wakeup_if_required(0).is_none());
    assert_eq!(tx.wakeup_if_required(1).unwrap().fd, 7);

    assert!(!errnos.is_fatal(WakeupReply { ret: 0, errno: 1 }));
    for errno in [105, 11, 16, 100] {
        assert!(!errnos.is_fatal(WakeupReply { ret: -1, errno }));
    }
    assert!(errnos.is_fatal(WakeupReply { ret: -1, errno: 9 }));
    for errno in [libc::ENOBUFS, libc::EAGAIN, libc::EBUSY, libc::ENETDOWN] {
        assert!(!wakeup_is_fatal(WakeupReply { ret: -1, errno }));
    }
    assert!(!wakeup_is_fatal(WakeupReply { ret: -1, errno: 11 }));
    assert!(!wakeup_is_fatal(WakeupReply { ret: -1, errno: 16 }));
    assert!(wakeup_is_fatal(WakeupReply { ret: -1, errno: libc::EBADF }));
    assert!(!wakeup_is_fatal(WakeupReply { ret: 1, errno: libc::EBADF }));

    let request = rx.wake_request();
    assert_eq!((request.fd, request.timeout), (7, 0));
    assert!(rx.wake(0, 4).is_none());
    assert!(rx.wake(1, 4).is_none());
    let error = rx.wake(-1, 4).unwrap();
    assert_eq!((error.ret, error.errno), (-1, 4));
}

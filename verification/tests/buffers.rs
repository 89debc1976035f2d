use afxdp::buf::Buf;
use afxdp::buf_mmap::BufMmap;
use afxdp::buf_pool::BufPool;
use afxdp::buf_pool_vec::BufPoolVec;
use afxdp::buf_vec::BufVec;
use afxdp::pending::PendingBufs;
use afxdp::util::{append_decimal, is_pow_of_two, min};
use afxdp::PENDING_LEN;

#[derive(Default, Copy, Clone, Debug)]
struct BufCustom {}

#[test]
fn buf_pool_vec_put1() {
    const NUM: usize = 97;

    let mut bufs = Vec::with_capacity(97);
    for _ in 0..NUM {
        let buf: BufVec<BufCustom> = BufVec::new(NUM, BufCustom {});
        bufs.push(buf);
    }

    let mut bufpool = BufPoolVec::new(bufs.len());

    let len = bufs.len();
    let r = bufpool.put(&mut bufs, len);
    assert!(r == NUM);
    assert!(bufpool.len() == NUM);

    let r = bufpool.get(&mut bufs, NUM);
    assert!(r == NUM);
    assert!(bufpool.len() == 0);
    assert!(bufs.len() == NUM);
}

fn numbered(num: u32) -> Vec<BufVec<u32>> {
    let mut bufs = Vec::new();
    for i in 0..num {
        bufs.push(BufVec::new(1, i));
    }
    bufs
}

fn numbers(bufs: &Vec<BufVec<u32>>) -> Vec<u32> {
    let mut out = Vec::new();
    for buf in bufs {
        out.push(*buf.get_user());
    }
    out
}

#[test]
fn pool_moves_the_tail_in_order() {
    let mut bufs = numbered(5);
    let mut pool: BufPoolVec<BufVec<u32>, u32> = BufPoolVec::new(0);
    assert!(pool.is_empty());

    assert_eq!(pool.put(&mut bufs, 3), 3);
    assert_eq!(numbers(&bufs), vec![0, 1]);
    assert_eq!(pool.len(), 3);
    assert!(!pool.is_empty());

    assert_eq!(pool.get(&mut bufs, 2), 2);
    assert_eq!(numbers(&bufs), vec![0, 1, 3, 4]);
    assert_eq!(pool.len(), 1);
}

#[test]
fn pool_round_trip_restores_both_sides() {
    let mut bufs = numbered(6);
    let mut pool: BufPoolVec<BufVec<u32>, u32> = BufPoolVec::new(6);
    pool.put(&mut bufs, 2);

    let count = pool.put(&mut bufs, 3);
    assert_eq!(count, 3);
    assert_eq!(pool.get(&mut bufs, count), 3);
    assert_eq!(numbers(&bufs), vec![0, 1, 2, 3]);

    let mut rest = Vec::new();
    pool.get(&mut rest, 10);
    assert_eq!(numbers(&rest), vec![4, 5]);
}

#[test]
fn pool_gives_and_takes_no_more_than_there_is() {
    let mut bufs = numbered(2);
    let mut pool: BufPoolVec<BufVec<u32>, u32> = BufPoolVec::new(1);
    assert_eq!(pool.get(&mut bufs, 7), 0);
    assert_eq!(pool.put(&mut bufs, 0), 0);
    assert_eq!(pool.put(&mut bufs, 7), 2);
    assert_eq!(bufs.len(), 0);
    assert_eq!(pool.put(&mut bufs, 1), 0);
    assert_eq!(pool.get(&mut bufs, 7), 2);
    assert!(pool.is_empty());
}

#[test]
fn pool_put_buf_adds_at_the_end() {
    let mut bufs = numbered(2);
    let mut pool: BufPoolVec<BufVec<u32>, u32> = BufPoolVec::new(3);
    pool.put(&mut bufs, 2);
    assert_eq!(pool.put_buf(BufVec::new(1, 9)), 1);
    pool.get(&mut bufs, 3);
    assert_eq!(numbers(&bufs), vec![0, 1, 9]);
}

#[test]
fn buf_vec_accessors() {
    let mut buf = BufVec::new(97, 5u8);
    assert_eq!(buf.get_capacity(), 97);
    assert_eq!(buf.get_len(), 0);
    assert_eq!(buf.get_data().len(), 97);
    assert!(buf.get_data().iter().all(|b| *b == 0));

    buf.set_len(60);
    buf.get_data_mut()[3] = 7;
    *buf.get_user_mut() = 6;
    assert_eq!(buf.get_len(), 60);
    assert_eq!(buf.get_data()[3], 7);
    assert_eq!(buf.get_data()[2], 0);
    assert_eq!(*buf.get_user(), 6);
}

#[test]
fn buf_vec_capacity_limit_and_default() {
    assert_eq!(BufVec::new(65535, ()).get_capacity(), 65535);
    let buf: BufVec<u32> = Default::default();
    assert_eq!(buf.get_capacity(), 0);
    assert_eq!(buf.get_len(), 0);
    assert_eq!(*buf.get_user(), 0);
}

#[test]
fn buf_mmap_accessors() {
    let mut memory = vec![1u8, 2, 3, 4];
    {
        let mut buf = BufMmap { addr: 4096, len: 2, data: &mut memory[..], user: 5u8 };
        assert_eq!(buf.get_capacity(), 4);
        assert_eq!(buf.get_len(), 2);
        assert_eq!(buf.get_data(), &[1u8, 2, 3, 4][..]);
        buf.set_len(4);
        buf.get_data_mut()[1] = 9;
        *buf.get_user_mut() = 6;
        assert_eq!(buf.get_len(), 4);
        assert_eq!(*buf.get_user(), 6);
        assert_eq!(buf.addr, 4096);
    }
    assert_eq!(memory, vec![1u8, 9, 3, 4]);
}

#[test]
fn buf_mmap_description() {
    let mut memory = vec![0u8; 4];
    let buf = BufMmap { addr: 18446744073709551615, len: 60, data: &mut memory[..], user: () };
    assert_eq!(
        buf.describe("0x7f00"),
        "BufMMap addr=18446744073709551615 len=60 data=0x7f00"
    );
}

#[test]
fn decimal_notation() {
    for n in [0u64, 7, 10, 19, 100, 4096, 1234567890] {
        let mut text = "n=".to_string();
        append_decimal(&mut text, n);
        assert_eq!(text, format!("n={}", n));
    }
}

#[test]
fn powers_of_two() {
    let mut found = Vec::new();
    for val in 0u32..70 {
        if is_pow_of_two(val) {
            found.push(val);
        }
    }
    assert_eq!(found, vec![1, 2, 4, 8, 16, 32, 64]);
    assert!(is_pow_of_two(1 << 31));
    assert!(!is_pow_of_two(u32::MAX));
    assert_eq!(min(3, 4), 3);
    assert_eq!(min(4, 3), 3);
}

#[test]
fn pending_is_a_queue() {
    let mut memory = vec![0u8; 3];
    let mut pending: PendingBufs<u8> = PendingBufs::new();
    assert!(pending.is_empty());
    assert_eq!(pending.capacity(), PENDING_LEN);
    assert!(pending.pop_front().is_none());

    for (i, data) in memory.chunks_mut(1).enumerate() {
        let evicted = pending.push_back(BufMmap { addr: i as u64, len: 1, data, user: 0 });
        assert!(evicted.is_none());
    }
    assert_eq!(pending.len(), 3);
    assert!(!pending.is_empty());
    for i in 0..3u64 {
        assert_eq!(pending.pop_front().unwrap().addr, i);
    }
    assert!(pending.is_empty());
}

#[test]
fn full_pending_gives_up_its_front() {
    let mut memory = vec![0u8; PENDING_LEN + 1];
    let mut pending: PendingBufs<u8> = PendingBufs::new();
    for (i, data) in memory.chunks_mut(1).enumerate() {
        let evicted = pending.push_back(BufMmap { addr: i as u64, len: 1, data, user: 0 });
        if i < PENDING_LEN {
            assert!(evicted.is_none());
        } else {
            assert_eq!(evicted.unwrap().addr, 0);
        }
    }
    assert_eq!(pending.len(), PENDING_LEN);
    assert_eq!(pending.pop_front().unwrap().addr, 1);
}

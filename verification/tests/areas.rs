use std::convert::TryInto;
use std::sync::{Arc, Mutex};

use afxdp::buf_mmap::BufMmap;
use afxdp::buf_pool::BufPool as _;
use afxdp::buf_pool_vec::BufPoolVec;
use afxdp::bufpool::{BufPool, PoolBuf};
use afxdp::frames::split_frames;
use afxdp::mmap_area::{
    mmap_request, MmapArea, MmapAreaOptions, MmapCodes, MmapError,
};
use afxdp::mmaparea;

#[derive(Default, Copy, Clone, Debug)]
struct BufCustom {}

const CODES: MmapCodes = MmapCodes {
    prot_read: 1,
    prot_write: 2,
    map_private: 2,
    map_anonymous: 32,
    map_hugetlb: 262144,
};

#[test]
fn bufs_to_pool() {
    const BUF_NUM: usize = 10;

    let options = MmapAreaOptions { huge_tlb: false };
    let request = mmap_request(BUF_NUM, 8, &options);
    let mut memory = vec![0u8; request.len];
    let r: Result<(Arc<MmapArea<BufCustom>>, Vec<BufMmap<BufCustom>>), MmapError> =
        MmapArea::new(BUF_NUM, 8, Some(&mut memory[..]));

    let (area, mut bufs) = match r {
        Ok((area, bufs)) => (area, bufs),
        Err(err) => panic!("{:?}", err),
    };

    assert_eq!(area.get_buf_num(), BUF_NUM);
    assert_eq!(area.get_buf_len(), 8);
    assert_eq!(bufs.len(), BUF_NUM);

    let mut pool = BufPoolVec::new(BUF_NUM);

    let r = pool.put(&mut bufs, area.get_buf_num());
    assert_eq!(r, BUF_NUM);
    assert_eq!(pool.len(), BUF_NUM);
}

#[test]
fn mmap_area_buf_values() {
    const BUF_NUM: usize = 88;

    let options = MmapAreaOptions { huge_tlb: false };
    let request = mmap_request(BUF_NUM, 8, &options);
    let mut memory = vec![0u8; request.len];
    let r: Result<(Arc<MmapArea<BufCustom>>, Vec<BufMmap<BufCustom>>), MmapError> =
        MmapArea::new(BUF_NUM, 8, Some(&mut memory[..]));

    let (area, mut bufs) = match r {
        Ok((area, buf_pool)) => (area, buf_pool),
        Err(err) => panic!("{:?}", err),
    };

    assert_eq!(area.get_buf_num(), BUF_NUM);
    assert_eq!(area.get_buf_len(), 8);
    assert_eq!(bufs.len(), BUF_NUM);

    //
    // Write a value to each buf and then ensure we read the same values out
    //
    let base: u64 = 3983989832773837873;

    for (i, buf) in bufs.iter_mut().enumerate() {
        let val = i as u64 + base;
        let bytes = val.to_ne_bytes();
        buf.data[0] = bytes[0];
        buf.data[1] = bytes[1];
        buf.data[2] = bytes[2];
        buf.data[3] = bytes[3];
        buf.data[4] = bytes[4];
        buf.data[5] = bytes[5];
        buf.data[6] = bytes[6];
        buf.data[7] = bytes[7];
    }

    for (i, buf) in bufs.iter_mut().enumerate() {
        let val: u64 = i as u64 + base;

        let (int_bytes, _rest) = buf.data.split_at(std::mem::size_of::<u64>());
        let val2 = u64::from_ne_bytes(int_bytes.try_into().unwrap());

        assert_eq!(val, val2);
    }
}

#[test]
fn mmaparea_buf_values() {
    let options = MmapAreaOptions { huge_tlb: false };
    let request = mmaparea::mmap_request(10, 8, &options);
    let mut memory = vec![0u8; request.len];
    let r: Result<(Arc<mmaparea::MmapArea<BufCustom>>, BufPool<BufCustom>), MmapError> =
        mmaparea::MmapArea::new(10, 8, Some(&mut memory[..]));

    let (area, buf_pool) = match r {
        Ok((area, buf_pool)) => (area, Arc::new(Mutex::new(buf_pool))),
        Err(err) => panic!("{:?}", err),
    };

    assert_eq!(area.buf_num, 10);
    assert_eq!(area.buf_len, 8);

    assert_eq!(buf_pool.lock().unwrap().len(), 10);

    let mut bufs = Vec::with_capacity(10);
    let r = buf_pool.lock().unwrap().get(&mut bufs, 10);
    match r {
        Ok(_) => {}
        Err(err) => panic!("error: {:?}", err),
    }

    assert_eq!(buf_pool.lock().unwrap().len(), 0);
    assert_eq!(bufs.len(), 10);

    //
    // Write a value to each buf and then ensure we read the same values out
    //
    let base: u64 = 3983989832773837873;

    for (i, buf) in bufs.iter_mut().enumerate() {
        let val = i as u64 + base;
        let bytes = val.to_ne_bytes();
        buf.data[0] = bytes[0];
        buf.data[1] = bytes[1];
        buf.data[2] = bytes[2];
        buf.data[3] = bytes[3];
        buf.data[4] = bytes[4];
        buf.data[5] = bytes[5];
        buf.data[6] = bytes[6];
        buf.data[7] = bytes[7];
    }

    for (i, buf) in bufs.iter_mut().enumerate() {
        let val: u64 = i as u64 + base;

        let (int_bytes, _rest) = buf.data.split_at(std::mem::size_of::<u64>());
        let val2 = u64::from_ne_bytes(int_bytes.try_into().unwrap());

        assert_eq!(val, val2);
    }
}

#[test]
fn mapping_is_private_and_anonymous() {
    let request = CODES.request(1024, 2048, &MmapAreaOptions { huge_tlb: false });
    assert_eq!(request.len, 2097152);
    assert_eq!(request.prot, 3);
    assert_eq!(request.flags, 34);
    assert_eq!(request.fd, -1);
    assert_eq!(request.offset, 0);

    let request = CODES.request(1024, 2048, &MmapAreaOptions { huge_tlb: true });
    assert_eq!(request.flags, 262178);

    let options: MmapAreaOptions = Default::default();
    assert!(!options.huge_tlb);
}

#[test]
fn mapping_on_this_host() {
    let request = mmap_request(3, 5, &MmapAreaOptions { huge_tlb: false });
    assert_eq!(request.len, 15);
    assert_eq!(request.prot, libc::PROT_READ | libc::PROT_WRITE);
    assert_eq!(request.prot, 3);
    assert_eq!(request.flags, libc::MAP_PRIVATE | libc::MAP_ANONYMOUS);
    assert_eq!(request.flags & 0xc0000, 0);
    let request = mmap_request(3, 5, &MmapAreaOptions { huge_tlb: true });
    assert_eq!(
        request.flags,
        libc::MAP_PRIVATE | libc::MAP_ANONYMOUS | libc::MAP_HUGETLB
    );
}

#[test]
fn nothing_mapped_is_an_error() {
    let r: Result<(Arc<MmapArea<u8>>, Vec<BufMmap<u8>>), MmapError> = MmapArea::new(10, 8, None);
    assert_eq!(r.unwrap_err(), MmapError::Failed);
    let r: Result<(Arc<mmaparea::MmapArea<u8>>, BufPool<u8>), MmapError> =
        mmaparea::MmapArea::new(10, 8, None);
    assert_eq!(r.unwrap_err(), MmapError::Failed);
}

#[test]
fn bufs_of_an_area() {
    let mut memory: Vec<u8> = (0..12).collect();
    {
        let r: Result<(Arc<MmapArea<u32>>, Vec<BufMmap<u32>>), MmapError> =
            MmapArea::new(3, 4, Some(&mut memory[..]));
        let (area, mut bufs) = r.unwrap();
        assert_eq!(area.get_size(), 12);
        for (i, buf) in bufs.iter().enumerate() {
            assert_eq!(buf.addr, 4 * i as u64);
            assert_eq!(buf.len, 4);
            assert_eq!(buf.user, 0);
            assert_eq!(buf.data.len(), 4);
            assert_eq!(buf.data[1], 4 * i as u8 + 1);
        }
        bufs[1].data[2] = 99;
    }
    assert_eq!(memory, vec![0, 1, 2, 3, 4, 5, 99, 7, 8, 9, 10, 11]);
}

#[test]
fn area_without_bufs() {
    let mut memory: Vec<u8> = Vec::new();
    let r: Result<(Arc<MmapArea<u32>>, Vec<BufMmap<u32>>), MmapError> =
        MmapArea::new(0, 100000, Some(&mut memory[..]));
    let (area, bufs) = r.unwrap();
    assert_eq!(bufs.len(), 0);
    assert_eq!(area.get_size(), 0);
}

#[test]
fn write_to_one_frame_shows_in_no_other() {
    let mut memory: Vec<u8> = (0..12).collect();
    {
        let mut frames = split_frames(&mut memory[..], 4, 3);
        frames[2].copy_from_slice(&[50, 51, 52]);
        assert_eq!(frames[1], &[3u8, 4, 5][..]);
        assert_eq!(frames[2], &[50u8, 51, 52][..]);
        assert_eq!(frames[3], &[9u8, 10, 11][..]);
    }
    assert_eq!(memory, vec![0, 1, 2, 3, 4, 5, 50, 51, 52, 9, 10, 11]);
}

#[test]
fn frames_divide_the_region() {
    let mut memory: Vec<u8> = (0..6).collect();
    let frames = split_frames(&mut memory[..], 3, 2);
    assert_eq!(frames.len(), 3);
    assert_eq!(frames[0], &[0u8, 1][..]);
    assert_eq!(frames[1], &[2u8, 3][..]);
    assert_eq!(frames[2], &[4u8, 5][..]);
}

fn pool_of(memory: &mut [u8]) -> BufPool<u8> {
    let num = memory.len() / 2;
    let r: Result<(Arc<mmaparea::MmapArea<u8>>, BufPool<u8>), MmapError> =
        mmaparea::MmapArea::new(num, 2, Some(memory));
    r.unwrap().1
}

fn addrs(bufs: &Vec<PoolBuf<u8>>) -> Vec<u64> {
    let mut out = Vec::new();
    for buf in bufs {
        assert_eq!(buf.len, 2);
        out.push(buf.addr);
    }
    out
}

#[test]
fn area_pool_moves_the_last_one_first() {
    let mut memory = vec![0u8; 10];
    let mut pool = pool_of(&mut memory[..]);
    let mut bufs = Vec::new();
    assert!(!pool.is_empty());

    assert_eq!(pool.get(&mut bufs, 3), Ok(3));
    assert_eq!(addrs(&bufs), vec![4, 3, 2]);
    assert_eq!(pool.len(), 2);

    assert_eq!(pool.put(&mut bufs, 2), Ok(2));
    assert_eq!(addrs(&bufs), vec![4]);
    assert_eq!(pool.get(&mut bufs, 9), Ok(4));
    assert_eq!(addrs(&bufs), vec![4, 3, 2, 1, 0]);
    assert!(pool.is_empty());
}

#[test]
fn area_pool_round_trip() {
    let mut memory = vec![0u8; 10];
    let mut pool = pool_of(&mut memory[..]);
    let mut bufs = Vec::new();
    pool.get(&mut bufs, 4).unwrap();
    let count = pool.put(&mut bufs, 3).unwrap();
    assert_eq!(pool.get(&mut bufs, count), Ok(3));
    assert_eq!(addrs(&bufs), vec![4, 3, 2, 1]);
    assert_eq!(pool.len(), 1);
}

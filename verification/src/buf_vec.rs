use vstd::prelude::*;

use crate::buf::Buf;

verus! {

/// A [`Buf`] that owns its bytes. It is easier to use in tests than a buffer in a mapped area,
/// because it does not need any of the AF_XDP infrastructure.
#[derive(Debug)]
pub struct BufVec<T> where T: Default {
    data: Vec<u8>,
    len: u16,
    user: T,
}

impl<T> BufVec<T> where T: Default {
    /// Makes a buffer of `capacity` zero bytes that holds no packet data.
    pub fn new(capacity: usize, user: T) -> (buf: BufVec<T>)
        ensures
            buf.bytes() == Seq::new(capacity as nat, |i: int| 0u8),
            buf.packet_len() == 0,
            buf.user_value() == user,
    {
        BufVec { data: vec![0; capacity], len: 0, user }
    }
}

impl<T> Default for BufVec<T> where T: Default {
    fn default() -> (buf: Self)
        ensures
            buf.bytes() == Seq::<u8>::empty(),
            buf.packet_len() == 0,
            call_ensures(T::default, (), buf.user_value()),
    {
        BufVec { data: Vec::new(), len: 0, user: T::default() }
    }
}

impl<T> Buf<T> for BufVec<T> where T: Default {
    closed spec fn bytes(&self) -> Seq<u8> {
        self.data@
    }

    closed spec fn packet_len(&self) -> u16 {
        self.len
    }

    closed spec fn user_value(&self) -> T {
        self.user
    }

    fn get_data(&self) -> &[u8] {
        self.data.as_slice()
    }

    fn get_data_mut(&mut self) -> &mut [u8] {
        self.data.as_mut_slice()
    }

    fn get_capacity(&self) -> u16 {
        self.data.len() as u16
    }

    fn get_len(&self) -> u16 {
        self.len
    }

    fn set_len(&mut self, len: u16) {
        self.len = len;
    }

    fn get_user(&self) -> &T {
        &self.user
    }

    fn get_user_mut(&mut self) -> &mut T {
        &mut self.user
    }
}

}

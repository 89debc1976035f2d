use vstd::prelude::*;

use crate::buf::Buf;
use crate::util::{append_decimal, decimal};

verus! {

/// The primary implementation of [`Buf`] for use with AF_XDP sockets: a buffer in a mapped area.
#[derive(Debug)]
pub struct BufMmap<'a, T> where T: Default {
    /// addr is the address in the umem area (offset into area)
    pub addr: u64,
    /// len is the length of the buffer that is valid packet data
    pub len: u16,
    /// data is the slice of u8 that contains the packet data
    pub data: &'a mut [u8],
    /// user is the user defined type
    pub user: T,
}

impl<'a, T> BufMmap<'a, T> where T: Default {
    /// Describes the buffer by its fields. The data is described by `data_at`, which tells where its
    /// first byte is.
    pub fn describe(&self, data_at: &str) -> (text: String)
        ensures
            text@ == "BufMMap addr="@ + decimal(self.addr as nat) + " len="@ + decimal(
                self.len as nat,
            ) + " data="@ + data_at@,
    {
        let mut text = "BufMMap addr=".to_owned();
        append_decimal(&mut text, self.addr);
        text.append(" len=");
        append_decimal(&mut text, self.len as u64);
        text.append(" data=");
        text.append(data_at);
        text
    }
}

impl<'a, T> Buf<T> for BufMmap<'a, T> where T: Default {
    open spec fn bytes(&self) -> Seq<u8> {
        self.data@
    }

    open spec fn packet_len(&self) -> u16 {
        self.len
    }

    open spec fn user_value(&self) -> T {
        self.user
    }

    fn get_data(&self) -> &[u8] {
        &*self.data
    }

    fn get_data_mut(&mut self) -> (data: &mut [u8])
        ensures
            final(self).addr == old(self).addr,
            final(final(self).data)@ == final(old(self).data)@,
    {
        &mut *self.data
    }

    fn get_capacity(&self) -> u16 {
        self.data.len() as u16
    }

    fn get_len(&self) -> u16 {
        self.len
    }

    fn set_len(&mut self, len: u16)
        ensures
            final(self).addr == old(self).addr,
            final(final(self).data)@ == final(old(self).data)@,
    {
        self.len = len;
    }

    fn get_user(&self) -> &T {
        &self.user
    }

    fn get_user_mut(&mut self) -> (user: &mut T)
        ensures
            final(self).addr == old(self).addr,
            final(final(self).data)@ == final(old(self).data)@,
    {
        &mut self.user
    }
}

/// What buffers in a mapped area hold is what their fields say.
pub proof fn law_fields<'a, T: Default>(bufs: Seq<BufMmap<'a, T>>, i: int)
    ensures
        bufs[i].bytes() == bufs[i].data@,
        bufs[i].packet_len() == bufs[i].len,
        bufs[i].user_value() == bufs[i].user,
{
}

}

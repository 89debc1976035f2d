use vstd::prelude::*;

verus! {

/// A packet buffer: some bytes, the length of the packet that they hold, and a value of the user's.
pub trait Buf<T> where T: Default {
    /// All bytes of the buffer.
    spec fn bytes(&self) -> Seq<u8>;

    /// The length of the portion that contains packet data.
    spec fn packet_len(&self) -> u16;

    /// The embedded user value.
    spec fn user_value(&self) -> T;

    /// Returns a reference to the u8 slice of the buffer
    fn get_data(&self) -> (data: &[u8])
        ensures
            data@ == self.bytes(),
    ;

    /// Returns a mutable reference to the u8 slice of the buffer
    fn get_data_mut(&mut self) -> (data: &mut [u8])
        ensures
            data@ == old(self).bytes(),
            final(self).bytes() == final(data)@,
            final(self).packet_len() == old(self).packet_len(),
            final(self).user_value() == old(self).user_value(),
    ;

    /// Returns the total capacity of the buffer
    fn get_capacity(&self) -> (capacity: u16)
        requires
            self.bytes().len() <= u16::MAX,
        ensures
            capacity == self.bytes().len(),
    ;

    /// Returns the length of the portion of the buffer that contains packet data
    fn get_len(&self) -> (len: u16)
        ensures
            len == self.packet_len(),
    ;

    /// Sets the length of the portion of the buffer that contains packet data
    fn set_len(&mut self, len: u16)
        ensures
            final(self).packet_len() == len,
            final(self).bytes() == old(self).bytes(),
            final(self).user_value() == old(self).user_value(),
    ;

    /// Returns a reference to the embedded user value
    fn get_user(&self) -> (user: &T)
        ensures
            *user == self.user_value(),
    ;

    /// Returns a mutable reference to the embedded user value
    fn get_user_mut(&mut self) -> (user: &mut T)
        ensures
            *user == old(self).user_value(),
            final(self).user_value() == *final(user),
            final(self).bytes() == old(self).bytes(),
            final(self).packet_len() == old(self).packet_len(),
    ;
}

}

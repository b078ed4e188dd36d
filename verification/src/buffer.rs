//! Transfer buffers: fixed-size byte buffers that the processor and the
//! transfer peripheral own in turn.

use crate::fault::Fault;
use vstd::prelude::*;

verus! {

/// A buffer of `N` bytes that is either free, and then the processor's to
/// read and write, or in transfer, and then the peripheral's alone.
#[derive(Clone, Debug)]
pub struct Buffer<const N: usize> {
    data: [u8; N],
    in_transfer: bool,
}

/// What a buffer is, mathematically: its bytes and its owner.
pub struct BufferView {
    /// The bytes, `N` of them.
    pub data: Seq<u8>,
    /// Whether the transfer peripheral owns the buffer.
    pub in_transfer: bool,
}

impl<const N: usize> View for Buffer<N> {
    type V = BufferView;

    closed spec fn view(&self) -> BufferView {
        BufferView { data: self.data@, in_transfer: self.in_transfer }
    }
}

impl<const N: usize> Buffer<N> {
    /// A free buffer that holds `data`.
    pub fn new(data: [u8; N]) -> (buffer: Self)
        ensures
            buffer@.data == data@,
            !buffer@.in_transfer,
    {
        Buffer { data, in_transfer: false }
    }

    /// Whether the transfer peripheral owns the buffer.
    pub fn in_transfer(&self) -> (b: bool)
        ensures
            b == self@.in_transfer,
    {
        self.in_transfer
    }

    /// The bytes of the buffer, to read. A buffer in transfer yields
    /// nothing.
    pub fn borrow(&self) -> (bytes: Option<&[u8; N]>)
        ensures
            bytes is Some <==> !self@.in_transfer,
            bytes matches Some(b) ==> b@ == self@.data,
    {
        if self.in_transfer {
            None
        } else {
            Some(&self.data)
        }
    }

    /// Replaces the bytes of a free buffer. A buffer in transfer is left as
    /// it is and the fault reported.
    pub fn write(&mut self, data: &[u8; N]) -> (result: Result<(), Fault>)
        ensures
            match result {
                Ok(_) => !old(self)@.in_transfer && final(self)@ == (BufferView {
                    data: data@,
                    in_transfer: false,
                }),
                Err(fault) => old(self)@.in_transfer && fault == Fault::InTransfer
                    && *final(self) == *old(self),
            },
    {
        if self.in_transfer {
            Err(Fault::InTransfer)
        } else {
            self.data = *data;
            Ok(())
        }
    }

    /// Hands a free buffer to the transfer peripheral. A buffer already in
    /// transfer is left as it is and the fault reported.
    pub fn begin_transfer(&mut self) -> (result: Result<(), Fault>)
        ensures
            match result {
                Ok(_) => !old(self)@.in_transfer && final(self)@ == (BufferView {
                    data: old(self)@.data,
                    in_transfer: true,
                }),
                Err(fault) => old(self)@.in_transfer && fault == Fault::InTransfer
                    && *final(self) == *old(self),
            },
    {
        if self.in_transfer {
            Err(Fault::InTransfer)
        } else {
            self.in_transfer = true;
            Ok(())
        }
    }

    /// Takes the buffer back from the transfer peripheral after an outgoing
    /// transfer, with its bytes as they were. A buffer that no transfer
    /// holds is left as it is and the fault reported.
    pub fn release(&mut self) -> (result: Result<(), Fault>)
        ensures
            match result {
                Ok(_) => old(self)@.in_transfer && final(self)@ == (BufferView {
                    data: old(self)@.data,
                    in_transfer: false,
                }),
                Err(fault) => !old(self)@.in_transfer && fault == Fault::NotInTransfer
                    && *final(self) == *old(self),
            },
    {
        if self.in_transfer {
            self.in_transfer = false;
            Ok(())
        } else {
            Err(Fault::NotInTransfer)
        }
    }

    /// Takes the buffer back from the transfer peripheral after an incoming
    /// transfer that left `received` in it. A buffer that no transfer holds
    /// is left as it is and the fault reported.
    pub fn release_filled(&mut self, received: &[u8; N]) -> (result: Result<(), Fault>)
        ensures
            match result {
                Ok(_) => old(self)@.in_transfer && final(self)@ == (BufferView {
                    data: received@,
                    in_transfer: false,
                }),
                Err(fault) => !old(self)@.in_transfer && fault == Fault::NotInTransfer
                    && *final(self) == *old(self),
            },
    {
        if self.in_transfer {
            self.data = *received;
            self.in_transfer = false;
            Ok(())
        } else {
            Err(Fault::NotInTransfer)
        }
    }
}

} // verus!

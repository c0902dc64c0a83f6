//! The low-level output primitive: an ordered, write-only byte channel.
//!
//! Everything the kernel says during bring-up passes through one [`Console`].
//! The console accepts bytes in the order given and keeps them until the
//! platform layer takes them and moves them to the device (display memory or
//! a serial port). Writing cannot fail and needs no interrupts.

use vstd::prelude::*;
use vstd::string::*;

verus! {

/// The single output channel of the kernel.
pub struct Console {
    pending: Vec<u8>,
}

impl View for Console {
    type V = Seq<u8>;

    /// The bytes written and not yet taken by the platform layer, oldest first.
    closed spec fn view(&self) -> Seq<u8> {
        self.pending@
    }
}

impl Console {
    /// A channel on which nothing has been written.
    pub fn new() -> (console: Console)
        ensures
            console@ == Seq::<u8>::empty(),
    {
        Console { pending: Vec::new() }
    }

    /// Writes one byte behind everything written before.
    pub fn write_byte(&mut self, byte: u8)
        ensures
            final(self)@ == old(self)@.push(byte),
    {
        self.pending.push(byte);
    }

    /// Writes `bytes` in the order given, one at a time.
    pub fn write_bytes(&mut self, bytes: &[u8])
        ensures
            final(self)@ == old(self)@ + bytes@,
    {
        let mut done: usize = 0;
        while done < bytes.len()
            invariant
                done <= bytes@.len(),
                self@ == old(self)@ + bytes@.subrange(0, done as int),
            decreases bytes@.len() - done,
        {
            self.write_byte(bytes[done]);
            done = done + 1;
        }
    }

    /// Writes the UTF-8 bytes of `text` in order.
    pub fn write_str(&mut self, text: &str)
        ensures
            final(self)@ == old(self)@ + text.spec_bytes(),
    {
        self.write_bytes(text.as_bytes());
    }

    /// The bytes that the platform layer has still to move to the device.
    pub fn pending(&self) -> (bytes: &[u8])
        ensures
            bytes@ == self@,
    {
        self.pending.as_slice()
    }

    /// Hands the pending bytes to the platform layer and leaves none behind.
    pub fn drain(&mut self) -> (bytes: Vec<u8>)
        ensures
            bytes@ == old(self)@,
            final(self)@ == Seq::<u8>::empty(),
    {
        let mut taken: Vec<u8> = Vec::new();
        core::mem::swap(&mut self.pending, &mut taken);
        taken
    }
}

} // verus!

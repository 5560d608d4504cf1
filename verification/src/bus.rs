//! The addressable memory that the processor reads and writes.

use vstd::prelude::*;

verus! {

/// Number of bytes on the bus: every 16-bit address is backed by storage.
pub const RAM_SIZE: usize = 65536;

/// A flat 64 KiB byte-addressable memory.
#[derive(Debug)]
pub struct Bus {
    ram: Vec<u8>,
}

/// Writing a byte to an address.
pub trait BusWrite {
    /// The bytes on the bus, indexed by address.
    spec fn contents(&self) -> Seq<u8>;

    /// Stores `data` at `addr` and leaves every other address as it was.
    fn write(&mut self, addr: u16, data: u8)
        ensures
            final(self).contents() == old(self).contents().update(addr as int, data),
    ;
}

/// Reading a byte from an address.
pub trait BusRead {
    /// The bytes on the bus, indexed by address.
    spec fn image(&self) -> Seq<u8>;

    /// Returns the byte at `addr`; the bus is left as it was.
    fn read(&mut self, addr: u16, read_only: bool) -> (data: u8)
        ensures
            final(self).image() == old(self).image(),
            data == old(self).image()[addr as int],
    ;
}

impl View for Bus {
    type V = Seq<u8>;

    closed spec fn view(&self) -> Seq<u8> {
        self.ram@
    }
}

impl Bus {
    /// Every address is backed by storage.
    #[verifier::type_invariant]
    pub open spec fn well_formed(&self) -> bool {
        self@.len() == RAM_SIZE
    }

    /// A bus whose every byte is zero.
    pub fn new() -> (bus: Self)
        ensures
            bus@ == Seq::new(RAM_SIZE as nat, |a: int| 0u8),
    {
        let mut ram: Vec<u8> = Vec::with_capacity(RAM_SIZE);
        let mut i: usize = 0;
        while i < RAM_SIZE
            invariant
                i <= RAM_SIZE,
                ram@.len() == i,
                forall|a: int| 0 <= a < i ==> ram@[a] == 0u8,
            decreases RAM_SIZE - i,
        {
            ram.push(0u8);
            i += 1;
        }
        assert(ram@ =~= Seq::new(RAM_SIZE as nat, |a: int| 0u8));
        Bus { ram }
    }

    /// Sets every byte on the bus to zero.
    pub fn reset(&mut self)
        ensures
            final(self)@ == Seq::new(RAM_SIZE as nat, |a: int| 0u8),
    {
        proof {
            use_type_invariant(&*self);
        }
        let mut i: usize = 0;
        while i < RAM_SIZE
            invariant
                i <= RAM_SIZE,
                self.ram@.len() == RAM_SIZE,
                forall|a: int| 0 <= a < i ==> self.ram@[a] == 0u8,
            decreases RAM_SIZE - i,
        {
            self.ram[i] = 0u8;
            i += 1;
        }
        assert(self.ram@ =~= Seq::new(RAM_SIZE as nat, |a: int| 0u8));
    }

}

impl Clone for Bus {
    fn clone(&self) -> (copy: Self)
        ensures
            copy@ == self@,
    {
        proof {
            use_type_invariant(self);
        }
        let ram = self.ram.clone();
        assert(ram@ =~= self.ram@);
        Bus { ram }
    }
}

impl BusWrite for Bus {
    open spec fn contents(&self) -> Seq<u8> {
        self@
    }

    fn write(&mut self, addr: u16, data: u8) {
        proof {
            use_type_invariant(&*self);
        }
        self.ram[addr as usize] = data;
    }
}

impl BusRead for Bus {
    open spec fn image(&self) -> Seq<u8> {
        self@
    }

    fn read(&mut self, addr: u16, _read_only: bool) -> (data: u8) {
        proof {
            use_type_invariant(&*self);
        }
        self.ram[addr as usize]
    }
}

} // verus!

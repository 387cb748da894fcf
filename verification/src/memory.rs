//! The memory that addresses point into.

use vstd::prelude::*;

verus! {

/// A region of the address space that keeps, at each address it maps, the byte
/// that was last stored there: RAM, or a device's frame buffer.
///
/// The view gives the byte held at each mapped address. An access to an
/// address that is not mapped is the caller's fault, and the preconditions
/// rule it out: nothing here detects it.
///
/// The drivers are proved against the contracts of `load` and `store`. `Ram`
/// is proved to meet them. Of a device they are what is taken for granted:
/// that it is there, and that it keeps what is stored in it.
pub trait Memory {
    /// The bytes held, by address; the domain is the set of mapped addresses.
    /// A memory that does not say what it holds maps nothing, and so admits
    /// no access.
    open spec fn view(&self) -> Map<usize, u8> {
        Map::empty()
    }

    /// Loads the byte at `address`.
    fn load(&self, address: usize) -> (value: u8)
        requires
            self.view().dom().contains(address),
        ensures
            value == self.view()[address],
    ;

    /// Stores `value` at `address`, and touches nothing else.
    fn store(&mut self, address: usize, value: u8)
        requires
            old(self).view().dom().contains(address),
        ensures
            final(self).view() == old(self).view().insert(address, value),
    ;
}

/// A run of ordinary bytes that stands at a chosen place in the address space.
/// It lets the drivers run where the device they were written for is absent.
pub struct Ram {
    base: usize,
    bytes: Vec<u8>,
}

impl Ram {
    /// The first address that the region maps.
    pub closed spec fn base(&self) -> usize {
        self.base
    }

    /// The bytes of the region, from its first address on.
    pub closed spec fn contents(&self) -> Seq<u8> {
        self.bytes@
    }

    /// A region of `len` zero bytes that starts at `base`.
    pub fn new(base: usize, len: usize) -> (ram: Ram)
        ensures
            ram.base() == base,
            ram.contents() == Seq::new(len as nat, |i: int| 0u8),
    {
        let ram = Ram { base, bytes: vec![0u8; len] };
        assert(ram.bytes@ =~= Seq::new(len as nat, |i: int| 0u8));
        ram
    }
}

impl Memory for Ram {
    open spec fn view(&self) -> Map<usize, u8> {
        Map::new(
            |a: usize| self.base() <= a && a - self.base() < self.contents().len(),
            |a: usize| self.contents()[a - self.base()],
        )
    }

    fn load(&self, address: usize) -> (value: u8) {
        self.bytes[address - self.base]
    }

    fn store(&mut self, address: usize, value: u8) {
        self.bytes.set(address - self.base, value);
        assert(self.view() =~= old(self).view().insert(address, value));
    }
}

} // verus!

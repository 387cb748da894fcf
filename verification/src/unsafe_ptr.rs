//! Addresses: plain numbers that name a byte of the address space.

use crate::memory::Memory;
use vstd::prelude::*;

verus! {

/// A handle to one byte of the address space. It is a plain number: nothing
/// checks it against a memory map before it is used.
#[derive(Debug, Clone, Copy)]
pub struct UnsafePointer(usize);

impl View for UnsafePointer {
    type V = usize;

    closed spec fn view(&self) -> usize {
        self.0
    }
}

impl UnsafePointer {
    /// The handle to the byte at `address`.
    pub fn new(address: usize) -> (pointer: Self)
        ensures
            pointer@ == address,
    {
        Self(address)
    }

    /// The handle `offset` bytes after this one.
    pub fn add(&self, offset: usize) -> (pointer: Self)
        requires
            self@ + offset <= usize::MAX,
        ensures
            pointer@ == self@ + offset,
    {
        Self::new(self.0 + offset)
    }

    /// The address, as a number.
    pub fn address(&self) -> (address: usize)
        ensures
            address == self@,
    {
        self.0
    }

    /// Loads the byte that `memory` holds at this address.
    pub fn read_volatile<M: Memory>(&self, memory: &M) -> (value: u8)
        requires
            memory.view().dom().contains(self@),
        ensures
            value == memory.view()[self@],
    {
        memory.load(self.0)
    }

    /// Stores `value` in `memory` at this address.
    pub fn write_volatile<M: Memory>(&self, memory: &mut M, value: u8)
        requires
            old(memory).view().dom().contains(self@),
        ensures
            final(memory).view() == old(memory).view().insert(self@, value),
    {
        memory.store(self.0, value)
    }
}

} // verus!

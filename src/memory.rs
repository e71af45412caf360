use vstd::prelude::*;
use crate::cell::Byte;
use crate::error::RizeError;
use crate::word::DSB;

verus! {

/// Number of addressable cells of the machine's memory.
pub const MEMORY_SIZE_BYTES: usize = 2048;

/// Bounds-checked, address-indexed memory; every cell starts as the zero word.
#[derive(Debug)]
pub struct SystemMemory {
    bytes: Vec<Byte>,
}

impl View for SystemMemory {
    type V = Seq<DSB>;

    /// The value at each address; the length is the capacity.
    closed spec fn view(&self) -> Seq<DSB> {
        self.bytes@.map_values(|b: Byte| b.dsb)
    }
}

impl SystemMemory {
    /// A memory of `capacity` cells, all holding the zero word.
    pub fn new(capacity: usize) -> (r: SystemMemory)
        ensures
            r@.len() == capacity,
            forall|i: int| 0 <= i < capacity ==> r@[i] == DSB::U16(0),
    {
        let mut bytes: Vec<Byte> = Vec::new();
        let mut i: usize = 0;
        while i < capacity
            invariant
                i <= capacity,
                bytes@.len() == i,
                forall|j: int| 0 <= j < i ==> bytes@[j].dsb == DSB::U16(0),
            decreases capacity - i,
        {
            bytes.push(Byte::default());
            i = i + 1;
        }
        let r = SystemMemory { bytes };
        assert(r@.len() == capacity);
        r
    }

    pub fn capacity(&self) -> (r: usize)
        ensures
            r == self@.len(),
    {
        self.bytes.len()
    }

    /// The value at `addr`, or a memory-read error when `addr` is not below
    /// the capacity.
    pub fn read(&self, addr: usize) -> (r: Result<DSB, RizeError>)
        ensures
            addr < self@.len() <==> r is Ok,
            r is Ok ==> r->Ok_0 == self@[addr as int],
            r is Err ==> r->Err_0.type_ is MemoryRead,
    {
        if addr < self.bytes.len() {
            Ok(self.bytes[addr].read())
        } else {
            Err(RizeError::memory_read("address out of range"))
        }
    }

    /// Stores `data` at `addr`, or fails with a memory-write error, changing
    /// nothing, when `addr` is not below the capacity.
    pub fn write(&mut self, addr: usize, data: DSB) -> (r: Result<(), RizeError>)
        ensures
            addr < old(self)@.len() <==> r is Ok,
            r is Ok ==> final(self)@ == old(self)@.update(addr as int, data),
            r is Err ==> r->Err_0.type_ is MemoryWrite && final(self)@ == old(self)@,
    {
        if addr < self.bytes.len() {
            self.bytes.set(addr, Byte::new(data));
            assert(self@ =~= old(self)@.update(addr as int, data));
            Ok(())
        } else {
            Err(RizeError::memory_write("address out of range"))
        }
    }
}

impl Default for SystemMemory {
    /// A memory of `MEMORY_SIZE_BYTES` zeroed cells.
    fn default() -> (r: SystemMemory)
        ensures
            r@.len() == MEMORY_SIZE_BYTES,
            forall|i: int| 0 <= i < MEMORY_SIZE_BYTES ==> r@[i] == DSB::U16(0),
    {
        SystemMemory::new(MEMORY_SIZE_BYTES)
    }
}

} // verus!

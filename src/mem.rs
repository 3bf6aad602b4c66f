use vstd::prelude::*;

verus! {

/// Errors that stop the execution engine.
#[derive(Copy, Clone, Debug, PartialEq, Eq, Structural)]
pub enum ExecutionError {
    /// An opcode that the decoder does not know.
    DecodeError,
    /// A read or write of an unmapped address, or a write to read-only state.
    BusError,
    /// A cartridge whose controller type is not implemented.
    CartridgeUnsupported,
}

/// A 16-bit address whose arithmetic wraps modulo 2^16.
#[derive(Copy, Clone, Debug, PartialEq, Eq, Structural)]
pub struct Address(pub u16);

/// A 32-bit address into the whole cartridge ROM.
#[derive(Copy, Clone, Debug, PartialEq, Eq, Structural)]
pub struct ExtendedAddress(pub u32);

pub open spec fn wrap16(v: int) -> u16 {
    (v % 0x10000) as u16
}

impl Address {
    /// `self + o`, modulo 2^16.
    pub fn plus(self, o: Address) -> (r: Address)
        ensures
            r.0 == wrap16(self.0 + o.0),
    {
        Address(self.0.wrapping_add(o.0))
    }

    /// `self - o`, modulo 2^16.
    pub fn minus(self, o: Address) -> (r: Address)
        ensures
            r.0 == wrap16(self.0 - o.0 + 0x10000),
    {
        Address(self.0.wrapping_sub(o.0))
    }

    /// Whether the address lies in the inclusive range `lo..=hi`.
    pub fn in_(self, lo: u16, hi: u16) -> (r: bool)
        ensures
            r == (lo <= self.0 && self.0 <= hi),
    {
        lo <= self.0 && self.0 <= hi
    }
}

pub const ROM_START: u16 = 0x0000;
pub const ROM_END: u16 = 0x7FFF;
pub const CHAR_DAT_START: u16 = 0x8000;
pub const CHAR_DAT_END: u16 = 0x97FF;
pub const BGDD1_START: u16 = 0x9800;
pub const BGDD1_END: u16 = 0x9BFF;
pub const BGDD2_START: u16 = 0x9C00;
pub const BGDD2_END: u16 = 0x9FFF;
pub const EXT_RAM_START: u16 = 0xA000;
pub const EXT_RAM_END: u16 = 0xBFFF;
pub const WRAM_START: u16 = 0xC000;
pub const WRAM_END: u16 = 0xDFFF;
pub const ECHO_START: u16 = 0xE000;
pub const ECHO_END: u16 = 0xFDFF;
pub const OAM_START: u16 = 0xFE00;
pub const OAM_END: u16 = 0xFE9F;
pub const IO_START: u16 = 0xFF00;
pub const IO_END: u16 = 0xFF7F;
pub const HRAM_START: u16 = 0xFF80;
pub const HRAM_END: u16 = 0xFFFE;

/// A plain byte store addressed from zero.
pub struct Ram {
    pub data: Vec<u8>,
}

impl Ram {
    pub fn new(size: u16) -> (r: Ram)
        ensures
            r.data@ == Seq::new(size as nat, |i: int| 0u8),
    {
        let mut data: Vec<u8> = Vec::new();
        let mut i: u16 = 0;
        while i < size
            invariant
                i <= size,
                data@ == Seq::new(i as nat, |j: int| 0u8),
            decreases size - i,
        {
            data.push(0);
            i = i + 1;
            assert(data@ =~= Seq::new(i as nat, |j: int| 0u8));
        }
        Ram { data }
    }

    /// The byte at offset `a`, or a bus error past the end.
    pub fn read(&self, a: Address) -> (r: Result<u8, ExecutionError>)
        ensures
            (a.0 as int) < self.data@.len() ==> r == Ok::<u8, ExecutionError>(self.data@[a.0 as int]),
            (a.0 as int) >= self.data@.len() ==> r == Err::<u8, ExecutionError>(ExecutionError::BusError),
    {
        if (a.0 as usize) < self.data.len() {
            Ok(self.data[a.0 as usize])
        } else {
            Err(ExecutionError::BusError)
        }
    }

    /// Stores `v` at offset `a`, or fails with a bus error past the end.
    pub fn write(&mut self, a: Address, v: u8) -> (r: Result<(), ExecutionError>)
        ensures
            (a.0 as int) < old(self).data@.len() ==> r is Ok && final(self).data@ == old(self).data@.update(a.0 as int, v),
            (a.0 as int) >= old(self).data@.len() ==> r == Err::<(), ExecutionError>(ExecutionError::BusError) && final(self).data@ == old(self).data@,
    {
        if (a.0 as usize) < self.data.len() {
            self.data.set(a.0 as usize, v);
            Ok(())
        } else {
            Err(ExecutionError::BusError)
        }
    }
}

} // verus!

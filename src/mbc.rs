use vstd::prelude::*;
use crate::mem::{Address, ExecutionError, ExtendedAddress, Ram, EXT_RAM_END, EXT_RAM_START, ROM_END};

verus! {

/// The size of the external RAM window, 0xA000 to 0xBFFF.
pub const EXT_RAM_SIZE: u16 = 0x2000;

/// A cartridge without bank switching: ROM and external RAM are read directly.
pub struct Mbc0 {
    pub rom: Vec<u8>,
    pub ram: Ram,
}

/// What a read of `a` gives on a cartridge with these ROM and RAM contents.
pub open spec fn mbc0_read(rom: Seq<u8>, ram: Seq<u8>, a: u16) -> Result<u8, ExecutionError> {
    if a <= ROM_END {
        if (a as int) < rom.len() {
            Ok(rom[a as int])
        } else {
            Err(ExecutionError::BusError)
        }
    } else if EXT_RAM_START <= a && a <= EXT_RAM_END && ((a - EXT_RAM_START) as int) < ram.len() {
        Ok(ram[a - EXT_RAM_START])
    } else {
        Err(ExecutionError::BusError)
    }
}

/// The RAM contents after restoring `buf` over `ram`: its prefix replaced.
pub open spec fn restored(ram: Seq<u8>, buf: Seq<u8>) -> Seq<u8> {
    buf + ram.skip(buf.len() as int)
}

impl Mbc0 {
    pub open spec fn wf(&self) -> bool {
        self.ram.data@.len() == EXT_RAM_SIZE
    }

    pub fn new(rom: Vec<u8>) -> (r: Mbc0)
        ensures
            r.wf(),
            r.rom@ == rom@,
            r.ram.data@ == Seq::new(EXT_RAM_SIZE as nat, |i: int| 0u8),
    {
        Mbc0 { rom, ram: Ram::new(EXT_RAM_SIZE) }
    }

    /// Reads ROM (0x0000 to 0x7FFF) or external RAM (0xA000 to 0xBFFF).
    pub fn read(&self, a: Address) -> (r: Result<u8, ExecutionError>)
        ensures
            r == mbc0_read(self.rom@, self.ram.data@, a.0),
    {
        if a.in_(0x0000, ROM_END) {
            if (a.0 as usize) < self.rom.len() {
                Ok(self.rom[a.0 as usize])
            } else {
                Err(ExecutionError::BusError)
            }
        } else if a.in_(EXT_RAM_START, EXT_RAM_END) {
            self.ram.read(Address(a.0 - EXT_RAM_START))
        } else {
            Err(ExecutionError::BusError)
        }
    }

    /// Writes external RAM; anything else is a bus error and changes nothing.
    pub fn write(&mut self, a: Address, v: u8) -> (r: Result<(), ExecutionError>)
        requires
            old(self).wf(),
        ensures
            final(self).wf(),
            final(self).rom@ == old(self).rom@,
            EXT_RAM_START <= a.0 <= EXT_RAM_END ==> r is Ok && final(self).ram.data@ == old(
                self,
            ).ram.data@.update(a.0 - EXT_RAM_START, v),
            !(EXT_RAM_START <= a.0 <= EXT_RAM_END) ==> r == Err::<(), ExecutionError>(
                ExecutionError::BusError,
            ) && final(self).ram.data@ == old(self).ram.data@,
    {
        if a.in_(EXT_RAM_START, EXT_RAM_END) {
            self.ram.write(Address(a.0 - EXT_RAM_START), v)
        } else {
            Err(ExecutionError::BusError)
        }
    }

    /// The address in the whole ROM that `a` reads: without banking, `a` itself.
    pub fn map_address_into_rom(&self, a: Address) -> (r: ExtendedAddress)
        ensures
            r.0 == a.0,
    {
        ExtendedAddress(a.0 as u32)
    }

    /// The external RAM contents, as saved state.
    pub fn get_sram(&self) -> (r: &[u8])
        ensures
            r@ == self.ram.data@,
    {
        self.ram.data.as_slice()
    }

    /// Restores saved state over the start of external RAM.
    pub fn set_sram(&mut self, buf: &[u8])
        requires
            old(self).wf(),
            buf@.len() <= old(self).ram.data@.len(),
        ensures
            final(self).wf(),
            final(self).rom@ == old(self).rom@,
            final(self).ram.data@ == restored(old(self).ram.data@, buf@),
    {
        let mut i: usize = 0;
        while i < buf.len()
            invariant
                i <= buf@.len(),
                buf@.len() <= self.ram.data@.len(),
                self.ram.data@.len() == old(self).ram.data@.len(),
                self.rom@ == old(self).rom@,
                forall|j: int| 0 <= j < i ==> self.ram.data@[j] == buf@[j],
                forall|j: int| i <= j < self.ram.data@.len() ==> self.ram.data@[j] == old(self).ram.data@[j],
            decreases buf@.len() - i,
        {
            self.ram.data.set(i, buf[i]);
            i = i + 1;
        }
        assert(self.ram.data@ =~= restored(old(self).ram.data@, buf@));
    }
}

/// Where the cartridge header names the controller type.
pub const HEADER_CART_TYPE: usize = 0x0147;

/// The cartridge for a ROM image: one without a controller (type 0) is
/// supported; any other type, or an image too short to hold the header, is not.
pub fn load_cart(rom: Vec<u8>) -> (r: Result<Mbc0, ExecutionError>)
    ensures
        rom@.len() > HEADER_CART_TYPE && rom@[HEADER_CART_TYPE as int] == 0 ==> r is Ok && r->Ok_0.wf()
            && r->Ok_0.rom@ == rom@ && r->Ok_0.ram.data@ == Seq::new(EXT_RAM_SIZE as nat, |i: int| 0u8),
        !(rom@.len() > HEADER_CART_TYPE && rom@[HEADER_CART_TYPE as int] == 0) ==> r == Err::<Mbc0, ExecutionError>(
            ExecutionError::CartridgeUnsupported,
        ),
{
    if rom.len() > HEADER_CART_TYPE && rom[HEADER_CART_TYPE] == 0 {
        Ok(Mbc0::new(rom))
    } else {
        Err(ExecutionError::CartridgeUnsupported)
    }
}

/// Restoring a cart's saved external RAM onto a cart with RAM of the same size
/// makes every external-RAM read give what it gave on the saved cart.
pub proof fn lemma_sram_round_trip(saved: Mbc0, target: Mbc0, a: u16)
    requires
        saved.wf(),
        target.wf(),
        EXT_RAM_START <= a <= EXT_RAM_END,
    ensures
        mbc0_read(target.rom@, restored(target.ram.data@, saved.ram.data@), a) == mbc0_read(
            saved.rom@,
            saved.ram.data@,
            a,
        ),
{
    assert(restored(target.ram.data@, saved.ram.data@) =~= saved.ram.data@);
}

} // verus!

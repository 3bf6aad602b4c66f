use vstd::prelude::*;
use crate::lcd::Lcd;
use crate::mbc::{mbc0_read, Mbc0};
use crate::timer::TimerUnit;
use crate::square::SquareChannel;
use crate::mem::{
    Address, ExecutionError, Ram, ECHO_END, ECHO_START, EXT_RAM_END, EXT_RAM_START, HRAM_END,
    HRAM_START, IO_END, IO_START, OAM_END, OAM_START, ROM_END, WRAM_END, WRAM_START, wrap16,
};

verus! {

pub const REG_JOYP: u16 = 0xFF00;
pub const REG_IF: u16 = 0xFF0F;
pub const REG_DIV: u16 = 0xFF04;
pub const AUDIO_START: u16 = 0xFF10;
pub const AUDIO_END: u16 = 0xFF3F;
pub const AUDIO_LEN: u16 = 0x30;
pub const REG_TAC: u16 = 0xFF07;
pub const REG_DMA: u16 = 0xFF46;
pub const REG_IE: u16 = 0xFFFF;
pub const WRAM_LEN: u16 = 0x2000;
pub const HRAM_LEN: u16 = 0x7F;

/// The value that reads of unmapped I/O registers give.
pub const OPEN_BUS: u8 = 0xFF;

/// The joypad byte for a group selection and the pressed buttons (bits 0 to 3:
/// A, B, Select, Start; bits 4 to 7: Right, Left, Up, Down). A selected group
/// shows its pressed buttons as 0 bits in the low nibble.
pub open spec fn joypad_value(select: u8, buttons: u8) -> u8 {
    let dirs: u8 = if select & 0x10 == 0 { (buttons >> 4u8) & 0x0F } else { 0 };
    let acts: u8 = if select & 0x20 == 0 { buttons & 0x0F } else { 0 };
    0xC0 | (select & 0x30) | (!(dirs | acts) & 0x0F)
}

/// The offset into work RAM that `a` reaches, directly or through the echo.
pub open spec fn wram_offset(a: u16) -> int {
    if a <= WRAM_END {
        a - WRAM_START
    } else {
        a - ECHO_START
    }
}

/// Whether two addresses reach the same work-RAM byte.
pub open spec fn aliases(a: u16, b: u16) -> bool {
    WRAM_START <= a <= ECHO_END && WRAM_START <= b <= ECHO_END && wram_offset(a) == wram_offset(b)
}

/// Whether `a` and `a + 1` are both plain read-write RAM (work or high RAM),
/// as a stack slot needs.
pub open spec fn stack_ram(a: u16) -> bool {
    (HRAM_START <= a && a < HRAM_END) || (WRAM_START <= a && a < WRAM_END)
}

/// Whether a write to `a` stores the byte so that a read gives it back: work RAM,
/// its echo, high RAM or external RAM.
pub open spec fn plain_ram(a: u16) -> bool {
    (WRAM_START <= a <= ECHO_END) || (HRAM_START <= a <= HRAM_END) || (EXT_RAM_START <= a <= EXT_RAM_END)
}

/// Whether every write to `a` is refused: ROM and the unmapped gap after OAM.
pub open spec fn write_refused(a: u16) -> bool {
    a <= ROM_END || (OAM_END < a && a < IO_START)
}

/// Whether a byte written to `a` is what a read of `a` then gives.
pub open spec fn reads_back(a: u16) -> bool {
    ||| plain_ram(a)
    ||| 0x8000 <= a <= 0x9FFF
    ||| OAM_START <= a <= OAM_END
    ||| (0xFF40 <= a <= 0xFF4B && a != REG_DMA && a != crate::lcd::REG_LY)
    ||| a == REG_IF
    ||| a == REG_IE
    ||| (AUDIO_START <= a <= AUDIO_END)
}

/// Whether a 16-bit write at `a` stores both bytes so that `spec_read16(a)`
/// gives the value back: both bytes read back and neither is IF, which an
/// interrupt dispatch rewrites.
pub open spec fn word_reads_back(a: u16) -> bool {
    reads_back(a) && reads_back(wrap16(a + 1)) && a != REG_IF && wrap16(a + 1) != REG_IF && a != REG_IE
        && wrap16(a + 1) != REG_IE
}

/// The address space: cartridge, video, work RAM, I/O, high RAM and interrupt registers.
pub struct Mmu {
    pub cart: Mbc0,
    pub lcd: Lcd,
    pub timer: TimerUnit,
    pub square1: SquareChannel,
    pub square2: SquareChannel,
    /// The bytes last written to the audio registers.
    pub audio_regs: Ram,
    pub internal_ram: Ram,
    pub high_ram: Ram,
    pub interrupt_enable: u8,
    pub interrupt_flag: u8,
    pub joypad_select: u8,
    pub buttons: u8,
}

impl Mmu {
    pub open spec fn wf(&self) -> bool {
        &&& self.cart.wf()
        &&& self.lcd.wf()
        &&& self.timer.wf()
        &&& self.square1.wf()
        &&& self.square2.wf()
        &&& self.audio_regs.data@.len() == AUDIO_LEN
        &&& self.internal_ram.data@.len() == WRAM_LEN
        &&& self.high_ram.data@.len() == HRAM_LEN
    }

    /// Whether `a` is routed to the LCD.
    pub open spec fn lcd_maps(a: u16) -> bool {
        (0x8000 <= a <= 0x9FFF) || (OAM_START <= a <= OAM_END) || (0xFF40 <= a <= 0xFF4B && a != REG_DMA)
    }

    /// What a read of `a` gives.
    pub open spec fn spec_read(&self, a: u16) -> Result<u8, ExecutionError> {
        if a <= ROM_END || (EXT_RAM_START <= a <= EXT_RAM_END) {
            mbc0_read(self.cart.rom@, self.cart.ram.data@, a)
        } else if Self::lcd_maps(a) {
            self.lcd.spec_read(a)
        } else if WRAM_START <= a <= WRAM_END {
            Ok(self.internal_ram.data@[a - WRAM_START])
        } else if ECHO_START <= a <= ECHO_END {
            Ok(self.internal_ram.data@[a - ECHO_START])
        } else if HRAM_START <= a <= HRAM_END {
            Ok(self.high_ram.data@[a - HRAM_START])
        } else if a == REG_IE {
            Ok(self.interrupt_enable)
        } else if a == REG_IF {
            Ok(self.interrupt_flag)
        } else if a == REG_JOYP {
            Ok(joypad_value(self.joypad_select, self.buttons))
        } else if REG_DIV <= a <= REG_TAC {
            Ok(self.timer.spec_read((a - REG_DIV) as u16))
        } else if AUDIO_START <= a <= AUDIO_END {
            Ok(self.audio_regs.data@[a - AUDIO_START])
        } else if IO_START <= a <= IO_END {
            Ok(OPEN_BUS)
        } else {
            Err(ExecutionError::BusError)
        }
    }

    /// What a little-endian 16-bit read at `a` gives.
    pub open spec fn spec_read16(&self, a: u16) -> Result<u16, ExecutionError> {
        match (self.spec_read(a), self.spec_read(wrap16(a + 1))) {
            (Ok(lo), Ok(hi)) => Ok((hi * 256 + lo) as u16),
            (Err(e), _) => Err(e),
            (Ok(_), Err(e)) => Err(e),
        }
    }

    /// Whether a DMA transfer from page `src` meets an unreadable source byte.
    pub open spec fn dma_fails(&self, src: u8) -> bool {
        exists|k: int| 0 <= k < 160 && (#[trigger] self.spec_read((src * 256 + k) as u16)) is Err
    }

    /// What a write of `v` to `a` returns.
    pub open spec fn write_result(&self, a: u16, v: u8) -> Result<(), ExecutionError> {
        if a == REG_DMA {
            if self.dma_fails(v) {
                Err(ExecutionError::BusError)
            } else {
                Ok(())
            }
        } else if write_refused(a) {
            Err(ExecutionError::BusError)
        } else {
            Ok(())
        }
    }

    /// Reads elsewhere than at `a` (and the work-RAM byte it aliases) are as in `o`.
    pub open spec fn reads_kept_but(&self, o: Mmu, a: u16) -> bool {
        forall|b: u16| b != a && !aliases(a, b) ==> #[trigger] self.spec_read(b) == o.spec_read(b)
    }

    pub fn new(cart: Mbc0) -> (r: Mmu)
        requires
            cart.wf(),
        ensures
            r.wf(),
            r.cart == cart,
            r.lcd.ly == 0,
            r.lcd.pumped_until == 0,
            r.timer.last_cycle == 0,
            r.interrupt_enable == 0,
            r.interrupt_flag == 0,
    {
        Mmu {
            cart,
            lcd: Lcd::new(),
            timer: TimerUnit::new(),
            square1: SquareChannel::new(),
            square2: SquareChannel::new(),
            audio_regs: Ram::new(AUDIO_LEN),
            internal_ram: Ram::new(WRAM_LEN),
            high_ram: Ram::new(HRAM_LEN),
            interrupt_enable: 0,
            interrupt_flag: 0,
            joypad_select: 0x30,
            buttons: 0,
        }
    }

    /// Sets which buttons are pressed (see `joypad_value`).
    pub fn set_buttons(&mut self, buttons: u8)
        requires
            old(self).wf(),
        ensures
            final(self).wf(),
            *final(self) == (Mmu { buttons, ..*old(self) }),
    {
        self.buttons = buttons;
    }

    fn joypad(&self) -> (r: u8)
        ensures
            r == joypad_value(self.joypad_select, self.buttons),
    {
        let dirs: u8 = if self.joypad_select & 0x10 == 0 { (self.buttons >> 4u8) & 0x0F } else { 0 };
        let acts: u8 = if self.joypad_select & 0x20 == 0 { self.buttons & 0x0F } else { 0 };
        0xC0 | (self.joypad_select & 0x30) | (!(dirs | acts) & 0x0F)
    }

    /// Reads one byte.
    pub fn read(&self, a: Address) -> (r: Result<u8, ExecutionError>)
        requires
            self.wf(),
        ensures
            r == self.spec_read(a.0),
    {
        if a.0 <= ROM_END || a.in_(EXT_RAM_START, EXT_RAM_END) {
            self.cart.read(a)
        } else if a.in_(0x8000, 0x9FFF) || a.in_(OAM_START, OAM_END) || (a.in_(0xFF40, 0xFF4B) && a.0 != REG_DMA) {
            self.lcd.read(a)
        } else if a.in_(WRAM_START, WRAM_END) {
            Ok(self.internal_ram.data[(a.0 - WRAM_START) as usize])
        } else if a.in_(ECHO_START, ECHO_END) {
            Ok(self.internal_ram.data[(a.0 - ECHO_START) as usize])
        } else if a.in_(HRAM_START, HRAM_END) {
            Ok(self.high_ram.data[(a.0 - HRAM_START) as usize])
        } else if a.0 == REG_IE {
            Ok(self.interrupt_enable)
        } else if a.0 == REG_IF {
            Ok(self.interrupt_flag)
        } else if a.0 == REG_JOYP {
            Ok(self.joypad())
        } else if a.in_(REG_DIV, REG_TAC) {
            Ok(self.timer.read(a.0 - REG_DIV))
        } else if a.in_(AUDIO_START, AUDIO_END) {
            Ok(self.audio_regs.data[(a.0 - AUDIO_START) as usize])
        } else if a.in_(IO_START, IO_END) {
            Ok(OPEN_BUS)
        } else {
            Err(ExecutionError::BusError)
        }
    }

    /// Everything but the LCD and the cartridge RAM is as in `o`.
    pub open spec fn same_but_lcd_and_cart_ram(&self, o: Mmu) -> bool {
        &&& self.cart.rom@ == o.cart.rom@
        &&& self.internal_ram.data@ == o.internal_ram.data@
        &&& self.high_ram.data@ == o.high_ram.data@
        &&& self.interrupt_enable == o.interrupt_enable
        &&& self.interrupt_flag == o.interrupt_flag
        &&& self.buttons == o.buttons
    }

    /// Writes one byte. Work RAM, its echo, high RAM, IE and IF store it; the
    /// cartridge and the LCD take it by their own rules; the joypad register keeps
    /// the group selection; a write to DMA copies 160 bytes from `v << 8` into OAM;
    /// other I/O writes are ignored.
    #[verifier::rlimit(80)]
    #[verifier::spinoff_prover]
    pub fn write(&mut self, a: Address, v: u8) -> (r: Result<(), ExecutionError>)
        requires
            old(self).wf(),
        ensures
            final(self).wf(),
            final(self).lcd.ly == old(self).lcd.ly,
            final(self).lcd.pumped_until == old(self).lcd.pumped_until,
            final(self).timer.last_cycle == old(self).timer.last_cycle,
            final(self).cart.rom@ == old(self).cart.rom@,
            r == old(self).write_result(a.0, v),
            reads_back(a.0) ==> final(self).spec_read(a.0) == Ok::<u8, ExecutionError>(v),
            a.0 != REG_DMA ==> final(self).reads_kept_but(*old(self), a.0),
            a.0 != REG_IF ==> final(self).interrupt_flag == old(self).interrupt_flag,
            a.0 != REG_IE ==> final(self).interrupt_enable == old(self).interrupt_enable,
            WRAM_START <= a.0 <= WRAM_END ==> r is Ok && final(self).spec_read(a.0) == Ok::<u8, ExecutionError>(v),
            ECHO_START <= a.0 <= ECHO_END ==> r is Ok && final(self).spec_read(a.0) == Ok::<u8, ExecutionError>(v),
            HRAM_START <= a.0 <= HRAM_END ==> r is Ok && final(self).spec_read(a.0) == Ok::<u8, ExecutionError>(v),
            a.0 == REG_IE ==> r is Ok && final(self).interrupt_enable == v,
            a.0 == REG_IF ==> r is Ok && final(self).interrupt_flag == v,
            EXT_RAM_START <= a.0 <= EXT_RAM_END ==> r is Ok && final(self).spec_read(a.0) == Ok::<u8, ExecutionError>(v),
            a.0 <= ROM_END ==> r == Err::<(), ExecutionError>(ExecutionError::BusError),
            OAM_END < a.0 < IO_START ==> r == Err::<(), ExecutionError>(ExecutionError::BusError),
            Self::lcd_maps(a.0) ==> (r is Ok <==> old(self).lcd.spec_read(a.0) is Ok)
                && (r is Ok ==> final(self).spec_read(a.0) == if a.0 == crate::lcd::REG_LY {
                    Ok::<u8, ExecutionError>(old(self).lcd.ly)
                } else {
                    Ok::<u8, ExecutionError>(v)
                })
                && final(self).cart == old(self).cart && final(self).timer == old(self).timer
                && final(self).interrupt_flag == old(self).interrupt_flag,
            REG_DIV <= a.0 <= REG_TAC ==> r is Ok && final(self).lcd == old(self).lcd
                && final(self).spec_read(a.0) == Ok::<u8, ExecutionError>(if a.0 == REG_DIV { 0 } else if a.0 == REG_TAC { v & 0b111 } else { v }),
            AUDIO_START <= a.0 <= AUDIO_END ==> r is Ok && final(self).spec_read(a.0) == Ok::<u8, ExecutionError>(v)
                && final(self).lcd == old(self).lcd && final(self).timer == old(self).timer,
            a.0 == REG_JOYP ==> r is Ok && final(self).joypad_select == v & 0x30 && final(self).lcd == old(self).lcd
                && final(self).spec_read(a.0) == Ok::<u8, ExecutionError>(joypad_value(v & 0x30, old(self).buttons)),
            a.0 == REG_DMA && 0xA0 <= v <= 0xDF ==> r is Ok && forall|k: int|
                0 <= k < 160 ==> #[trigger] final(self).lcd.oam.data@[k] == old(self).spec_read((v * 256 + k) as u16)->Ok_0,
            a.0 == REG_DMA ==> final(self).timer == old(self).timer && final(self).cart == old(self).cart
                && final(self).internal_ram.data@ == old(self).internal_ram.data@ && final(self).high_ram.data@ == old(self).high_ram.data@,
            IO_START <= a.0 <= IO_END && !Self::lcd_maps(a.0) && !(REG_DIV <= a.0 <= REG_TAC) && !(AUDIO_START <= a.0 <= AUDIO_END)
                && a.0 != REG_JOYP && a.0 != REG_IF && a.0 != REG_DMA ==> r is Ok && *final(self) == *old(self),
            (WRAM_START <= a.0 <= ECHO_END || HRAM_START <= a.0 <= HRAM_END) ==> final(self).lcd == old(self).lcd
                && final(self).cart == old(self).cart && final(self).timer == old(self).timer
                && final(self).square1 == old(self).square1 && final(self).square2 == old(self).square2
                && final(self).audio_regs == old(self).audio_regs && final(self).interrupt_enable == old(self).interrupt_enable
                && final(self).interrupt_flag == old(self).interrupt_flag
                && (forall|b: u16| b != a.0 && !aliases(a.0, b) ==> final(self).spec_read(b) == old(self).spec_read(b)),
    {
        if a.0 <= ROM_END || a.in_(EXT_RAM_START, EXT_RAM_END) {
            match self.cart.write(a, v) {
                Ok(_) => Ok(()),
                Err(e) => Err(e),
            }
        } else if a.in_(0x8000, 0x9FFF) || a.in_(OAM_START, OAM_END) || (a.in_(0xFF40, 0xFF4B) && a.0 != REG_DMA) {
            assert(self.lcd.spec_read(a.0) is Ok);
            match self.lcd.write(a, v) {
                Ok(_) => Ok(()),
                Err(e) => Err(e),
            }
        } else if a.in_(WRAM_START, WRAM_END) {
            self.internal_ram.data.set((a.0 - WRAM_START) as usize, v);
            Ok(())
        } else if a.in_(ECHO_START, ECHO_END) {
            self.internal_ram.data.set((a.0 - ECHO_START) as usize, v);
            Ok(())
        } else if a.in_(HRAM_START, HRAM_END) {
            self.high_ram.data.set((a.0 - HRAM_START) as usize, v);
            Ok(())
        } else if a.0 == REG_IE {
            self.interrupt_enable = v;
            Ok(())
        } else if a.0 == REG_IF {
            self.interrupt_flag = v;
            Ok(())
        } else if a.0 == REG_JOYP {
            self.joypad_select = v & 0x30;
            Ok(())
        } else if a.in_(REG_DIV, REG_TAC) {
            self.timer.write(a.0 - REG_DIV, v);
            Ok(())
        } else if a.in_(AUDIO_START, AUDIO_END) {
            self.write_audio(a.0 - AUDIO_START, v);
            Ok(())
        } else if a.0 == REG_DMA {
            match self.dma(v) {
                Ok(_) => Ok(()),
                Err(e) => Err(e),
            }
        } else if a.in_(IO_START, IO_END) {
            Ok(())
        } else {
            Err(ExecutionError::BusError)
        }
    }

    /// Stores an audio register byte (`index` from 0xFF10) and hands it to the
    /// channel it configures: sweep (NR10), duty and length (NR11, NR21), volume
    /// envelope (NR12, NR22), frequency (NR13/NR14, NR23/NR24, with the length
    /// enable in bit 6 and a restart in bit 7 of the high byte).
    fn write_audio(&mut self, index: u16, v: u8)
        requires
            old(self).wf(),
            index < AUDIO_LEN,
        ensures
            final(self).wf(),
            final(self).audio_regs.data@ == old(self).audio_regs.data@.update(index as int, v),
            *final(self) == (Mmu {
                square1: final(self).square1,
                square2: final(self).square2,
                audio_regs: final(self).audio_regs,
                ..*old(self)
            }),
            index == 0x02 ==> final(self).square1.vol == v / 16 && final(self).square1.vol_env_increment == (v & 0x08 != 0),
            index == 0x07 ==> final(self).square2.vol == v / 16 && final(self).square2.vol_env_increment == (v & 0x08 != 0),
            index == 0x01 ==> final(self).square1.duty_cycle == v / 64 && final(self).square1.len == 64 - v % 64,
            index == 0x06 ==> final(self).square2.duty_cycle == v / 64 && final(self).square2.len == 64 - v % 64,
            index == 0x03 ==> final(self).square1.frequency == (old(self).audio_regs.data@[0x04] as u64 % 8) * 256 + v,
            index == 0x08 ==> final(self).square2.frequency == (old(self).audio_regs.data@[0x09] as u64 % 8) * 256 + v,
            index == 0x04 ==> final(self).square1.use_len == (v & 0x40 != 0),
            index == 0x09 ==> final(self).square2.use_len == (v & 0x40 != 0),
    {
        self.audio_regs.data.set(index as usize, v);
        if index == 0x00 {
            assert(v & 0x07 < 64) by (bit_vector);
            self.square1.set_freqeuncy_sweepers((v >> 4u8) & 0x07, v & 0x07, v & 0x08 == 0);
        } else if index == 0x01 {
            self.square1.set_duty_cycle(v / 64);
            self.square1.update_length(v % 64);
        } else if index == 0x02 {
            self.square1.set_volume(v / 16);
            self.square1.increment_vol_env(v & 0x08 != 0);
            self.square1.set_vol_env_period(v & 0x07);
        } else if index == 0x03 {
            let hi = self.audio_regs.data[0x04];
            self.square1.set_frequency_from_bits(hi, v);
        } else if index == 0x04 {
            let lo = self.audio_regs.data[0x03];
            self.square1.set_frequency_from_bits(v, lo);
            if v & 0x80 != 0 {
                self.square1.reset();
            }
            self.square1.use_length_counter(v & 0x40 != 0);
        } else if index == 0x06 {
            self.square2.set_duty_cycle(v / 64);
            self.square2.update_length(v % 64);
        } else if index == 0x07 {
            self.square2.set_volume(v / 16);
            self.square2.increment_vol_env(v & 0x08 != 0);
            self.square2.set_vol_env_period(v & 0x07);
        } else if index == 0x08 {
            let hi = self.audio_regs.data[0x09];
            self.square2.set_frequency_from_bits(hi, v);
        } else if index == 0x09 {
            let lo = self.audio_regs.data[0x08];
            self.square2.set_frequency_from_bits(v, lo);
            if v & 0x80 != 0 {
                self.square2.reset();
            }
            self.square2.use_length_counter(v & 0x40 != 0);
        }
    }

    /// Copies the 160 bytes at `src << 8` into OAM.
    fn dma(&mut self, src: u8) -> (r: Result<(), ExecutionError>)
        requires
            old(self).wf(),
        ensures
            final(self).wf(),
            final(self).lcd.ly == old(self).lcd.ly,
            final(self).lcd.pumped_until == old(self).lcd.pumped_until,
            final(self).timer.last_cycle == old(self).timer.last_cycle,
            final(self).cart == old(self).cart,
            final(self).timer == old(self).timer,
            final(self).square1 == old(self).square1,
            final(self).square2 == old(self).square2,
            final(self).audio_regs == old(self).audio_regs,
            final(self).same_but_lcd_and_cart_ram(*old(self)),
            0xA0 <= src <= 0xDF ==> r is Ok && forall|k: int|
                0 <= k < 160 ==> #[trigger] final(self).lcd.oam.data@[k] == old(self).spec_read((src * 256 + k) as u16)->Ok_0,
            r == (if old(self).dma_fails(src) { Err::<(), ExecutionError>(ExecutionError::BusError) } else { Ok::<(), ExecutionError>(()) }),
    {
        let base: u16 = (src as u16) * 256;
        let mut i: u16 = 0;
        while i < 160
            invariant
                self.wf(),
                i <= 160,
                base == src * 256,
                self.lcd.ly == old(self).lcd.ly,
                self.lcd.pumped_until == old(self).lcd.pumped_until,
                self.timer == old(self).timer,
                self.square1 == old(self).square1,
                self.square2 == old(self).square2,
                self.audio_regs == old(self).audio_regs,
                self.cart == old(self).cart,
                self.same_but_lcd_and_cart_ram(*old(self)),
                0xA0 <= src <= 0xDF ==> forall|k: int|
                    0 <= k < i ==> #[trigger] self.lcd.oam.data@[k] == old(self).spec_read((src * 256 + k) as u16)->Ok_0,
                forall|k: int| 0 <= k < i ==> (#[trigger] old(self).spec_read((src * 256 + k) as u16)) is Ok,
                forall|b: u16| (#[trigger] self.spec_read(b) is Ok) == (old(self).spec_read(b) is Ok),
            decreases 160 - i,
        {
            let b = self.read(Address(base.wrapping_add(i)));
            assert(base.wrapping_add(i) == (src * 256 + i) as u16);
            proof {
                if 0xA0 <= src <= 0xDF {
                    assert(base.wrapping_add(i) == (src * 256 + i) as u16);
                    assert(self.spec_read((src * 256 + i) as u16) == old(self).spec_read((src * 256 + i) as u16));
                    assert(b is Ok);
                }
            }
            match b {
                Ok(v) => {
                    let ghost oam0 = self.lcd.oam.data@;
                    let ghost lcd0 = self.lcd;
                    let ghost mmu0 = *self;
                    let w = self.lcd.write(Address(OAM_START + i), v);
                    proof {
                        assert(self.lcd.spec_read((OAM_START + i) as u16) == Ok::<u8, ExecutionError>(v));
                        assert forall|k: int| 0 <= k < i implies #[trigger] self.lcd.oam.data@[k] == oam0[k] by {
                            let b = (OAM_START + k) as u16;
                            assert(b != OAM_START + i);
                            assert(self.lcd.spec_read(b) == lcd0.spec_read(b));
                        }
                        assert forall|b: u16| (#[trigger] self.spec_read(b) is Ok) == (old(self).spec_read(b) is Ok) by {
                            assert(mmu0.spec_read(b) is Ok == old(self).spec_read(b) is Ok);
                            if b != OAM_START + i {
                                assert(self.lcd.spec_read(b) == lcd0.spec_read(b));
                            }
                        }
                    }
                    if w.is_err() {
                        return w;
                    }
                },
                Err(e) => {
                    proof {
                        let x = (src * 256 + i) as u16;
                        assert(old(self).spec_read(x) is Err);
                        assert(old(self).dma_fails(src));
                        assert(self.spec_read(x) == Err::<u8, ExecutionError>(ExecutionError::BusError));
                    }
                    return Err(e);
                },
            }
            i = i + 1;
        }
        assert(!old(self).dma_fails(src));
        Ok(())
    }

    /// Reads a little-endian 16-bit value: the low byte at `a`, the high at `a + 1`.
    pub fn read16(&self, a: Address) -> (r: Result<u16, ExecutionError>)
        requires
            self.wf(),
        ensures
            r == self.spec_read16(a.0),
    {
        let lo = self.read(a)?;
        let hi = self.read(a.plus(Address(1)))?;
        Ok((hi as u16) * 256 + lo as u16)
    }

    /// Writes a little-endian 16-bit value: the low byte at `a`, the high at `a + 1`.
    pub fn write16(&mut self, a: Address, v: u16) -> (r: Result<(), ExecutionError>)
        requires
            old(self).wf(),
        ensures
            final(self).wf(),
            final(self).lcd.ly == old(self).lcd.ly,
            final(self).lcd.pumped_until == old(self).lcd.pumped_until,
            final(self).timer.last_cycle == old(self).timer.last_cycle,
            final(self).cart.rom@ == old(self).cart.rom@,
            a.0 != REG_DMA && wrap16(a.0 + 1) != REG_DMA ==> (r is Ok <==> !write_refused(a.0) && !write_refused(wrap16(a.0 + 1)))
                && (r is Err ==> r == Err::<(), ExecutionError>(ExecutionError::BusError)),
            word_reads_back(a.0) ==> r is Ok && final(self).spec_read16(a.0) == Ok::<u16, ExecutionError>(v)
                && final(self).interrupt_flag == old(self).interrupt_flag
                && final(self).interrupt_enable == old(self).interrupt_enable,
            stack_ram(a.0) ==> r is Ok
                && final(self).spec_read(a.0) == Ok::<u8, ExecutionError>((v % 256) as u8)
                && final(self).spec_read((a.0 + 1) as u16) == Ok::<u8, ExecutionError>((v / 256) as u8)
                && final(self).spec_read16(a.0) == Ok::<u16, ExecutionError>(v)
                && final(self).interrupt_flag == old(self).interrupt_flag
                && final(self).interrupt_enable == old(self).interrupt_enable
                && final(self).cart == old(self).cart
                && final(self).lcd == old(self).lcd,
    {
        self.write(a, (v % 256) as u8)?;
        let ghost mid = *self;
        let r = self.write(a.plus(Address(1)), (v / 256) as u8);
        proof {
            if word_reads_back(a.0) {
                assert(wrap16(a.0 + 1) != a.0 && !aliases(wrap16(a.0 + 1), a.0));
                assert(self.spec_read(a.0) == mid.spec_read(a.0));
            }
        }
        r
    }
}

} // verus!

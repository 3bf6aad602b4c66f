use vstd::prelude::*;
use crate::alu::{add16, and, dec, flag_set, hi, hi_lo, inc, lo, or, xor, Flags, FLAG_CARRY, FLAG_ZERO};
use crate::inst::{decode_spec, Arith, Control, Instruction, Load, Logic, Register16, Register8};
use crate::lcd::LCD_CYCLE_LIMIT;
use crate::mbc::{load_cart, mbc0_read, Mbc0, HEADER_CART_TYPE};
use crate::mem::{wrap16, Address, ExecutionError};
use crate::mmu::{reads_back, word_reads_back, write_refused, Mmu, REG_DMA};

verus! {

/// CPU clock rate in cycles per second.
pub const CLOCK_RATE: u64 = 4_190_000;

/// The largest cycle count at which an instruction may start.
pub const CPU_CYCLE_LIMIT: u64 = 0x3FFF_FFFF_FFFF_0000;

/// The cycles that the processor is stalled by an OAM DMA transfer.
pub const DMA_CYCLES: u64 = 160;

/// How many executed instructions are kept for diagnostics.
pub const HISTORY_LEN: usize = 50;

/// The interrupts, in priority order.
#[derive(Copy, Clone, Debug, PartialEq, Eq, Structural)]
pub enum Interrupt {
    VBlank,
    LCDC,
    Timer,
    Serial,
    Controller,
}

/// The interrupt-flag bit of an interrupt.
pub open spec fn interrupt_bit(i: Interrupt) -> u8 {
    match i {
        Interrupt::VBlank => 0x01,
        Interrupt::LCDC => 0x02,
        Interrupt::Timer => 0x04,
        Interrupt::Serial => 0x08,
        Interrupt::Controller => 0x10,
    }
}

/// The vector that an interrupt jumps to.
pub open spec fn vector_of(i: Interrupt) -> u16 {
    match i {
        Interrupt::VBlank => 0x40,
        Interrupt::LCDC => 0x48,
        Interrupt::Timer => 0x50,
        Interrupt::Serial => 0x58,
        Interrupt::Controller => 0x60,
    }
}

/// The highest-priority interrupt pending in `bits`, if any.
pub open spec fn first_pending(bits: u8) -> Option<Interrupt> {
    if bits & 0x01 != 0 {
        Some(Interrupt::VBlank)
    } else if bits & 0x02 != 0 {
        Some(Interrupt::LCDC)
    } else if bits & 0x04 != 0 {
        Some(Interrupt::Timer)
    } else if bits & 0x08 != 0 {
        Some(Interrupt::Serial)
    } else if bits & 0x10 != 0 {
        Some(Interrupt::Controller)
    } else {
        None
    }
}

impl Interrupt {
    /// Whether the interrupt's bit is set in an enable (or flag) register.
    pub fn is_enabled(self, reg: u8) -> (r: bool)
        ensures
            r == (reg & interrupt_bit(self) != 0),
    {
        match self {
            Interrupt::VBlank => (reg & 0b0000_0001) != 0,
            Interrupt::LCDC => (reg & 0b0000_0010) != 0,
            Interrupt::Timer => (reg & 0b0000_0100) != 0,
            Interrupt::Serial => (reg & 0b0000_1000) != 0,
            Interrupt::Controller => (reg & 0b0001_0000) != 0,
        }
    }

    /// The address of the interrupt's handler.
    pub fn table_address(self) -> (r: Address)
        ensures
            r.0 == vector_of(self),
    {
        match self {
            Interrupt::VBlank => Address(0x0040),
            Interrupt::LCDC => Address(0x0048),
            Interrupt::Timer => Address(0x0050),
            Interrupt::Serial => Address(0x0058),
            Interrupt::Controller => Address(0x0060),
        }
    }
}

fn interrupt_mask(i: Interrupt) -> (r: u8)
    ensures
        r == interrupt_bit(i),
{
    match i {
        Interrupt::VBlank => 0x01,
        Interrupt::LCDC => 0x02,
        Interrupt::Timer => 0x04,
        Interrupt::Serial => 0x08,
        Interrupt::Controller => 0x10,
    }
}

/// The longest duration, in whole seconds, that converts to cycles without overflow.
pub const MAX_DURATION_SECS: u64 = 4_000_000_000_000;

/// The number of CPU cycles in `secs` seconds and `nanos` nanoseconds.
pub open spec fn cycles_of(secs: u64, nanos: u32) -> int {
    secs * CLOCK_RATE + (CLOCK_RATE * nanos) / 1_000_000_000
}

/// The number of CPU cycles in `secs` seconds and `nanos` nanoseconds, rounded down.
pub fn duration_to_cycle_count(secs: u64, nanos: u32) -> (r: u64)
    requires
        nanos < 1_000_000_000,
        secs <= MAX_DURATION_SECS,
    ensures
        r == cycles_of(secs, nanos),
{
    assert(secs * CLOCK_RATE <= MAX_DURATION_SECS * CLOCK_RATE) by (nonlinear_arith)
        requires
            secs <= MAX_DURATION_SECS,
    ;
    assert(CLOCK_RATE * nanos <= CLOCK_RATE * 1_000_000_000) by (nonlinear_arith)
        requires
            nanos < 1_000_000_000,
    ;
    assert((CLOCK_RATE * nanos) / 1_000_000_000 <= CLOCK_RATE) by (nonlinear_arith)
        requires
            CLOCK_RATE * nanos <= CLOCK_RATE * 1_000_000_000,
    ;
    let scount = secs * CLOCK_RATE;
    let ncount = (CLOCK_RATE * nanos as u64) / 1_000_000_000;
    scount + ncount
}

fn first_pending_of(bits: u8) -> (r: Option<Interrupt>)
    ensures
        r == first_pending(bits),
{
    if bits & 0x01 != 0 {
        Some(Interrupt::VBlank)
    } else if bits & 0x02 != 0 {
        Some(Interrupt::LCDC)
    } else if bits & 0x04 != 0 {
        Some(Interrupt::Timer)
    } else if bits & 0x08 != 0 {
        Some(Interrupt::Serial)
    } else if bits & 0x10 != 0 {
        Some(Interrupt::Controller)
    } else {
        None
    }
}

/// Where an 8-bit register sits in the register file.
pub open spec fn reg_index(r: Register8) -> int {
    match r {
        Register8::A => 0,
        Register8::B => 1,
        Register8::C => 2,
        Register8::D => 3,
        Register8::E => 4,
        Register8::H => 5,
        Register8::L => 6,
        Register8::F => 7,
    }
}

fn reg_slot(r: Register8) -> (i: usize)
    ensures
        i == reg_index(r),
        i < 8,
{
    match r {
        Register8::A => 0,
        Register8::B => 1,
        Register8::C => 2,
        Register8::D => 3,
        Register8::E => 4,
        Register8::H => 5,
        Register8::L => 6,
        Register8::F => 7,
    }
}

/// The high and low halves of a register pair.
pub open spec fn pair_regs(r: Register16) -> (Register8, Register8) {
    match r {
        Register16::AF => (Register8::A, Register8::F),
        Register16::BC => (Register8::B, Register8::C),
        Register16::DE => (Register8::D, Register8::E),
        _ => (Register8::H, Register8::L),
    }
}

/// The value stored into register `r` when `v` is written: F keeps only bits 7 to 4.
pub open spec fn stored(r: Register8, v: u8) -> u8 {
    if r == Register8::F {
        v & 0xF0
    } else {
        v
    }
}

/// `a + o` for a signed offset, modulo 2^16.
pub open spec fn offset_addr(a: u16, o: i8) -> u16 {
    wrap16(a + o + 0x10000)
}

/// The processor: registers, the address space it owns, and the cycle counter.
pub struct Cpu {
    pub registers: Vec<u8>,
    pub pc: Address,
    pub sp: Address,
    pub mmu: Mmu,
    pub cycle: u64,
    pub interrupt_master_enable: bool,
    pub halted: bool,
    /// The last instructions executed, oldest first, with their addresses.
    pub last_instructions: Vec<(Address, Instruction)>,
    /// The fatal error that stopped execution, if any.
    pub fault: Option<ExecutionError>,
}

impl Cpu {
    pub open spec fn wf(&self) -> bool {
        &&& self.registers@.len() == 8
        &&& self.mmu.wf()
        &&& self.mmu.lcd.pumped_until <= self.cycle
        &&& self.mmu.timer.last_cycle <= self.cycle
        &&& self.cycle <= LCD_CYCLE_LIMIT
        &&& self.last_instructions@.len() <= HISTORY_LEN + 1
    }

    pub open spec fn reg(&self, r: Register8) -> u8 {
        self.registers@[reg_index(r)]
    }

    pub open spec fn r16(&self, r: Register16) -> u16 {
        match r {
            Register16::SP => self.sp.0,
            Register16::PC => self.pc.0,
            _ => (self.reg(pair_regs(r).0) * 256 + self.reg(pair_regs(r).1)) as u16,
        }
    }

    pub open spec fn flag_byte(&self) -> u8 {
        self.reg(Register8::F)
    }

    /// The registers after writing `v` into the 16-bit register `r`: (file, pc, sp).
    pub open spec fn with_r16(&self, r: Register16, v: u16) -> (Seq<u8>, u16, u16) {
        match r {
            Register16::SP => (self.registers@, self.pc.0, v),
            Register16::PC => (self.registers@, v, self.sp.0),
            _ => (
                self.registers@.update(reg_index(pair_regs(r).0), (v / 256) as u8).update(
                    reg_index(pair_regs(r).1),
                    stored(pair_regs(r).1, (v % 256) as u8),
                ),
                self.pc.0,
                self.sp.0,
            ),
        }
    }

    /// A processor at power-on: PC=0x0100, SP=0xFFFE, AF=0x01B0, BC=0x0013,
    /// DE=0x00D8, HL=0x014D, cycle 0, interrupts off.
    pub fn new(c: Mbc0) -> (r: Cpu)
        requires
            c.wf(),
        ensures
            r.wf(),
            r.pc.0 == 0x0100,
            r.sp.0 == 0xFFFE,
            r.r16(Register16::AF) == 0x01B0,
            r.r16(Register16::BC) == 0x0013,
            r.r16(Register16::DE) == 0x00D8,
            r.r16(Register16::HL) == 0x014D,
            r.cycle == 0,
            !r.interrupt_master_enable,
            !r.halted,
            r.fault is None,
            r.mmu.cart == c,
    {
        let registers: Vec<u8> = vec![0x01, 0x00, 0x13, 0x00, 0xD8, 0x01, 0x4D, 0xB0];
        Cpu {
            registers,
            sp: Address(0xFFFE),
            pc: Address(0x100),
            mmu: Mmu::new(c),
            cycle: 0,
            interrupt_master_enable: false,
            halted: false,
            last_instructions: Vec::new(),
            fault: None,
        }
    }

    /// A processor at power-on with the cartridge that a ROM image describes.
    pub fn from_cart(rom: Vec<u8>) -> (r: Result<Cpu, ExecutionError>)
        ensures
            rom@.len() > HEADER_CART_TYPE && rom@[HEADER_CART_TYPE as int] == 0 ==> r is Ok && ({
                let c = r->Ok_0;
                &&& c.wf()
                &&& c.pc.0 == 0x0100
                &&& c.sp.0 == 0xFFFE
                &&& c.r16(Register16::AF) == 0x01B0
                &&& c.r16(Register16::BC) == 0x0013
                &&& c.r16(Register16::DE) == 0x00D8
                &&& c.r16(Register16::HL) == 0x014D
                &&& c.cycle == 0
                &&& c.mmu.cart.rom@ == rom@
            }),
            !(rom@.len() > HEADER_CART_TYPE && rom@[HEADER_CART_TYPE as int] == 0) ==> r == Err::<Cpu, ExecutionError>(
                ExecutionError::CartridgeUnsupported,
            ),
    {
        let cart = load_cart(rom)?;
        Ok(Cpu::new(cart))
    }

    /// The cycle counter.
    pub fn cycle(&self) -> (r: u64)
        ensures
            r == self.cycle,
    {
        self.cycle
    }

    /// Whether the processor waits for an interrupt.
    pub fn is_halted(&self) -> (r: bool)
        ensures
            r == self.halted,
    {
        self.halted
    }

    /// Reads an 8-bit register.
    pub fn index(&self, r: Register8) -> (v: u8)
        requires
            self.wf(),
        ensures
            v == self.reg(r),
    {
        self.registers[reg_slot(r)]
    }

    /// Writes an 8-bit register; bits 3 to 0 of F always stay zero.
    pub fn index_mut(&mut self, r: Register8, v: u8)
        requires
            old(self).wf(),
        ensures
            final(self).wf(),
            final(self).registers@ == old(self).registers@.update(reg_index(r), stored(r, v)),
            *final(self) == (Cpu { registers: final(self).registers, ..*old(self) }),
    {
        let s = if r == Register8::F { v & 0xF0 } else { v };
        self.registers.set(reg_slot(r), s);
    }

    fn write_r16(&mut self, r: Register16, v: u16)
        requires
            old(self).wf(),
        ensures
            final(self).wf(),
            (final(self).registers@, final(self).pc.0, final(self).sp.0) == old(self).with_r16(r, v),
            *final(self) == (Cpu { registers: final(self).registers, pc: final(self).pc, sp: final(self).sp, ..*old(self) }),
    {
        match r {
            Register16::SP => self.sp = Address(v),
            Register16::PC => self.pc = Address(v),
            Register16::AF => {
                self.index_mut(Register8::A, hi(v));
                self.index_mut(Register8::F, lo(v));
            },
            Register16::BC => {
                self.index_mut(Register8::B, hi(v));
                self.index_mut(Register8::C, lo(v));
            },
            Register16::DE => {
                self.index_mut(Register8::D, hi(v));
                self.index_mut(Register8::E, lo(v));
            },
            Register16::HL => {
                self.index_mut(Register8::H, hi(v));
                self.index_mut(Register8::L, lo(v));
            },
        }
    }

    fn read_r16(&self, r: Register16) -> (v: u16)
        requires
            self.wf(),
        ensures
            v == self.r16(r),
    {
        match r {
            Register16::SP => self.sp.0,
            Register16::PC => self.pc.0,
            Register16::AF => hi_lo(self.index(Register8::A), self.index(Register8::F)),
            Register16::BC => hi_lo(self.index(Register8::B), self.index(Register8::C)),
            Register16::DE => hi_lo(self.index(Register8::D), self.index(Register8::E)),
            Register16::HL => hi_lo(self.index(Register8::H), self.index(Register8::L)),
        }
    }

    fn read_indirect(&self, r: Register16) -> (v: Result<u8, ExecutionError>)
        requires
            self.wf(),
        ensures
            v == self.mmu.spec_read(self.r16(r)),
    {
        let a = Address(self.read_r16(r));
        self.mmu.read(a)
    }

    fn write_indirect(&mut self, r: Register16, v: u8) -> (res: Result<(), ExecutionError>)
        requires
            old(self).wf(),
        ensures
            final(self).wf(),
            final(self).registers@ == old(self).registers@,
            final(self).pc == old(self).pc,
            final(self).sp == old(self).sp,
            final(self).cycle == old(self).cycle,
            final(self).halted == old(self).halted,
            final(self).interrupt_master_enable == old(self).interrupt_master_enable,
            final(self).last_instructions == old(self).last_instructions,
            final(self).fault == old(self).fault,
            final(self).mmu.lcd.pumped_until == old(self).mmu.lcd.pumped_until,
            final(self).mmu.timer.last_cycle == old(self).mmu.timer.last_cycle,
            res == old(self).mmu.write_result(old(self).r16(r), v),
            reads_back(old(self).r16(r)) ==> final(self).mmu.spec_read(old(self).r16(r)) == Ok::<u8, ExecutionError>(v),
    {
        let a = Address(self.read_r16(r));
        self.mmu.write(a, v)
    }

    fn flags(&self) -> (f: Flags)
        requires
            self.wf(),
        ensures
            f.0 == self.flag_byte(),
    {
        Flags(self.index(Register8::F))
    }

    /// Everything but the register file, PC and SP is as in `o`.
    pub open spec fn same_but_registers(&self, o: Cpu) -> bool {
        &&& self.mmu == o.mmu
        &&& self.cycle == o.cycle
        &&& self.interrupt_master_enable == o.interrupt_master_enable
        &&& self.halted == o.halted
        &&& self.last_instructions == o.last_instructions
        &&& self.fault == o.fault
    }

    /// The register file after an 8-bit ALU result `v` goes to `r` and flags `f` to F.
    pub open spec fn with_result(&self, r: Register8, v: u8, f: u8) -> Seq<u8> {
        self.registers@.update(reg_index(r), stored(r, v)).update(7, stored(Register8::F, f))
    }

    /// What an arithmetic instruction does to the registers: (file, pc, sp).
    pub open spec fn arith_effect(&self, a: Arith) -> (Seq<u8>, u16, u16) {
        let f = self.flag_byte();
        match a {
            Arith::IncR(r) => {
                let v = self.reg(r);
                (self.with_result(r, ((v + 1) % 256) as u8, crate::alu::flag_byte((v + 1) % 256 == 0, false, v % 16 == 15, flag_set(f, FLAG_CARRY))), self.pc.0, self.sp.0)
            },
            Arith::DecR(r) => {
                let v = self.reg(r);
                (self.with_result(r, ((v - 1 + 256) % 256) as u8, crate::alu::flag_byte((v - 1 + 256) % 256 == 0, true, v % 16 == 0, flag_set(f, FLAG_CARRY))), self.pc.0, self.sp.0)
            },
            Arith::IncR16(r) => self.with_r16(r, ((self.r16(r) + 1) % 0x10000) as u16),
            Arith::DecR16(r) => self.with_r16(r, ((self.r16(r) - 1 + 0x10000) % 0x10000) as u16),
            Arith::AddRR16(d, s) => {
                let x = self.r16(d);
                let y = self.r16(s);
                let w = self.with_r16(d, ((x + y) % 0x10000) as u16);
                (w.0.update(7, stored(Register8::F, crate::alu::flag_byte(flag_set(f, FLAG_ZERO), false, x % 0x1000 + y % 0x1000 > 0xFFF, x + y > 0xFFFF))), w.1, w.2)
            },
        }
    }

    /// Runs an arithmetic instruction.
    #[verifier::rlimit(80)]
    fn execute_arith(&mut self, a: Arith) -> (r: Result<(), ExecutionError>)
        requires
            old(self).wf(),
        ensures
            final(self).wf(),
            r is Ok,
            (final(self).registers@, final(self).pc.0, final(self).sp.0) == old(self).arith_effect(a),
            final(self).same_but_registers(*old(self)),
    {
        match a {
            Arith::IncR(r) => {
                let (v, flags) = inc(self.index(r), self.flags());
                self.index_mut(r, v);
                self.index_mut(Register8::F, flags.0);
            },
            Arith::DecR(r) => {
                let (v, flags) = dec(self.index(r), self.flags());
                self.index_mut(r, v);
                self.index_mut(Register8::F, flags.0);
            },
            Arith::DecR16(r) => {
                let v = self.read_r16(r);
                self.write_r16(r, v.wrapping_sub(1));
            },
            Arith::IncR16(r) => {
                let v = self.read_r16(r);
                self.write_r16(r, v.wrapping_add(1));
            },
            Arith::AddRR16(d, s) => {
                let v1 = self.read_r16(d);
                let v2 = self.read_r16(s);
                let (v3, flags) = add16(v1, v2, self.flags());
                self.write_r16(d, v3);
                self.index_mut(Register8::F, flags.0);
            },
        }
        Ok(())
    }

    /// What a logic instruction leaves in the register file, given the operand
    /// byte it reads (from a register, an immediate or memory at HL).
    pub open spec fn logic_effect(&self, l: Logic, operand: u8) -> Seq<u8> {
        let a = self.reg(Register8::A);
        match l {
            Logic::AndI(_) | Logic::AndR(_) | Logic::AndN => self.with_result(Register8::A, a & operand, crate::alu::flag_byte(a & operand == 0, false, true, false)),
            Logic::OrI(_) | Logic::OrR(_) | Logic::OrN => self.with_result(Register8::A, a | operand, crate::alu::flag_byte(a | operand == 0, false, false, false)),
            Logic::XorR(_) => self.with_result(Register8::A, a ^ operand, crate::alu::flag_byte(a ^ operand == 0, false, false, false)),
        }
    }

    /// The operand byte of a logic instruction, or the error reading it.
    pub open spec fn logic_operand(&self, l: Logic) -> Result<u8, ExecutionError> {
        match l {
            Logic::AndI(v) | Logic::OrI(v) => Ok(v),
            Logic::AndR(r) | Logic::OrR(r) | Logic::XorR(r) => Ok(self.reg(r)),
            Logic::AndN | Logic::OrN => self.mmu.spec_read(self.r16(Register16::HL)),
        }
    }

    /// Runs a logic instruction on A.
    fn execute_logic(&mut self, l: Logic) -> (r: Result<(), ExecutionError>)
        requires
            old(self).wf(),
        ensures
            final(self).wf(),
            final(self).same_but_registers(*old(self)),
            final(self).pc == old(self).pc,
            final(self).sp == old(self).sp,
            match old(self).logic_operand(l) {
                Ok(v) => r is Ok && final(self).registers@ == old(self).logic_effect(l, v),
                Err(e) => r == Err::<(), ExecutionError>(e) && final(self).registers@ == old(self).registers@,
            },
    {
        let v = match l {
            Logic::AndI(v) | Logic::OrI(v) => v,
            Logic::AndR(r) | Logic::OrR(r) | Logic::XorR(r) => self.index(r),
            Logic::AndN | Logic::OrN => self.read_indirect(Register16::HL)?,
        };
        let a = self.index(Register8::A);
        let (value, flags) = match l {
            Logic::AndI(_) | Logic::AndR(_) | Logic::AndN => and(a, v),
            Logic::OrI(_) | Logic::OrR(_) | Logic::OrN => or(a, v),
            Logic::XorR(_) => xor(a, v),
        };
        self.index_mut(Register8::A, value);
        self.index_mut(Register8::F, flags.0);
        Ok(())
    }

    /// Whether a branch's condition holds on the current flags.
    pub open spec fn branch_taken(&self, c: Control) -> bool {
        let z = flag_set(self.flag_byte(), FLAG_ZERO);
        let cy = flag_set(self.flag_byte(), FLAG_CARRY);
        match c {
            Control::JrNZI(_) | Control::JpNZI(_) => !z,
            Control::JrZI(_) | Control::JpZI(_) => z,
            Control::JrNCI(_) | Control::JpNCI(_) => !cy,
            Control::JrCI(_) | Control::JpCI(_) => cy,
            _ => true,
        }
    }

    /// Where PC and SP stand after branch instruction `c` from state `o`, given
    /// whether it succeeded.
    pub open spec fn control_post(&self, o: Cpu, c: Control, ok: bool) -> bool {
        match c {
            Control::JrNZI(d) | Control::JrZI(d) | Control::JrNCI(d) | Control::JrCI(d) | Control::JrI(d) => ok
                && self.pc.0 == (if o.branch_taken(c) { offset_addr(o.pc.0, d) } else { o.pc.0 }) && self.sp == o.sp,
            Control::JpNZI(a) | Control::JpZI(a) | Control::JpNCI(a) | Control::JpCI(a) | Control::JpI(a) => ok
                && self.pc == (if o.branch_taken(c) { a } else { o.pc }) && self.sp == o.sp,
            Control::Ret => match o.mmu.spec_read16(o.sp.0) {
                Ok(v) => ok && self.pc.0 == v && self.sp.0 == wrap16(o.sp.0 + 2),
                Err(_) => !ok && self.pc == o.pc && self.sp == o.sp,
            },
            Control::CallI(a) => (ok ==> self.pc == a && self.sp.0 == wrap16(o.sp.0 - 2 + 0x10000)) && (!ok
                ==> self.pc == o.pc && self.sp == o.sp) && (Self::stack_slot_plain(o.sp.0) ==> (ok <==> Self::stack_slot_writable(o.sp.0)))
                && (word_reads_back(wrap16(o.sp.0 - 2 + 0x10000)) ==> ok
                && self.mmu.spec_read16(self.sp.0) == Ok::<u16, ExecutionError>(o.pc.0)),
        }
    }

    /// Runs a jump, call or return; the result tells whether the branch was taken.
    fn execute_control(&mut self, c: Control) -> (r: Result<bool, ExecutionError>)
        requires
            old(self).wf(),
        ensures
            final(self).wf(),
            final(self).registers@ == old(self).registers@,
            final(self).cycle == old(self).cycle,
            final(self).interrupt_master_enable == old(self).interrupt_master_enable,
            final(self).halted == old(self).halted,
            final(self).last_instructions == old(self).last_instructions,
            final(self).fault == old(self).fault,
            final(self).mmu.lcd.pumped_until == old(self).mmu.lcd.pumped_until,
            final(self).mmu.timer.last_cycle == old(self).mmu.timer.last_cycle,
            !(c is CallI) ==> final(self).mmu == old(self).mmu,
            match c {
                Control::JrNZI(o) | Control::JrZI(o) | Control::JrNCI(o) | Control::JrCI(o) | Control::JrI(o) => {
                    &&& r == Ok::<bool, ExecutionError>(old(self).branch_taken(c))
                    &&& final(self).pc.0 == if old(self).branch_taken(c) { offset_addr(old(self).pc.0, o) } else { old(self).pc.0 }
                    &&& final(self).sp == old(self).sp
                },
                Control::JpNZI(a) | Control::JpZI(a) | Control::JpNCI(a) | Control::JpCI(a) | Control::JpI(a) => {
                    &&& r == Ok::<bool, ExecutionError>(old(self).branch_taken(c))
                    &&& final(self).pc == if old(self).branch_taken(c) { a } else { old(self).pc }
                    &&& final(self).sp == old(self).sp
                },
                Control::Ret => match old(self).mmu.spec_read16(old(self).sp.0) {
                    Ok(v) => r == Ok::<bool, ExecutionError>(true) && final(self).pc.0 == v && final(self).sp.0 == wrap16(old(self).sp.0 + 2),
                    Err(e) => r == Err::<bool, ExecutionError>(e) && final(self).pc == old(self).pc && final(self).sp == old(self).sp,
                },
                Control::CallI(a) => {
                    &&& r is Ok ==> r == Ok::<bool, ExecutionError>(true) && final(self).pc == a && final(self).sp.0 == wrap16(old(self).sp.0 - 2 + 0x10000)
                    &&& r is Err ==> final(self).pc == old(self).pc && final(self).sp == old(self).sp
                    &&& Self::stack_slot_plain(old(self).sp.0) ==> (r is Ok <==> Self::stack_slot_writable(old(self).sp.0))
                    &&& word_reads_back(wrap16(old(self).sp.0 - 2 + 0x10000)) ==> r is Ok
                        && final(self).mmu.spec_read16(final(self).sp.0) == Ok::<u16, ExecutionError>(old(self).pc.0)
                },
            },
    {
        let f = self.flags();
        match c {
            Control::JrNZI(o) | Control::JrZI(o) | Control::JrNCI(o) | Control::JrCI(o) | Control::JrI(o) => {
                let taken = match c {
                    Control::JrNZI(_) => !f.get_zero(),
                    Control::JrZI(_) => f.get_zero(),
                    Control::JrNCI(_) => !f.get_carry(),
                    Control::JrCI(_) => f.get_carry(),
                    _ => true,
                };
                if taken {
                    let off: u16 = if o >= 0 { o as u16 } else { (65536 + o as i32) as u16 };
                    self.pc = Address(self.pc.0.wrapping_add(off));
                    assert(self.pc.0 == offset_addr(old(self).pc.0, o));
                }
                Ok(taken)
            },
            Control::JpNZI(a) | Control::JpZI(a) | Control::JpNCI(a) | Control::JpCI(a) | Control::JpI(a) => {
                let taken = match c {
                    Control::JpNZI(_) => !f.get_zero(),
                    Control::JpZI(_) => f.get_zero(),
                    Control::JpNCI(_) => !f.get_carry(),
                    Control::JpCI(_) => f.get_carry(),
                    _ => true,
                };
                if taken {
                    self.pc = a;
                }
                Ok(taken)
            },
            Control::Ret => {
                let v = self.mmu.read16(self.sp)?;
                self.pc = Address(v);
                self.sp = self.sp.plus(Address(2));
                Ok(true)
            },
            Control::CallI(a) => {
                let nsp = self.sp.minus(Address(2));
                self.mmu.write16(nsp, self.pc.0)?;
                self.sp = nsp;
                self.pc = a;
                Ok(true)
            },
        }
    }

    /// The register file after `HL` moves by the signed step `d`.
    pub open spec fn hl_stepped(regs: Seq<u8>, hl: u16, d: i8) -> Seq<u8> {
        let n = offset_addr(hl, d);
        regs.update(reg_index(Register8::H), (n / 256) as u8).update(reg_index(Register8::L), (n % 256) as u8)
    }

    /// The address that a loading instruction reads from, if it reads memory.
    pub open spec fn load_source(&self, l: Load) -> Option<u16> {
        match l {
            Load::LdRM(_, a) | Load::LdANI16(a) => Some(a.0),
            Load::LdANC => Some((0xFF00 + self.reg(Register8::C)) as u16),
            Load::LdRN16(r) => Some(self.r16(r)),
            Load::LdAN(_) => Some(self.r16(Register16::HL)),
            _ => None,
        }
    }

    /// What a load instruction that reads byte `v` from memory leaves in the register file.
    pub open spec fn loaded(&self, l: Load, v: u8) -> Seq<u8> {
        let a = self.registers@.update(reg_index(Register8::A), v);
        match l {
            Load::LdRM(d, _) => self.registers@.update(reg_index(d), stored(d, v)),
            Load::LdAN(d) => Self::hl_stepped(a, self.r16(Register16::HL), d),
            _ => a,
        }
    }

    /// Whether instruction `i` stores a byte into the DMA register, which stalls
    /// the processor while OAM is filled.
    pub open spec fn stores_to_dma(&self, i: Instruction) -> bool {
        match i {
            Instruction::Load(l) => match self.store_target(l) {
                Some((a, _)) => a == REG_DMA,
                None => false,
            },
            _ => false,
        }
    }

    fn is_dma_store(&self, i: Instruction) -> (r: bool)
        requires
            self.wf(),
        ensures
            r == self.stores_to_dma(i),
    {
        match i {
            Instruction::Load(l) => {
                let a: u16 = match l {
                    Load::LdMR(d, _) | Load::LdNIA16(d) => d.0,
                    Load::LdNA(_) | Load::LdNI(_) => self.read_r16(Register16::HL),
                    Load::LdNCA => 0xFF00 + self.index(Register8::C) as u16,
                    Load::LdNR16(r) => self.read_r16(r),
                    _ => {
                        return false;
                    },
                };
                a == REG_DMA
            },
            _ => false,
        }
    }

    /// Whether neither byte of the stack slot below `sp` is the DMA register, so
    /// that whether a push there succeeds depends on the addresses alone.
    pub open spec fn stack_slot_plain(sp: u16) -> bool {
        wrap16(sp - 2 + 0x10000) != REG_DMA && wrap16(sp - 1 + 0x10000) != REG_DMA
    }

    /// Whether both bytes of the stack slot below `sp` accept writes.
    pub open spec fn stack_slot_writable(sp: u16) -> bool {
        !write_refused(wrap16(sp - 2 + 0x10000)) && !write_refused(wrap16(sp - 1 + 0x10000))
    }

    /// The address a storing instruction writes and the byte it writes there.
    pub open spec fn store_target(&self, l: Load) -> Option<(u16, u8)> {
        let a = self.reg(Register8::A);
        match l {
            Load::LdMR(d, r) => Some((d.0, self.reg(r))),
            Load::LdNA(_) => Some((self.r16(Register16::HL), a)),
            Load::LdNCA => Some(((0xFF00 + self.reg(Register8::C)) as u16, a)),
            Load::LdNI(v) => Some((self.r16(Register16::HL), v)),
            Load::LdNR16(r) => Some((self.r16(r), a)),
            Load::LdNIA16(d) => Some((d.0, a)),
            _ => None,
        }
    }

    /// A store into plain RAM succeeds and reads back the stored byte (`self` is
    /// the state before, `n` after).
    pub open spec fn store_post(&self, n: Cpu, l: Load, r: Result<(), ExecutionError>) -> bool {
        match self.store_target(l) {
            Some((a, v)) => r == self.mmu.write_result(a, v) && (reads_back(a) ==> n.mmu.spec_read(a) == Ok::<u8, ExecutionError>(v)),
            None => true,
        }
    }

    /// The contract of a load instruction, from state `o` to state `self` with result `r`.
    pub open spec fn load_post(&self, o: Cpu, l: Load, r: Result<(), ExecutionError>) -> bool {
        match l {
            Load::LdRR(d, s) => r is Ok && self.registers@ == o.registers@.update(reg_index(d), stored(d, o.reg(s)))
                && self.pc == o.pc && self.sp == o.sp && self.mmu == o.mmu,
            Load::LdRI(d, i) => r is Ok && self.registers@ == o.registers@.update(reg_index(d), stored(d, i))
                && self.pc == o.pc && self.sp == o.sp && self.mmu == o.mmu,
            Load::LdRI16(d, i) => r is Ok && (self.registers@, self.pc.0, self.sp.0) == o.with_r16(d, i)
                && self.mmu == o.mmu,
            Load::LdRM(_, _) | Load::LdANI16(_) | Load::LdANC | Load::LdRN16(_) | Load::LdAN(_) => {
                &&& self.mmu == o.mmu
                &&& self.pc == o.pc
                &&& self.sp == o.sp
                &&& match o.mmu.spec_read(o.load_source(l).unwrap()) {
                    Ok(v) => r is Ok && self.registers@ == o.loaded(l, v),
                    Err(e) => r == Err::<(), ExecutionError>(e) && self.registers@ == o.registers@,
                }
            },
            Load::Pop(d) => {
                &&& self.mmu == o.mmu
                &&& match o.mmu.spec_read16(o.sp.0) {
                    Ok(v) => {
                        let w = o.with_r16(d, v);
                        r is Ok && self.registers@ == w.0 && self.pc.0 == w.1 && self.sp.0 == wrap16(w.2 + 2)
                    },
                    Err(e) => r == Err::<(), ExecutionError>(e) && self.registers@ == o.registers@ && self.pc == o.pc && self.sp == o.sp,
                }
            },
            Load::LdNA(d) => self.pc == o.pc && self.sp == o.sp && (r is Ok ==> self.registers@ == Self::hl_stepped(
                o.registers@, o.r16(Register16::HL), d)) && (r is Err ==> self.registers@ == o.registers@)
                && o.store_post(*self, l, r),
            Load::Push(s) => self.pc == o.pc && self.registers@ == o.registers@ && (r is Ok ==> self.sp.0 == wrap16(o.sp.0 - 2 + 0x10000))
                && (r is Err ==> self.sp == o.sp)
                && (word_reads_back(wrap16(o.sp.0 - 2 + 0x10000)) ==> r is Ok && self.mmu.spec_read16(self.sp.0) == Ok::<u16, ExecutionError>(o.r16(s)))
                && (Self::stack_slot_plain(o.sp.0) ==> (r is Ok <==> Self::stack_slot_writable(o.sp.0))),
            _ => self.pc == o.pc && self.sp == o.sp && self.registers@ == o.registers@ && o.store_post(*self, l, r),
        }
    }

    /// Runs a load between registers and immediates.
    #[verifier::spinoff_prover]
    fn load_register(&mut self, l: Load) -> (r: Result<(), ExecutionError>)
        requires
            old(self).wf(),
            l is LdRR || l is LdRI || l is LdRI16,
        ensures
            final(self).wf(),
            final(self).cycle == old(self).cycle,
            final(self).interrupt_master_enable == old(self).interrupt_master_enable,
            final(self).halted == old(self).halted,
            final(self).last_instructions == old(self).last_instructions,
            final(self).fault == old(self).fault,
            final(self).mmu.lcd.pumped_until == old(self).mmu.lcd.pumped_until,
            final(self).mmu.timer.last_cycle == old(self).mmu.timer.last_cycle,
            final(self).load_post(*old(self), l, r),
    {
        match l {
            Load::LdRR(d, s) => {
                let v = self.index(s);
                self.index_mut(d, v);
            },
            Load::LdRI(r, i) => {
                self.index_mut(r, i);
            },
            Load::LdRI16(r, i) => {
                self.write_r16(r, i);
            },
            _ => {},
        }
        Ok(())
    }

    /// Runs a load from memory into registers.
    #[verifier::spinoff_prover]
    fn load_from_memory(&mut self, l: Load) -> (r: Result<(), ExecutionError>)
        requires
            old(self).wf(),
            l is LdRM || l is LdANI16 || l is LdANC || l is LdRN16 || l is LdAN || l is Pop,
        ensures
            final(self).wf(),
            final(self).cycle == old(self).cycle,
            final(self).interrupt_master_enable == old(self).interrupt_master_enable,
            final(self).halted == old(self).halted,
            final(self).last_instructions == old(self).last_instructions,
            final(self).fault == old(self).fault,
            final(self).mmu.lcd.pumped_until == old(self).mmu.lcd.pumped_until,
            final(self).mmu.timer.last_cycle == old(self).mmu.timer.last_cycle,
            final(self).load_post(*old(self), l, r),
    {
        match l {
            Load::LdRM(r, a) => {
                let v = self.mmu.read(a)?;
                self.index_mut(r, v);
            },
            Load::LdAN(d) => {
                let a = self.read_r16(Register16::HL);
                let v = self.mmu.read(Address(a))?;
                self.index_mut(Register8::A, v);
                let step: u16 = if d >= 0 { d as u16 } else { (65536 + d as i32) as u16 };
                self.write_r16(Register16::HL, a.wrapping_add(step));
            },
            Load::LdANC => {
                let a = Address(self.index(Register8::C) as u16 + 0xFF00);
                let v = self.mmu.read(a)?;
                self.index_mut(Register8::A, v);
            },
            Load::LdRN16(r) => {
                let v = self.read_indirect(r)?;
                self.index_mut(Register8::A, v);
            },
            Load::LdANI16(a) => {
                let v = self.mmu.read(a)?;
                self.index_mut(Register8::A, v);
            },
            Load::Pop(r) => {
                let v = self.mmu.read16(self.sp)?;
                self.write_r16(r, v);
                self.sp = self.sp.plus(Address(2));
            },
            _ => {},
        }
        Ok(())
    }

    /// Runs a store from registers into memory.
    #[verifier::spinoff_prover]
    #[verifier::rlimit(100)]
    fn store_to_memory(&mut self, l: Load) -> (r: Result<(), ExecutionError>)
        requires
            old(self).wf(),
            l is LdMR || l is LdNA || l is LdNCA || l is LdNI || l is LdNR16 || l is LdNIA16 || l is Push,
        ensures
            final(self).wf(),
            final(self).cycle == old(self).cycle,
            final(self).interrupt_master_enable == old(self).interrupt_master_enable,
            final(self).halted == old(self).halted,
            final(self).last_instructions == old(self).last_instructions,
            final(self).fault == old(self).fault,
            final(self).mmu.lcd.pumped_until == old(self).mmu.lcd.pumped_until,
            final(self).mmu.timer.last_cycle == old(self).mmu.timer.last_cycle,
            final(self).load_post(*old(self), l, r),
    {
        match l {
            Load::LdMR(a, r) => {
                let v = self.index(r);
                self.mmu.write(a, v)?;
            },
            Load::LdNA(d) => {
                let a = self.read_r16(Register16::HL);
                let v = self.index(Register8::A);
                self.mmu.write(Address(a), v)?;
                let step: u16 = if d >= 0 { d as u16 } else { (65536 + d as i32) as u16 };
                self.write_r16(Register16::HL, a.wrapping_add(step));
            },
            Load::LdNCA => {
                let a = Address(self.index(Register8::C) as u16 + 0xFF00);
                let v = self.index(Register8::A);
                self.mmu.write(a, v)?;
            },
            Load::LdNI(v) => {
                self.write_indirect(Register16::HL, v)?;
            },
            Load::LdNR16(r) => {
                let v = self.index(Register8::A);
                self.write_indirect(r, v)?;
            },
            Load::LdNIA16(a) => {
                let v = self.index(Register8::A);
                self.mmu.write(a, v)?;
            },
            Load::Push(r) => {
                let nsp = self.sp.minus(Address(2));
                let v = self.read_r16(r);
                self.mmu.write16(nsp, v)?;
                self.sp = nsp;
            },
            _ => {},
        }
        Ok(())
    }

    /// Runs a load, store, push or pop.
    fn execute_load(&mut self, l: Load) -> (r: Result<(), ExecutionError>)
        requires
            old(self).wf(),
        ensures
            final(self).wf(),
            final(self).cycle == old(self).cycle,
            final(self).interrupt_master_enable == old(self).interrupt_master_enable,
            final(self).halted == old(self).halted,
            final(self).last_instructions == old(self).last_instructions,
            final(self).fault == old(self).fault,
            final(self).mmu.lcd.pumped_until == old(self).mmu.lcd.pumped_until,
            final(self).mmu.timer.last_cycle == old(self).mmu.timer.last_cycle,
            final(self).load_post(*old(self), l, r),
    {
        match l {
            Load::LdRR(_, _) | Load::LdRI(_, _) | Load::LdRI16(_, _) => self.load_register(l),
            Load::LdRM(_, _) | Load::LdANI16(_) | Load::LdANC | Load::LdRN16(_) | Load::LdAN(_) | Load::Pop(_) => self.load_from_memory(l),
            _ => self.store_to_memory(l),
        }
    }

    /// Whether instruction `i`, run from this state, takes its branch (always
    /// true for what is not a conditional branch).
    pub open spec fn taken(&self, i: Instruction) -> bool {
        match i {
            Instruction::Control(c) => self.branch_taken(c),
            _ => true,
        }
    }

    /// Runs one decoded instruction and charges its cycle cost.
    #[verifier::rlimit(60)]
    fn execute(&mut self, i: Instruction) -> (r: Result<(), ExecutionError>)
        requires
            old(self).wf(),
            old(self).cycle <= CPU_CYCLE_LIMIT,
        ensures
            final(self).wf(),
            final(self).last_instructions == old(self).last_instructions,
            final(self).fault == old(self).fault,
            r is Ok ==> final(self).cycle == old(self).cycle + i.spec_cycles(old(self).taken(i)) + if old(self).stores_to_dma(i) { DMA_CYCLES as int } else { 0 },
            r is Err ==> final(self).cycle == old(self).cycle,
            final(self).mmu.lcd.pumped_until == old(self).mmu.lcd.pumped_until,
            final(self).mmu.timer.last_cycle == old(self).mmu.timer.last_cycle,
            !(i is Ei || i is Di) ==> final(self).interrupt_master_enable == old(self).interrupt_master_enable,
            !(i is Control || i is Load) ==> final(self).mmu == old(self).mmu,
            !(i is Control || i is Load || i is Arith) ==> final(self).pc == old(self).pc && final(self).sp == old(self).sp,
            !(i is Halt) ==> final(self).halted == old(self).halted,
            match i {
                Instruction::Nop => r is Ok && final(self).registers@ == old(self).registers@ && final(self).pc == old(self).pc
                    && final(self).mmu == old(self).mmu
                    && final(self).sp == old(self).sp && final(self).halted == old(self).halted
                    && final(self).interrupt_master_enable == old(self).interrupt_master_enable,
                Instruction::Ei => r is Ok && final(self).interrupt_master_enable && final(self).halted == old(self).halted
                    && final(self).registers@ == old(self).registers@ && final(self).pc == old(self).pc,
                Instruction::Di => r is Ok && !final(self).interrupt_master_enable && final(self).halted == old(self).halted
                    && final(self).registers@ == old(self).registers@ && final(self).pc == old(self).pc,
                Instruction::Halt => r is Ok && final(self).halted && final(self).registers@ == old(self).registers@
                    && final(self).pc == old(self).pc,
                Instruction::Arith(a) => r is Ok && (final(self).registers@, final(self).pc.0, final(self).sp.0)
                    == old(self).arith_effect(a) && final(self).halted == old(self).halted,
                Instruction::Logic(l) => final(self).pc == old(self).pc && match old(self).logic_operand(l) {
                    Ok(v) => r is Ok && final(self).registers@ == old(self).logic_effect(l, v),
                    Err(e) => r == Err::<(), ExecutionError>(e),
                },
                Instruction::Load(l) => final(self).load_post(*old(self), l, r) && final(self).halted == old(self).halted,
                Instruction::CpI(v) => r is Ok && final(self).registers@ == old(self).registers@.update(7, stored(Register8::F,
                    crate::alu::flag_byte((old(self).reg(Register8::A) - v + 256) % 256 == 0, true, old(self).reg(Register8::A) % 16 < v % 16, old(self).reg(Register8::A) < v))),
                Instruction::CpR(x) => r is Ok && final(self).registers@ == old(self).registers@.update(7, stored(Register8::F,
                    crate::alu::flag_byte((old(self).reg(Register8::A) - old(self).reg(x) + 256) % 256 == 0, true, old(self).reg(Register8::A) % 16 < old(self).reg(x) % 16, old(self).reg(Register8::A) < old(self).reg(x)))),
                Instruction::Res(b, x) => r is Ok && final(self).registers@ == old(self).registers@.update(reg_index(x), stored(x, old(self).reg(x) & !((1u8 << (b % 8)) as u8))),
                Instruction::Control(c) => final(self).registers@ == old(self).registers@ && final(self).control_post(*old(self), c, r is Ok),
            },
    {
        let dma = self.is_dma_store(i);
        let mut taken = true;
        match i {
            Instruction::Nop => {},
            Instruction::Ei => {
                self.interrupt_master_enable = true;
            },
            Instruction::Di => {
                self.interrupt_master_enable = false;
            },
            Instruction::Halt => {
                self.halted = true;
            },
            Instruction::Res(b, r) => {
                let v = self.index(r) & !(1u8 << (b % 8));
                self.index_mut(r, v);
            },
            Instruction::CpI(v) => {
                let (_, flags) = crate::alu::sub(self.index(Register8::A), v);
                self.index_mut(Register8::F, flags.0);
            },
            Instruction::CpR(r) => {
                let v = self.index(r);
                let (_, flags) = crate::alu::sub(self.index(Register8::A), v);
                self.index_mut(Register8::F, flags.0);
            },
            Instruction::Arith(a) => {
                self.execute_arith(a)?;
            },
            Instruction::Control(c) => {
                taken = self.execute_control(c)?;
            },
            Instruction::Load(l) => {
                self.execute_load(l)?;
            },
            Instruction::Logic(l) => {
                self.execute_logic(l)?;
            },
        }
        self.cycle = self.cycle + i.cycles(taken) as u64 + if dma { DMA_CYCLES } else { 0 };
        Ok(())
    }

    /// The three bytes at PC, decoded, or the error reading or decoding them.
    pub open spec fn spec_fetch(&self) -> Result<(Instruction, u8), ExecutionError> {
        match (self.mmu.spec_read(self.pc.0), self.mmu.spec_read(wrap16(self.pc.0 + 1)), self.mmu.spec_read(wrap16(self.pc.0 + 2))) {
            (Ok(b0), Ok(b1), Ok(b2)) => decode_spec(b0, b1, b2),
            (Err(e), _, _) => Err(e),
            (Ok(_), Err(e), _) => Err(e),
            (Ok(_), Ok(_), Err(e)) => Err(e),
        }
    }

    fn fetch_instruction(&self) -> (r: Result<(Instruction, u8), ExecutionError>)
        requires
            self.wf(),
        ensures
            r == self.spec_fetch(),
    {
        let b0 = self.mmu.read(self.pc)?;
        let b1 = self.mmu.read(self.pc.plus(Address(1)))?;
        let b2 = self.mmu.read(self.pc.plus(Address(2)))?;
        Instruction::decode([b0, b1, b2])
    }

    /// Jumps to the handler of interrupt `irq`: a halted processor wakes,
    /// interrupts are disabled, its flag bit cleared, PC pushed, and 20 cycles charged.
    fn handle_interrupt(&mut self, irq: Interrupt) -> (r: Result<(), ExecutionError>)
        requires
            old(self).wf(),
            old(self).cycle <= LCD_CYCLE_LIMIT - 20,
        ensures
            final(self).wf(),
            final(self).registers@ == old(self).registers@,
            !final(self).halted,
            final(self).last_instructions == old(self).last_instructions,
            final(self).fault == old(self).fault,
            final(self).mmu.lcd.pumped_until == old(self).mmu.lcd.pumped_until,
            final(self).mmu.timer.last_cycle == old(self).mmu.timer.last_cycle,
            !final(self).interrupt_master_enable,
            r is Ok ==> final(self).pc.0 == vector_of(irq) && final(self).sp.0 == wrap16(old(self).sp.0 - 2 + 0x10000)
                && final(self).cycle == old(self).cycle + 20,
            r is Err ==> final(self).cycle == old(self).cycle,
            Self::stack_slot_plain(old(self).sp.0) ==> (r is Ok <==> Self::stack_slot_writable(old(self).sp.0)),
            word_reads_back(wrap16(old(self).sp.0 - 2 + 0x10000)) ==> r is Ok
                && final(self).mmu.spec_read16(final(self).sp.0) == Ok::<u16, ExecutionError>(old(self).pc.0)
                && final(self).mmu.interrupt_flag == old(self).mmu.interrupt_flag & !interrupt_bit(irq)
                && final(self).mmu.interrupt_enable == old(self).mmu.interrupt_enable,
    {
        self.interrupt_master_enable = false;
        self.halted = false;
        let nsp = self.sp.minus(Address(2));
        self.mmu.write16(nsp, self.pc.0)?;
        self.mmu.interrupt_flag = self.mmu.interrupt_flag & !interrupt_mask(irq);
        self.sp = nsp;
        self.pc = irq.table_address();
        self.cycle = self.cycle + 20;
        Ok(())
    }

    /// Brings the LCD and the timer up to the current cycle and folds the
    /// interrupt bits they raised into IF; anything raised wakes a halted processor.
    fn collect_interrupts(&mut self) -> (raised: u8)
        requires
            old(self).wf(),
            old(self).cycle <= CPU_CYCLE_LIMIT + 512,
        ensures
            final(self).wf(),
            raised & !0x07u8 == 0,
            final(self).mmu.interrupt_flag == old(self).mmu.interrupt_flag | raised,
            final(self).halted == (old(self).halted && raised == 0),
            final(self).mmu.lcd.pumped_until == old(self).cycle,
            final(self).mmu.timer.last_cycle == old(self).cycle,
            final(self).mmu.cart == old(self).mmu.cart,
            final(self).mmu.interrupt_enable == old(self).mmu.interrupt_enable,
            final(self).mmu.internal_ram == old(self).mmu.internal_ram,
            final(self).mmu.high_ram == old(self).mmu.high_ram,
            *final(self) == (Cpu { mmu: final(self).mmu, halted: final(self).halted, ..*old(self) }),
    {
        let lcd_raised = self.mmu.lcd.pump_cycle(self.cycle);
        let timer_raised: u8 = if self.mmu.timer.pump_cycle(self.cycle) { 0x04 } else { 0 };
        let raised = lcd_raised | timer_raised;
        assert(lcd_raised & !3u8 == 0 && (timer_raised == 0 || timer_raised == 4) ==> (lcd_raised | timer_raised) & !0x07u8 == 0) by (bit_vector);
        self.mmu.interrupt_flag = self.mmu.interrupt_flag | raised;
        if raised != 0 {
            self.halted = false;
        }
        raised
    }

    /// With interrupts enabled, services the highest-priority interrupt that is
    /// both flagged in IF and enabled in IE; otherwise changes nothing.
    fn service_interrupts(&mut self) -> (r: Result<(), ExecutionError>)
        requires
            old(self).wf(),
            old(self).cycle <= LCD_CYCLE_LIMIT - 20,
        ensures
            final(self).wf(),
            !old(self).interrupt_master_enable || first_pending(old(self).mmu.interrupt_flag & old(self).mmu.interrupt_enable) is None
                ==> r is Ok && *final(self) == *old(self),
            old(self).interrupt_master_enable ==> match first_pending(old(self).mmu.interrupt_flag & old(self).mmu.interrupt_enable) {
                Some(irq) => {
                    &&& !final(self).interrupt_master_enable
                    &&& r is Ok ==> final(self).pc.0 == vector_of(irq) && final(self).sp.0 == wrap16(old(self).sp.0 - 2 + 0x10000)
                        && final(self).cycle == old(self).cycle + 20
                    &&& r is Err ==> final(self).cycle == old(self).cycle
                    &&& word_reads_back(wrap16(old(self).sp.0 - 2 + 0x10000)) ==> r is Ok
                        && final(self).mmu.spec_read16(final(self).sp.0) == Ok::<u16, ExecutionError>(old(self).pc.0)
                        && final(self).mmu.interrupt_flag == old(self).mmu.interrupt_flag & !interrupt_bit(irq)
                },
                None => true,
            },
            final(self).registers@ == old(self).registers@,
            (old(self).interrupt_master_enable && first_pending(old(self).mmu.interrupt_flag & old(self).mmu.interrupt_enable) is Some) ==> !final(self).halted,
            final(self).last_instructions == old(self).last_instructions,
            final(self).fault == old(self).fault,
            final(self).mmu.lcd.pumped_until == old(self).mmu.lcd.pumped_until,
            final(self).mmu.timer.last_cycle == old(self).mmu.timer.last_cycle,
            final(self).cycle >= old(self).cycle,
            final(self).cycle <= old(self).cycle + 20,
    {
        if self.interrupt_master_enable {
            let pending = self.mmu.interrupt_flag & self.mmu.interrupt_enable;
            match first_pending_of(pending) {
                Some(irq) => {
                    self.handle_interrupt(irq)?;
                },
                None => {},
            }
        }
        Ok(())
    }

    /// Brings the LCD and the timer up to the current cycle, folds what they raised into IF,
    /// wakes a halted processor when anything was raised, and, with interrupts
    /// enabled, services the highest-priority interrupt pending in IF and IE.
    fn drive_peripherals(&mut self) -> (r: Result<(), ExecutionError>)
        requires
            old(self).wf(),
            old(self).cycle <= CPU_CYCLE_LIMIT + 512,
        ensures
            final(self).wf(),
            final(self).cycle >= old(self).cycle,
            final(self).cycle <= old(self).cycle + 20,
            final(self).mmu.lcd.pumped_until == old(self).cycle,
            final(self).mmu.timer.last_cycle == old(self).cycle,
            final(self).registers@ == old(self).registers@,
            final(self).last_instructions == old(self).last_instructions,
            final(self).fault == old(self).fault,
            !old(self).interrupt_master_enable ==> final(self).pc == old(self).pc && final(self).sp == old(self).sp
                && final(self).cycle == old(self).cycle && !final(self).interrupt_master_enable && r is Ok,
            !old(self).halted ==> !final(self).halted,
            !old(self).interrupt_master_enable ==> final(self).mmu.cart == old(self).mmu.cart,
    {
        let _ = self.collect_interrupts();
        self.service_interrupts()
    }

    /// Runs one instruction: fetch at PC, record it, advance PC, execute, then
    /// drive the peripherals. A halted processor does nothing.
    fn step(&mut self) -> (r: Result<(), ExecutionError>)
        requires
            old(self).wf(),
            old(self).cycle <= CPU_CYCLE_LIMIT,
        ensures
            final(self).wf(),
            final(self).cycle >= old(self).cycle,
            final(self).cycle <= old(self).cycle + 204,
            old(self).halted ==> r is Ok && *final(self) == *old(self),
            final(self).fault == old(self).fault,
            !old(self).halted && r is Ok ==> final(self).cycle >= old(self).cycle + 4,
            !old(self).halted && !old(self).interrupt_master_enable && old(self).spec_fetch() == Ok::<(Instruction, u8), ExecutionError>((Instruction::Nop, 1u8))
                ==> r is Ok && final(self).pc.0 == wrap16(old(self).pc.0 + 1) && final(self).cycle == old(self).cycle + 4
                && final(self).registers@ == old(self).registers@ && final(self).sp == old(self).sp
                && !final(self).halted && !final(self).interrupt_master_enable && final(self).mmu.cart == old(self).mmu.cart,
            !old(self).halted && old(self).spec_fetch() is Err ==> r == Err::<(), ExecutionError>(old(self).spec_fetch()->Err_0),
            !old(self).halted && !old(self).interrupt_master_enable ==> old(self).alu_step_post(*final(self), r),
    {
        if self.halted {
            return Ok(());
        }
        let (instruction, len) = self.fetch_instruction()?;
        if self.last_instructions.len() > HISTORY_LEN {
            self.last_instructions.remove(0);
        }
        self.last_instructions.push((self.pc, instruction));
        self.pc = self.pc.plus(Address(len as u16));
        let ghost before = *self;
        assert(before.registers@ == old(self).advanced(len).registers@ && before.pc == old(self).advanced(len).pc
            && before.sp == old(self).advanced(len).sp && before.mmu == old(self).advanced(len).mmu);
        self.execute(instruction)?;
        self.drive_peripherals()
    }

    /// Runs one instruction (see `step`). After a fatal error the processor
    /// keeps that error and refuses to advance: every later call returns it and
    /// changes nothing.
    pub fn run_cycle(&mut self) -> (r: Result<(), ExecutionError>)
        requires
            old(self).wf(),
            old(self).cycle <= CPU_CYCLE_LIMIT,
        ensures
            final(self).wf(),
            final(self).cycle >= old(self).cycle,
            final(self).cycle <= old(self).cycle + 204,
            old(self).fault is Some ==> r == Err::<(), ExecutionError>(old(self).fault->Some_0) && *final(self) == *old(self),
            old(self).fault is None ==> ({
                &&& r is Err ==> final(self).fault == Some(r->Err_0)
                &&& r is Ok ==> final(self).fault is None
                &&& old(self).halted ==> r is Ok && *final(self) == *old(self)
                &&& !old(self).halted && r is Ok ==> final(self).cycle >= old(self).cycle + 4
                &&& !old(self).halted && !old(self).interrupt_master_enable && old(self).spec_fetch() == Ok::<(Instruction, u8), ExecutionError>((Instruction::Nop, 1u8))
                    ==> r is Ok && final(self).pc.0 == wrap16(old(self).pc.0 + 1) && final(self).cycle == old(self).cycle + 4
                    && final(self).registers@ == old(self).registers@ && final(self).sp == old(self).sp
                    && !final(self).halted && !final(self).interrupt_master_enable && final(self).mmu.cart == old(self).mmu.cart
                &&& !old(self).halted && !old(self).interrupt_master_enable ==> old(self).alu_step_post(*final(self), r)
                &&& !old(self).halted && old(self).spec_fetch() is Err ==> r == Err::<(), ExecutionError>(old(self).spec_fetch()->Err_0)
                    && final(self).fault == Some(old(self).spec_fetch()->Err_0)
            }),
    {
        if let Some(e) = self.fault {
            return Err(e);
        }
        let r = self.step();
        if let Err(e) = r {
            self.fault = Some(e);
        }
        r
    }

    /// This state with PC moved past an instruction of `len` bytes.
    pub open spec fn advanced(&self, len: u8) -> Cpu {
        Cpu { pc: Address(wrap16(self.pc.0 + len)), ..*self }
    }

    /// What running one fetched arithmetic or logic instruction does to the
    /// registers, with interrupts disabled so that none is serviced after it.
    pub open spec fn alu_step_post(&self, n: Cpu, r: Result<(), ExecutionError>) -> bool {
        match self.spec_fetch() {
            Ok((Instruction::Arith(a), len)) => r is Ok && n.registers@ == self.advanced(len).arith_effect(a).0,
            Ok((Instruction::Logic(l), len)) => match self.advanced(len).logic_operand(l) {
                Ok(v) => r is Ok && n.registers@ == self.advanced(len).logic_effect(l, v),
                Err(e) => r == Err::<(), ExecutionError>(e),
            },
            _ => true,
        }
    }

    /// Whether memory from PC holds `n` NOPs (and the two bytes a fetch reads
    /// past the last), all in ROM.
    pub open spec fn nops_ahead(&self, n: int) -> bool {
        &&& self.pc.0 + n + 2 <= 0x7FFF
        &&& forall|k: int| 0 <= k < n + 2 ==> #[trigger] mbc0_read(self.mmu.cart.rom@, self.mmu.cart.ram.data@, (self.pc.0 + k) as u16) == Ok::<u8, ExecutionError>(0)
    }

    /// Runs for `cycles` CPU cycles from now, until the counter reaches that
    /// horizon. While halted, the counter jumps to the next LCD or timer event,
    /// or to the horizon if that comes first, and the peripherals are driven
    /// there. A fatal error stops the run and is kept.
    #[verifier::rlimit(100)]
    #[verifier::spinoff_prover]
    pub fn run_for_cycles(&mut self, cycles: u64) -> (r: Result<(), ExecutionError>)
        requires
            old(self).wf(),
            old(self).cycle + cycles <= CPU_CYCLE_LIMIT,
        ensures
            final(self).wf(),
            final(self).cycle >= old(self).cycle,
            final(self).cycle <= old(self).cycle + cycles + 256,
            old(self).fault is Some ==> r == Err::<(), ExecutionError>(old(self).fault->Some_0) && *final(self) == *old(self),
            r is Err ==> final(self).fault == Some(r->Err_0),
            r is Ok ==> final(self).fault is None && final(self).cycle >= old(self).cycle + cycles,
            old(self).fault is None && !old(self).halted && !old(self).interrupt_master_enable && old(self).nops_ahead(
                (cycles + 3) / 4,
            ) ==> r is Ok && final(self).cycle == old(self).cycle + 4 * ((cycles + 3) / 4) && final(self).pc.0
                == old(self).pc.0 + (cycles + 3) / 4,
    {
        if let Some(e) = self.fault {
            return Err(e);
        }
        let stop_at_cycle = self.cycle + cycles;
        self.mmu.lcd.set_running_until(stop_at_cycle);
        let ghost n: int = (cycles + 3) / 4;
        let ghost nop_run = !old(self).halted && !old(self).interrupt_master_enable && old(self).nops_ahead(n);
        while self.cycle < stop_at_cycle
            invariant
                self.wf(),
                self.fault is None,
                old(self).fault is None,
                stop_at_cycle == old(self).cycle + cycles,
                stop_at_cycle <= CPU_CYCLE_LIMIT,
                old(self).cycle <= self.cycle,
                self.cycle <= stop_at_cycle + 256,
                n == (cycles + 3) / 4,
                nop_run == (!old(self).halted && !old(self).interrupt_master_enable && old(self).nops_ahead(n)),
                nop_run ==> {
                    &&& !self.halted
                    &&& !self.interrupt_master_enable
                    &&& self.mmu.cart == old(self).mmu.cart
                    &&& old(self).pc.0 <= self.pc.0 <= old(self).pc.0 + n
                    &&& self.cycle == old(self).cycle + 4 * (self.pc.0 - old(self).pc.0)
                },
            decreases stop_at_cycle + 256 - self.cycle,
        {
            proof {
                if nop_run {
                    let j = self.pc.0 - old(self).pc.0;
                    assert(j < n);
                    let k1 = j + 1;
                    let k2 = j + 2;
                    assert(mbc0_read(old(self).mmu.cart.rom@, old(self).mmu.cart.ram.data@, (old(self).pc.0 + j) as u16) == Ok::<u8, ExecutionError>(0));
                    assert(mbc0_read(old(self).mmu.cart.rom@, old(self).mmu.cart.ram.data@, (old(self).pc.0 + k1) as u16) == Ok::<u8, ExecutionError>(0));
                    assert(mbc0_read(old(self).mmu.cart.rom@, old(self).mmu.cart.ram.data@, (old(self).pc.0 + k2) as u16) == Ok::<u8, ExecutionError>(0));
                    assert(wrap16(self.pc.0 + 1) == (old(self).pc.0 + k1) as u16);
                    assert(wrap16(self.pc.0 + 2) == (old(self).pc.0 + k2) as u16);
                    assert(self.spec_fetch() == Ok::<(Instruction, u8), ExecutionError>((Instruction::Nop, 1u8)));
                }
            }
            self.run_cycle()?;
            if self.halted && self.cycle < stop_at_cycle {
                let mut next = self.mmu.lcd.get_next_event_cycle();
                match self.mmu.timer.next_overflow_cycle() {
                    Some(t) => {
                        if t < next {
                            next = t;
                        }
                    },
                    None => {},
                }
                let mut target = if next < stop_at_cycle { next } else { stop_at_cycle };
                if target <= self.cycle {
                    target = if self.cycle + 4 < stop_at_cycle { self.cycle + 4 } else { stop_at_cycle };
                }
                self.cycle = target;
                if let Err(e) = self.drive_peripherals() {
                    self.fault = Some(e);
                    return Err(e);
                }
            }
        }
        Ok(())
    }

    /// Runs for a wall-clock duration of `secs` seconds and `nanos` nanoseconds,
    /// converted to cycles at the CPU clock rate.
    pub fn run_for_duration(&mut self, secs: u64, nanos: u32) -> (r: Result<(), ExecutionError>)
        requires
            old(self).wf(),
            nanos < 1_000_000_000,
            secs <= MAX_DURATION_SECS,
            old(self).cycle + cycles_of(secs, nanos) <= CPU_CYCLE_LIMIT,
        ensures
            final(self).wf(),
            final(self).cycle >= old(self).cycle,
            old(self).fault is Some ==> r == Err::<(), ExecutionError>(old(self).fault->Some_0) && *final(self) == *old(self),
            r is Err ==> final(self).fault == Some(r->Err_0),
            r is Ok ==> final(self).fault is None && final(self).cycle >= old(self).cycle + cycles_of(secs, nanos),
            old(self).fault is None && !old(self).halted && !old(self).interrupt_master_enable && old(self).nops_ahead(
                (cycles_of(secs, nanos) + 3) / 4,
            ) ==> r is Ok && final(self).cycle == old(self).cycle + 4 * ((cycles_of(secs, nanos) + 3) / 4)
                && final(self).pc.0 == old(self).pc.0 + (cycles_of(secs, nanos) + 3) / 4,
    {
        let cycles = duration_to_cycle_count(secs, nanos);
        self.run_for_cycles(cycles)
    }
}

} // verus!

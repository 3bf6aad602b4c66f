use vstd::prelude::*;

verus! {

pub const FLAG_ZERO: u8 = 0x80;
pub const FLAG_SUBTRACT: u8 = 0x40;
pub const FLAG_HALF_CARRY: u8 = 0x20;
pub const FLAG_CARRY: u8 = 0x10;

/// The flag register F: Z, N, H, C in bits 7 to 4.
#[derive(Copy, Clone, Debug, PartialEq, Eq, Structural)]
pub struct Flags(pub u8);

/// The flag byte with the four given flags and the low nibble clear.
pub open spec fn flag_byte(z: bool, n: bool, h: bool, c: bool) -> u8 {
    ((if z { 0x80int } else { 0 }) + (if n { 0x40int } else { 0 }) + (if h { 0x20int } else { 0 }) + (
    if c { 0x10int } else { 0 })) as u8
}

pub open spec fn flag_set(f: u8, bit: u8) -> bool {
    f & bit != 0
}

impl Flags {
    pub fn make(z: bool, n: bool, h: bool, c: bool) -> (r: Flags)
        ensures
            r.0 == flag_byte(z, n, h, c),
    {
        let mut v: u8 = 0;
        if z {
            v = v + FLAG_ZERO;
        }
        if n {
            v = v + FLAG_SUBTRACT;
        }
        if h {
            v = v + FLAG_HALF_CARRY;
        }
        if c {
            v = v + FLAG_CARRY;
        }
        Flags(v)
    }

    pub fn get_zero(self) -> (r: bool)
        ensures
            r == flag_set(self.0, FLAG_ZERO),
    {
        self.0 & FLAG_ZERO != 0
    }

    pub fn get_subtract(self) -> (r: bool)
        ensures
            r == flag_set(self.0, FLAG_SUBTRACT),
    {
        self.0 & FLAG_SUBTRACT != 0
    }

    pub fn get_half_carry(self) -> (r: bool)
        ensures
            r == flag_set(self.0, FLAG_HALF_CARRY),
    {
        self.0 & FLAG_HALF_CARRY != 0
    }

    pub fn get_carry(self) -> (r: bool)
        ensures
            r == flag_set(self.0, FLAG_CARRY),
    {
        self.0 & FLAG_CARRY != 0
    }
}

/// The high byte of a 16-bit value.
pub fn hi(v: u16) -> (r: u8)
    ensures
        r == v / 256,
{
    (v / 256) as u8
}

/// The low byte of a 16-bit value.
pub fn lo(v: u16) -> (r: u8)
    ensures
        r == v % 256,
{
    (v % 256) as u8
}

/// The 16-bit value made of a high and a low byte.
pub fn hi_lo(h: u8, l: u8) -> (r: u16)
    ensures
        r == h * 256 + l,
{
    (h as u16) * 256 + (l as u16)
}

/// 8-bit addition: the sum modulo 256 and Z, N=0, H, C.
pub fn add(a: u8, b: u8) -> (r: (u8, Flags))
    ensures
        r.0 == (a + b) % 256,
        r.1.0 == flag_byte((a + b) % 256 == 0, false, a % 16 + b % 16 > 15, a + b > 255),
{
    let v = a.wrapping_add(b);
    (v, Flags::make(v == 0, false, a % 16 + b % 16 > 15, (a as u16) + (b as u16) > 255))
}

/// 8-bit subtraction: the difference modulo 256 and Z, N=1, H, C.
pub fn sub(a: u8, b: u8) -> (r: (u8, Flags))
    ensures
        r.0 == (a - b + 256) % 256,
        r.1.0 == flag_byte((a - b + 256) % 256 == 0, true, a % 16 < b % 16, a < b),
{
    let v = a.wrapping_sub(b);
    (v, Flags::make(v == 0, true, a % 16 < b % 16, a < b))
}

/// Increment by one: as `add(v, 1)`, but C is kept from the old flags.
pub fn inc(v: u8, f: Flags) -> (r: (u8, Flags))
    ensures
        r.0 == (v + 1) % 256,
        r.1.0 == flag_byte((v + 1) % 256 == 0, false, v % 16 == 15, flag_set(f.0, FLAG_CARRY)),
{
    let (r, _) = crate::alu::add(v, 1);
    (r, Flags::make(r == 0, false, v % 16 == 15, f.get_carry()))
}

/// Decrement by one: as `sub(v, 1)`, but C is kept from the old flags.
pub fn dec(v: u8, f: Flags) -> (r: (u8, Flags))
    ensures
        r.0 == (v - 1 + 256) % 256,
        r.1.0 == flag_byte((v - 1 + 256) % 256 == 0, true, v % 16 == 0, flag_set(f.0, FLAG_CARRY)),
{
    let (r, _) = crate::alu::sub(v, 1);
    (r, Flags::make(r == 0, true, v % 16 == 0, f.get_carry()))
}

/// Bitwise and: Z by the result, N=0, H=1, C=0.
pub fn and(a: u8, b: u8) -> (r: (u8, Flags))
    ensures
        r.0 == a & b,
        r.1.0 == flag_byte(a & b == 0, false, true, false),
{
    let v = a & b;
    (v, Flags::make(v == 0, false, true, false))
}

/// Bitwise or: Z by the result, N=H=C=0.
pub fn or(a: u8, b: u8) -> (r: (u8, Flags))
    ensures
        r.0 == a | b,
        r.1.0 == flag_byte(a | b == 0, false, false, false),
{
    let v = a | b;
    (v, Flags::make(v == 0, false, false, false))
}

/// Bitwise exclusive or: Z by the result, N=H=C=0.
pub fn xor(a: u8, b: u8) -> (r: (u8, Flags))
    ensures
        r.0 == a ^ b,
        r.1.0 == flag_byte(a ^ b == 0, false, false, false),
{
    let v = a ^ b;
    (v, Flags::make(v == 0, false, false, false))
}

/// 16-bit addition: the sum modulo 2^16; Z kept, N=0, H from bit 11, C from bit 15.
pub fn add16(a: u16, b: u16, f: Flags) -> (r: (u16, Flags))
    ensures
        r.0 == (a + b) % 0x10000,
        r.1.0 == flag_byte(
            flag_set(f.0, FLAG_ZERO),
            false,
            a % 0x1000 + b % 0x1000 > 0xFFF,
            a + b > 0xFFFF,
        ),
{
    let v = a.wrapping_add(b);
    (v, Flags::make(f.get_zero(), false, a % 0x1000 + b % 0x1000 > 0xFFF, (a as u32) + (b as u32) > 0xFFFF))
}

} // verus!

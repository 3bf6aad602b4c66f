//! The execution core of a Game Boy (DMG) emulator: CPU interpreter, memory
//! map and cartridge controller, LCD timing and rasterization, divider timer and
//! square-wave audio channels, all driven by one monotonic cycle counter.

pub mod alu;
pub mod cpu;
pub mod inst;
pub mod lcd;
pub mod mbc;
pub mod mem;
pub mod mmu;
pub mod square;
pub mod timer;
pub mod timing;

use j2gbc::cpu::Cpu;
use j2gbc::inst::Register8;
use j2gbc::mem::Address;
use j2gbc::timer::TimerUnit;

#[test]
fn div_counts_every_256_cycles() {
    let mut t = TimerUnit::new();
    assert!(!t.pump_cycle(255));
    assert_eq!(t.div, 0);
    t.pump_cycle(256 * 3 + 10);
    assert_eq!(t.div, 3);
    t.write(0, 0x55);
    assert_eq!(t.div, 0);
}

#[test]
fn tima_overflow_reloads_from_tma() {
    let mut t = TimerUnit::new();
    t.write(1, 0xFE);
    t.write(2, 0x10);
    t.write(3, 0b101);
    assert_eq!(t.next_overflow_cycle(), Some(32));
    assert!(!t.pump_cycle(16));
    assert_eq!(t.tima, 0xFF);
    assert!(t.pump_cycle(32));
    assert_eq!(t.tima, 0x10);
    t.write(3, 0b001);
    assert_eq!(t.next_overflow_cycle(), None);
    assert!(!t.pump_cycle(10_000));
    assert_eq!(t.tima, 0x10);
}

#[test]
fn timer_interrupt_wakes_halted_cpu() {
    // LD A,4; LDH (0xFF),A (IE = timer); LD A,5; LDH (0x07),A (TAC: on, 16 cycles);
    // EI; HALT; then JR -2. Handler at 0x50: INC B; RET.
    let mut rom = vec![0u8; 0x8000];
    let main = [0x3E, 0x04, 0xE0, 0xFF, 0x3E, 0x05, 0xE0, 0x07, 0xFB, 0x76, 0x18, 0xFE];
    rom[0x100..0x100 + main.len()].copy_from_slice(&main);
    rom[0x50..0x52].copy_from_slice(&[0x04, 0xC9]);
    let mut cpu = Cpu::from_cart(rom).unwrap();
    cpu.run_for_duration(0, 2_000_000).unwrap();
    assert_eq!(cpu.index(Register8::B), 1);
    assert!(!cpu.is_halted());
}

#[test]
fn audio_registers_configure_channels() {
    let mut cpu = Cpu::from_cart(vec![0u8; 0x8000]).unwrap();
    cpu.mmu.write(Address(0xFF12), 0xF3).unwrap();
    assert_eq!(cpu.mmu.square1.vol, 15);
    cpu.mmu.write(Address(0xFF11), 0x80 | 10).unwrap();
    assert_eq!(cpu.mmu.square1.duty_cycle, 2);
    assert_eq!(cpu.mmu.square1.len, 54);
    cpu.mmu.write(Address(0xFF13), 0xD0).unwrap();
    cpu.mmu.write(Address(0xFF14), 0x87).unwrap();
    assert_eq!(cpu.mmu.square1.frequency, 2000);
    assert_eq!(cpu.mmu.square1.period, 192);
    assert_eq!(cpu.mmu.read(Address(0xFF14)), Ok(0x87));
    cpu.mmu.write(Address(0xFF17), 0x40).unwrap();
    assert_eq!(cpu.mmu.square2.vol, 4);
}

#[test]
fn joypad_reads_selected_group() {
    let mut cpu = Cpu::from_cart(vec![0u8; 0x8000]).unwrap();
    cpu.mmu.set_buttons(0b0001_0001);
    cpu.mmu.write(Address(0xFF00), 0x20).unwrap();
    assert_eq!(cpu.mmu.read(Address(0xFF00)), Ok(0xC0 | 0x20 | 0x0E));
    cpu.mmu.write(Address(0xFF00), 0x10).unwrap();
    assert_eq!(cpu.mmu.read(Address(0xFF00)), Ok(0xC0 | 0x10 | 0x0E));
}

#[test]
fn dma_copies_into_oam() {
    let mut cpu = Cpu::from_cart(vec![0u8; 0x8000]).unwrap();
    for i in 0..160u16 {
        cpu.mmu.write(Address(0xC000 + i), i as u8).unwrap();
    }
    cpu.mmu.write(Address(0xFF46), 0xC0).unwrap();
    assert_eq!(cpu.mmu.read(Address(0xFE05)), Ok(5));
    assert_eq!(cpu.mmu.lcd.objs[1].x, 5);
}

#[test]
fn dma_stalls_the_processor() {
    // LD A,0xC0; LDH (0x46),A
    let mut rom = vec![0u8; 0x8000];
    rom[0x100..0x104].copy_from_slice(&[0x3E, 0xC0, 0xE0, 0x46]);
    let mut cpu = Cpu::from_cart(rom).unwrap();
    cpu.run_cycle().unwrap();
    assert_eq!(cpu.cycle(), 8);
    cpu.run_cycle().unwrap();
    assert_eq!(cpu.cycle(), 8 + 12 + 160);
}

#[test]
fn store_to_rom_fails() {
    // LD A,1; LD (0x2000),A
    let mut rom = vec![0u8; 0x8000];
    rom[0x100..0x105].copy_from_slice(&[0x3E, 0x01, 0xEA, 0x00, 0x20]);
    let mut cpu = Cpu::from_cart(rom).unwrap();
    cpu.run_cycle().unwrap();
    assert_eq!(cpu.run_cycle(), Err(j2gbc::mem::ExecutionError::BusError));
}

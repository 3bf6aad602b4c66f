use j2gbc::alu::{add, sub, Flags};
use j2gbc::cpu::{duration_to_cycle_count, Cpu, Interrupt};
use j2gbc::inst::{Instruction, Register16, Register8};
use j2gbc::lcd::{palette_convert, Lcd, Pixel};
use j2gbc::mbc::{load_cart, Mbc0};
use j2gbc::mem::{Address, ExecutionError};
use j2gbc::square::SquareChannel;

fn blank_rom() -> Vec<u8> {
    vec![0u8; 0x8000]
}

fn rom_with(code: &[(usize, &[u8])]) -> Vec<u8> {
    let mut rom = blank_rom();
    for (at, bytes) in code {
        rom[*at..*at + bytes.len()].copy_from_slice(bytes);
    }
    rom
}

#[test]
fn test_palette_convert() {
    assert_eq!(0b11, palette_convert(0, 0b11));
    assert_eq!(0b00, palette_convert(3, 0b00111111));
    assert_eq!(0b01, palette_convert(1, 0b0100));
}

#[test]
fn palette_convert_matches_shift_formula() {
    for p in 0..=255u8 {
        for v in 0..4u8 {
            assert_eq!(palette_convert(v, p), (p >> (v * 2)) & 3);
        }
    }
}

#[test]
fn add_overflow_sets_zero_half_and_carry() {
    let (v, f) = add(0xFF, 0x01);
    assert_eq!(v, 0x00);
    assert_eq!(f, Flags(0xB0));
    assert!(f.get_zero() && f.get_half_carry() && f.get_carry() && !f.get_subtract());
}

#[test]
fn sub_underflow_sets_subtract_half_and_carry() {
    let (v, f) = sub(0x00, 0x01);
    assert_eq!(v, 0xFF);
    assert_eq!(f, Flags(0x70));
    assert!(!f.get_zero() && f.get_subtract() && f.get_half_carry() && f.get_carry());
}

#[test]
fn boot_register_state() {
    let cpu = Cpu::from_cart(blank_rom()).unwrap();
    assert_eq!(cpu.pc, Address(0x0100));
    assert_eq!(cpu.sp, Address(0xFFFE));
    assert_eq!(cpu.index(Register8::A), 0x01);
    assert_eq!(cpu.index(Register8::F), 0xB0);
    assert_eq!(cpu.index(Register8::B), 0x00);
    assert_eq!(cpu.index(Register8::C), 0x13);
    assert_eq!(cpu.index(Register8::D), 0x00);
    assert_eq!(cpu.index(Register8::E), 0xD8);
    assert_eq!(cpu.index(Register8::H), 0x01);
    assert_eq!(cpu.index(Register8::L), 0x4D);
    assert_eq!(cpu.cycle(), 0);
}

#[test]
fn nop_timing() {
    let mut cpu = Cpu::from_cart(blank_rom()).unwrap();
    for _ in 0..100 {
        cpu.run_cycle().unwrap();
    }
    assert_eq!(cpu.cycle(), 400);
    assert_eq!(cpu.pc, Address(0x0164));
}

#[test]
fn cycle_counter_never_decreases() {
    // LD A,0x12; INC B; JR -3 repeated forever.
    let mut cpu = Cpu::from_cart(rom_with(&[(0x100, &[0x3E, 0x12, 0x04, 0x18, 0xFD])])).unwrap();
    let mut last = cpu.cycle();
    for _ in 0..1000 {
        cpu.run_cycle().unwrap();
        assert!(cpu.cycle() >= last);
        last = cpu.cycle();
    }
}

#[test]
fn vblank_interrupt_cadence() {
    // Main: LD A,1; LDH (0xFF),A; EI; JR -2. Handler at 0x40: INC B; EI; RET.
    let rom = rom_with(&[(0x100, &[0x3E, 0x01, 0xE0, 0xFF, 0xFB, 0x18, 0xFE]), (0x40, &[0x04, 0xFB, 0xC9])]);
    let mut cpu = Cpu::from_cart(rom).unwrap();
    cpu.run_for_duration(0, 16_740_000).unwrap();
    assert_eq!(cpu.index(Register8::B), 1);
}

#[test]
fn tile_cache_coherence() {
    let mut lcd = Lcd::new();
    lcd.write(Address(0x8000), 0x3C).unwrap();
    lcd.write(Address(0x8001), 0x7E).unwrap();
    assert_eq!(&lcd.tiles[0..8], &[0, 2, 3, 3, 3, 3, 2, 0]);
}

#[test]
fn tile_cache_row_offset() {
    let mut lcd = Lcd::new();
    // Tile 1, row 3: bytes at 0x8016 and 0x8017.
    lcd.write(Address(0x8017), 0xFF).unwrap();
    lcd.write(Address(0x8016), 0x0F).unwrap();
    let base = 64 + 3 * 8;
    assert_eq!(&lcd.tiles[base..base + 8], &[2, 2, 2, 2, 3, 3, 3, 3]);
}

#[test]
fn square_channel_duty() {
    let mut ch = SquareChannel::new();
    ch.set_volume(15);
    ch.set_duty_cycle(0);
    ch.set_frequency_from_bits(0x07, 0xD0);
    assert_eq!(ch.frequency, 2000);
    assert_eq!(ch.period, 192);
    assert_eq!(ch.sample(0), -15);
    assert_eq!(ch.sample(192 * 7), 15);
}

#[test]
fn square_duty_step_advances_once_per_period() {
    let mut ch = SquareChannel::new();
    ch.set_volume(3);
    ch.set_duty_cycle(1);
    ch.set_frequency_from_bits(0x07, 0xD0);
    ch.sample(191);
    assert_eq!(ch.duty_cycle_step, 0);
    ch.sample(192);
    assert_eq!(ch.duty_cycle_step, 1);
    ch.sample(192 * 10 + 5);
    assert_eq!(ch.duty_cycle_step, 10 % 8);
}

#[test]
fn frequency_2048_silences_channel() {
    let mut ch = SquareChannel::new();
    ch.set_volume(15);
    ch.set_frequency_from_bits(0x04, 0x00);
    assert_eq!(ch.frequency, 1024);
    ch.set_freqeuncy_sweepers(1, 0, true);
    ch.freq_sweep_update();
    assert_eq!(ch.frequency, 2048);
    assert_eq!(ch.period, 0);
    assert_eq!(ch.sample(1000), 0);
}

#[test]
fn sweep_down_with_zero_shift_keeps_frequency() {
    let mut ch = SquareChannel::new();
    ch.set_frequency_from_bits(0x04, 0x00);
    ch.set_freqeuncy_sweepers(1, 0, false);
    ch.freq_sweep_update();
    assert_eq!(ch.frequency, 1024);
    ch.set_freqeuncy_sweepers(1, 1, false);
    ch.freq_sweep_update();
    assert_eq!(ch.frequency, 512);
    assert_eq!(ch.period, 4 * (2048 - 512));
}

#[test]
fn volume_envelope_saturates() {
    let mut ch = SquareChannel::new();
    ch.set_volume(15);
    ch.increment_vol_env(true);
    ch.set_vol_env_period(1);
    ch.volume_env_update();
    assert_eq!(ch.vol, 15);
    ch.set_volume(0);
    ch.increment_vol_env(false);
    ch.volume_env_update();
    assert_eq!(ch.vol, 0);
}

#[test]
fn lcd_modes_follow_the_scanline() {
    let mut lcd = Lcd::new();
    lcd.pump_cycle(0);
    assert_eq!(lcd.stat & 3, 2);
    lcd.pump_cycle(80);
    assert_eq!(lcd.stat & 3, 3);
    lcd.pump_cycle(251);
    assert_eq!(lcd.stat & 3, 0);
    lcd.pump_cycle(455);
    assert_eq!(lcd.ly, 1);
}

#[test]
fn vblank_rises_when_ly_reaches_144() {
    let mut lcd = Lcd::new();
    let mut c: u64 = 0;
    while c < 65520 {
        assert_eq!(lcd.pump_cycle(c) & 1, 0);
        c += 1;
    }
    assert_eq!(lcd.ly, 143);
    assert_eq!(lcd.pump_cycle(65520) & 1, 1);
    assert_eq!(lcd.ly, 144);
    assert_eq!(lcd.stat & 3, 1);
}

#[test]
fn push_then_pop_and_call_then_ret() {
    // LD BC,0x1234; PUSH BC; POP DE; CALL 0x0200 ... at 0x0200: RET.
    let rom = rom_with(&[(0x100, &[0x01, 0x34, 0x12, 0xC5, 0xD1, 0xCD, 0x00, 0x02]), (0x200, &[0xC9])]);
    let mut cpu = Cpu::from_cart(rom).unwrap();
    for _ in 0..3 {
        cpu.run_cycle().unwrap();
    }
    assert_eq!(cpu.index(Register8::D), 0x12);
    assert_eq!(cpu.index(Register8::E), 0x34);
    assert_eq!(cpu.sp, Address(0xFFFE));
    cpu.run_cycle().unwrap();
    assert_eq!(cpu.pc, Address(0x0200));
    assert_eq!(cpu.sp, Address(0xFFFC));
    cpu.run_cycle().unwrap();
    assert_eq!(cpu.pc, Address(0x0108));
    assert_eq!(cpu.sp, Address(0xFFFE));
}

#[test]
fn nop_run_for_cycles_rounds_up() {
    let mut cpu = Cpu::from_cart(blank_rom()).unwrap();
    cpu.run_for_cycles(10).unwrap();
    assert_eq!(cpu.cycle(), 12);
    assert_eq!(cpu.pc, Address(0x0103));
}

#[test]
fn volume_envelope_steps_every_period() {
    let mut ch = SquareChannel::new();
    ch.set_volume(5);
    ch.increment_vol_env(true);
    ch.set_vol_env_period(2);
    ch.volume_env_update();
    assert_eq!(ch.vol, 5);
    ch.volume_env_update();
    assert_eq!(ch.vol, 6);
    ch.increment_vol_env(false);
    ch.volume_env_update();
    ch.volume_env_update();
    assert_eq!(ch.vol, 5);
}

#[test]
fn length_counter_silences_channel() {
    let mut ch = SquareChannel::new();
    ch.set_volume(15);
    ch.set_frequency_from_bits(0x07, 0xD0);
    ch.use_length_counter(true);
    ch.update_length(63);
    assert!(ch.is_active());
    ch.decrement_length();
    assert!(!ch.is_active());
    assert_eq!(ch.sample(5000), 0);
    ch.reset();
    assert_eq!(ch.len, 64);
    assert!(ch.is_active());
}

fn pump_frame(lcd: &mut Lcd) -> (Vec<u8>, u32) {
    let mut lys = vec![lcd.ly];
    let mut vblanks = 0;
    let mut c: u64 = 0;
    while c <= 70070 {
        let raised = lcd.pump_cycle(c);
        if raised & 1 != 0 {
            vblanks += 1;
        }
        if *lys.last().unwrap() != lcd.ly {
            lys.push(lcd.ly);
        }
        c += 1;
    }
    (lys, vblanks)
}

#[test]
fn ly_runs_through_every_line_once_per_frame() {
    let mut lcd = Lcd::new();
    let (lys, vblanks) = pump_frame(&mut lcd);
    let mut expected: Vec<u8> = (0..=153).collect();
    expected.push(0);
    assert_eq!(lys, expected);
    assert_eq!(vblanks, 1);
}

#[test]
fn next_event_is_earliest_timer_edge() {
    let lcd = Lcd::new();
    // The OAM scan of line 0 starts at cycle 0.
    assert_eq!(lcd.get_next_event_cycle(), 0);
}

fn frame_with_sprite(x: u8, y: u8) -> Vec<Pixel> {
    let mut lcd = Lcd::new();
    lcd.write(Address(0xFF47), 0x00).unwrap();
    lcd.write(Address(0xFF48), 0xFF).unwrap();
    lcd.write(Address(0x8010), 0xFF).unwrap();
    lcd.write(Address(0x8011), 0xFF).unwrap();
    lcd.write(Address(0xFE00), y).unwrap();
    lcd.write(Address(0xFE01), x).unwrap();
    lcd.write(Address(0xFE02), 1).unwrap();
    lcd.write(Address(0xFE03), 0).unwrap();
    let mut c: u64 = 0;
    while c <= 65520 {
        lcd.pump_cycle(c);
        c += 1;
    }
    lcd.get_framebuffer().to_vec()
}

#[test]
fn visible_sprite_is_drawn() {
    let frame = frame_with_sprite(8, 16);
    let black = Pixel(0, 14, 2, 255);
    let white = Pixel(234, 255, 186, 255);
    assert_eq!(frame[0], black);
    assert_eq!(frame[7], black);
    assert_eq!(frame[8], white);
    assert_eq!(frame[160], white);
}

#[test]
fn offscreen_sprites_draw_nothing() {
    let white = Pixel(234, 255, 186, 255);
    for (x, y) in [(0u8, 16u8), (168, 16), (200, 16), (8, 0), (8, 160), (8, 200)] {
        let frame = frame_with_sprite(x, y);
        assert!(frame.iter().all(|p| *p == white), "sprite at x={} y={}", x, y);
    }
}

#[test]
fn sram_round_trip() {
    let mut saved = Mbc0::new(blank_rom());
    saved.write(Address(0xA000), 0x12).unwrap();
    saved.write(Address(0xBFFF), 0x34).unwrap();
    saved.write(Address(0xA123), 0x56).unwrap();
    let snapshot = saved.get_sram().to_vec();
    let mut target = Mbc0::new(blank_rom());
    target.write(Address(0xA123), 0x99).unwrap();
    target.set_sram(&snapshot);
    for a in 0xA000..=0xBFFFu16 {
        assert_eq!(target.read(Address(a)), saved.read(Address(a)));
    }
}

#[test]
fn mbc0_rejects_rom_writes_and_maps_identity() {
    let mut cart = Mbc0::new(rom_with(&[(0x1234, &[0xAB])]));
    assert_eq!(cart.write(Address(0x2000), 1), Err(ExecutionError::BusError));
    assert_eq!(cart.read(Address(0x1234)), Ok(0xAB));
    assert_eq!(cart.read(Address(0xC000)), Err(ExecutionError::BusError));
    assert_eq!(cart.map_address_into_rom(Address(0x4567)).0, 0x4567);
}

#[test]
fn unsupported_cartridge_type() {
    let rom = rom_with(&[(0x147, &[0x01])]);
    assert_eq!(load_cart(rom).err(), Some(ExecutionError::CartridgeUnsupported));
    assert!(Cpu::from_cart(vec![0u8; 0x100]).is_err());
}

#[test]
fn decoder_table() {
    assert_eq!(Instruction::decode([0x00, 0, 0]), Ok((Instruction::Nop, 1)));
    assert_eq!(Instruction::decode([0xD3, 0, 0]), Err(ExecutionError::DecodeError));
    assert_eq!(Instruction::decode([0x76, 0, 0]), Ok((Instruction::Halt, 1)));
    assert_eq!(Instruction::Nop.cycles(true), 4);
}

#[test]
fn memory_map_routing() {
    let mut cpu = Cpu::from_cart(blank_rom()).unwrap();
    cpu.mmu.write(Address(0xC010), 0x42).unwrap();
    assert_eq!(cpu.mmu.read(Address(0xE010)), Ok(0x42));
    cpu.mmu.write(Address(0xFF47), 0xE4).unwrap();
    assert_eq!(cpu.mmu.read(Address(0xFF47)), Ok(0xE4));
    assert_eq!(cpu.mmu.read(Address(0xFF7F)), Ok(0xFF));
    cpu.mmu.write16(Address(0xFF90), 0xBEEF).unwrap();
    assert_eq!(cpu.mmu.read16(Address(0xFF90)), Ok(0xBEEF));
    assert_eq!(cpu.mmu.read(Address(0xFF91)), Ok(0xBE));
}

#[test]
fn interrupt_vectors_and_enables() {
    assert_eq!(Interrupt::VBlank.table_address(), Address(0x40));
    assert_eq!(Interrupt::LCDC.table_address(), Address(0x48));
    assert_eq!(Interrupt::Controller.table_address(), Address(0x60));
    assert!(Interrupt::Timer.is_enabled(0b100));
    assert!(!Interrupt::VBlank.is_enabled(0b10));
}

#[test]
fn duration_conversion() {
    assert_eq!(duration_to_cycle_count(1, 500_000_000), 4_190_000 + 2_095_000);
    assert_eq!(duration_to_cycle_count(0, 16_740_000), 70_140);
}

#[test]
fn register_pairs_and_names() {
    let cpu = Cpu::from_cart(blank_rom()).unwrap();
    assert_eq!(Register16::HL.name(), "hl");
    assert_eq!(Register8::A.name(), "a");
    assert!(!cpu.is_halted());
}

#[test]
fn fatal_error_stops_the_processor() {
    let mut cpu = Cpu::from_cart(rom_with(&[(0x100, &[0x00, 0xD3])])).unwrap();
    cpu.run_cycle().unwrap();
    assert_eq!(cpu.run_cycle(), Err(ExecutionError::DecodeError));
    let pc = cpu.pc;
    let cycle = cpu.cycle();
    assert_eq!(cpu.run_cycle(), Err(ExecutionError::DecodeError));
    assert_eq!(cpu.pc, pc);
    assert_eq!(cpu.cycle(), cycle);
    assert_eq!(cpu.fault, Some(ExecutionError::DecodeError));
    assert_eq!(cpu.last_instructions.len(), 1);
}

#[test]
fn debug_views_have_full_size() {
    let mut lcd = Lcd::new();
    lcd.write(Address(0xFF47), 0xE4).unwrap();
    lcd.write(Address(0x8000), 0xFF).unwrap();
    let sheet = lcd.render_char_dat(false);
    assert_eq!(sheet.len(), 160 * 144);
    assert_eq!(sheet[0], Pixel(150, 187, 146, 255));
    assert_eq!(sheet[159 + 143 * 160], Pixel(255, 255, 0, 255));
    let bg = lcd.render_background(true);
    assert_eq!(bg.len(), 256 * 256);
    // Signed tile codes: code 0 names tile 256, which is still blank.
    assert_eq!(bg[0], Pixel(234, 255, 186, 255));
    lcd.write(Address(0xFF40), 0x93).unwrap();
    let bg = lcd.render_background(true);
    assert_eq!(bg[0], Pixel(150, 187, 146, 255));
    assert_eq!(bg[8], Pixel(150, 187, 146, 255));
    assert_eq!(bg[256], Pixel(234, 255, 186, 255));
}

fn frame_with_flags(flags: u8) -> Vec<Pixel> {
    let mut lcd = Lcd::new();
    lcd.write(Address(0xFF47), 0xFF).unwrap();
    lcd.write(Address(0xFF48), 0x00).unwrap();
    lcd.write(Address(0x8010), 0x80).unwrap();
    lcd.write(Address(0xFE00), 16).unwrap();
    lcd.write(Address(0xFE01), 8).unwrap();
    lcd.write(Address(0xFE02), 1).unwrap();
    lcd.write(Address(0xFE03), flags).unwrap();
    let mut c: u64 = 0;
    while c <= 65520 {
        lcd.pump_cycle(c);
        c += 1;
    }
    lcd.get_framebuffer().to_vec()
}

#[test]
fn sprite_priority_and_flip() {
    let black = Pixel(0, 14, 2, 255);
    let white = Pixel(234, 255, 186, 255);
    let plain = frame_with_flags(0x00);
    assert_eq!(plain[0], white);
    assert_eq!(plain[1], black);
    let behind = frame_with_flags(0x80);
    assert_eq!(behind[0], black);
    let flipped = frame_with_flags(0x20);
    assert_eq!(flipped[0], black);
    assert_eq!(flipped[7], white);
}

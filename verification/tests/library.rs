use rustyness::cartridge::{CartridgeError, ComponentCartridge, Mirror};
use rustyness::controller::Controller;
use rustyness::cpu::{lookup, Component6502, Flags, ADDRESSING_MODES};
use rustyness::cpu_bus::{AccessKind, FlatMemory};
use rustyness::debug_text::NesDisplay;
use rustyness::disassembly::Snapshot;
use rustyness::nes::{CpuInfo, Nes};
use rustyness::oam::OAM;
use rustyness::ppu::Component2C02;
use rustyness::bus::Bus;
use rustyness::ppu_registers::RegisterLoopy;
use rustyness::screen::{Rgba, ScreenData};
use rustyness::single_step::TestState;
use rustyness::text::push_hex;

/// An iNES image: `prg_chunks` banks of 16 KiB filled by `prg_byte`, then
/// `chr_chunks` banks of 8 KiB of zeros.
fn ines(prg_chunks: u8, chr_chunks: u8, flags6: u8, flags7: u8, prg_byte: fn(usize) -> u8) -> Vec<u8> {
    let mut v = vec![0x4E, 0x45, 0x53, 0x1A, prg_chunks, chr_chunks, flags6, flags7];
    v.resize(16, 0);
    for i in 0..(prg_chunks as usize * 0x4000) {
        v.push(prg_byte(i));
    }
    v.resize(v.len() + chr_chunks as usize * 0x2000, 0);
    v
}

/// A console with a one-bank NROM cartridge whose reset vector points to
/// `0x0200`; `vertical` selects the name table mirroring.
fn console(vertical: bool) -> Nes {
    let image = ines(1, 1, if vertical { 0x01 } else { 0x00 }, 0x00, |i| match i {
        0x3FFC => 0x00,
        0x3FFD => 0x02,
        _ => 0xEA,
    });
    let cartridge = ComponentCartridge::from_bytes(&image).unwrap();
    let mut nes = Nes::new();
    nes.load_cartridge(cartridge);
    nes
}

/// Runs whole instructions: clocks the CPU until its cycles are used up.
fn step(cpu: &mut Component6502, mem: &mut FlatMemory) {
    cpu.tick(mem);
    while cpu.cycles != 0 {
        cpu.tick(mem);
    }
}

/// A CPU at `0x0200` in a flat memory holding `program` there.
fn flat_program(program: &[u8]) -> (Component6502, FlatMemory) {
    let mut cpu = Component6502::new();
    let mut mem = FlatMemory::new();
    for (i, b) in program.iter().enumerate() {
        mem.poke(0x0200 + i as u16, *b);
    }
    cpu.pc = 0x0200;
    (cpu, mem)
}

#[test]
fn flag_set_then_get() {
    let mut cpu = Component6502::new();
    assert_eq!(cpu.status, 0x20);
    cpu.set_flag(Flags::C, true);
    assert!(cpu.get_flag(Flags::C));
    assert_eq!(cpu.status, 0x21);
    cpu.set_flag(Flags::N, true);
    cpu.set_flag(Flags::C, false);
    assert!(!cpu.get_flag(Flags::C));
    assert!(cpu.get_flag(Flags::N));
    assert!(cpu.get_flag(Flags::U));
    assert_eq!(cpu.status, 0xA0);
}

#[test]
fn adc_then_sbc_restores_accumulator() {
    // CLC; LDA #$C3; ADC #$5A; SEC; SBC #$5A
    let (mut cpu, mut mem) = flat_program(&[0x18, 0xA9, 0xC3, 0x69, 0x5A, 0x38, 0xE9, 0x5A]);
    step(&mut cpu, &mut mem);
    step(&mut cpu, &mut mem);
    step(&mut cpu, &mut mem);
    assert_eq!(cpu.a, 0x1D);
    assert!(cpu.get_flag(Flags::C));
    step(&mut cpu, &mut mem);
    step(&mut cpu, &mut mem);
    assert_eq!(cpu.a, 0xC3);
    assert_eq!(cpu.pc, 0x0208);
}

#[test]
fn compare_flags_match_subtraction() {
    for (a, m) in [(0x10u8, 0x20u8), (0x20, 0x20), (0x80, 0x01), (0x00, 0xFF)] {
        // LDA #a; CMP #m
        let (mut cpu, mut mem) = flat_program(&[0xA9, a, 0xC9, m]);
        step(&mut cpu, &mut mem);
        step(&mut cpu, &mut mem);
        let cmp = cpu.status;
        // LDA #a; SEC; SBC #m
        let (mut cpu2, mut mem2) = flat_program(&[0xA9, a, 0x38, 0xE9, m]);
        step(&mut cpu2, &mut mem2);
        step(&mut cpu2, &mut mem2);
        step(&mut cpu2, &mut mem2);
        assert_eq!(cpu.a, a);
        assert_eq!(cmp & 0x83, cpu2.status & 0x83);
        assert_eq!(cmp & 0x01 != 0, a >= m);
        assert_eq!(cmp & 0x02 != 0, a == m);
    }
}

#[test]
fn pha_then_pla_restores_accumulator() {
    // LDA #$5C; PHA; LDA #$00; PLA
    let (mut cpu, mut mem) = flat_program(&[0xA9, 0x5C, 0x48, 0xA9, 0x00, 0x68]);
    for _ in 0..4 {
        step(&mut cpu, &mut mem);
    }
    assert_eq!(cpu.a, 0x5C);
    assert_eq!(cpu.sp, 0xFD);
    assert_eq!(mem.load(0x01FD), 0x5C);
}

#[test]
fn php_then_plp_restores_flags() {
    // SEC; SED; PHP; CLC; CLD; PLP
    let (mut cpu, mut mem) = flat_program(&[0x38, 0xF8, 0x08, 0x18, 0xD8, 0x28]);
    for _ in 0..6 {
        step(&mut cpu, &mut mem);
    }
    assert_eq!(cpu.status, 0x29);
    assert_eq!(cpu.sp, 0xFD);
    // the pushed copy has B and U set
    assert_eq!(mem.load(0x01FD), 0x39);
}

#[test]
fn jsr_then_rts_returns_after_call() {
    // JSR $0300 ... at $0300: RTS
    let (mut cpu, mut mem) = flat_program(&[0x20, 0x00, 0x03]);
    mem.poke(0x0300, 0x60);
    step(&mut cpu, &mut mem);
    assert_eq!(cpu.pc, 0x0300);
    assert_eq!(cpu.sp, 0xFB);
    assert_eq!(mem.load(0x01FD), 0x02);
    assert_eq!(mem.load(0x01FC), 0x02);
    step(&mut cpu, &mut mem);
    assert_eq!(cpu.pc, 0x0203);
    assert_eq!(cpu.sp, 0xFD);
}

#[test]
fn nmi_then_rti_resumes() {
    let (mut cpu, mut mem) = flat_program(&[0xEA]);
    mem.poke(0xFFFA, 0x00);
    mem.poke(0xFFFB, 0x04);
    mem.poke(0x0400, 0x40);
    cpu.status = 0x21;
    cpu.nmi(&mut mem);
    assert_eq!(cpu.pc, 0x0400);
    assert_eq!(cpu.cycles, 8);
    assert_eq!(cpu.sp, 0xFA);
    assert_eq!(mem.load(0x01FB), 0x25);
    cpu.cycles = 0;
    step(&mut cpu, &mut mem);
    assert_eq!(cpu.pc, 0x0200);
    assert_eq!(cpu.sp, 0xFD);
    assert_eq!(cpu.status, 0x25);
}

#[test]
fn irq_respects_interrupt_disable() {
    let (mut cpu, mut mem) = flat_program(&[0xEA]);
    mem.poke(0xFFFE, 0x34);
    mem.poke(0xFFFF, 0x12);
    cpu.status = 0x24;
    cpu.irq(&mut mem);
    assert_eq!(cpu.pc, 0x0200);
    assert_eq!(mem.trace_len(), 0);
    cpu.status = 0x20;
    cpu.irq(&mut mem);
    assert_eq!(cpu.pc, 0x1234);
    assert_eq!(cpu.cycles, 7);
    assert_eq!(mem.load(0x01FB), 0x24);
}

#[test]
fn reset_reads_vector() {
    let mut cpu = Component6502::new();
    let mut mem = FlatMemory::new();
    mem.poke(0xFFFC, 0x00);
    mem.poke(0xFFFD, 0x80);
    cpu.a = 7;
    cpu.reset(&mut mem);
    assert_eq!(cpu.pc, 0x8000);
    assert_eq!(cpu.a, 0);
    assert_eq!(cpu.sp, 0xFD);
    assert_eq!(cpu.status, 0x20);
    assert_eq!(cpu.cycles, 8);
    assert_eq!(mem.trace_len(), 2);
    assert_eq!(mem.trace_entry(0).address, 0xFFFC);
    assert_eq!(mem.trace_entry(1).kind, AccessKind::Read);
}

#[test]
fn branch_taken_across_page_costs_two_cycles() {
    // BNE +$10 at $02F0 (Z clear): target $0302 is on the next page
    let mut cpu = Component6502::new();
    let mut mem = FlatMemory::new();
    mem.poke(0x02F0, 0xD0);
    mem.poke(0x02F1, 0x10);
    cpu.pc = 0x02F0;
    cpu.tick(&mut mem);
    assert_eq!(cpu.pc, 0x0302);
    assert_eq!(cpu.cycles, 3);
    assert_eq!(mem.trace_len(), 4);
}

#[test]
fn ram_mirror_read_after_write() {
    let mut nes = console(true);
    nes.cpu_write(0x0123, 0xAB);
    assert_eq!(nes.cpu_read(0x0123), 0xAB);
    assert_eq!(nes.cpu_read(0x0923), 0xAB);
    assert_eq!(nes.cpu_read(0x1123), 0xAB);
    assert_eq!(nes.cpu_read(0x1923), 0xAB);
    assert_eq!(nes.cpu_read(0x0124), 0x00);
    let (low, high, bytes) = nes.get_ram(0x0122, 0x0125);
    assert_eq!((low, high), (0x0122, 0x0125));
    assert_eq!(bytes, &[0x00, 0xAB, 0x00]);
    let (_, _, none) = nes.get_ram(0x0200, 0x0100);
    assert!(none.is_empty());
}

#[test]
fn cartridge_answers_program_space() {
    let mut nes = console(true);
    assert_eq!(nes.cpu_read(0x8000), 0xEA);
    assert_eq!(nes.cpu_read(0xFFFC), 0x00);
    assert_eq!(nes.cpu_read(0xFFFD), 0x02);
    // a single bank is seen at 0x8000 and again at 0xC000
    assert_eq!(nes.cpu_read(0xBFFC), 0x00);
    assert_eq!(nes.cpu_read(0xBFFD), 0x02);
    // nothing is mapped between the controllers and the cartridge
    assert_eq!(nes.cpu_read(0x5000), 0x00);
}

#[test]
fn palette_write_reads_back_at_once() {
    let mut nes = console(true);
    nes.cpu_write(0x2006, 0x3F);
    nes.cpu_write(0x2006, 0x01);
    nes.cpu_write(0x2007, 0x2A);
    nes.cpu_write(0x2006, 0x3F);
    nes.cpu_write(0x2006, 0x01);
    assert_eq!(nes.cpu_read(0x2007), 0x2A);
    // 0x3F10 is the same cell as 0x3F00
    nes.cpu_write(0x2006, 0x3F);
    nes.cpu_write(0x2006, 0x10);
    nes.cpu_write(0x2007, 0x0F);
    nes.cpu_write(0x2006, 0x3F);
    nes.cpu_write(0x2006, 0x00);
    assert_eq!(nes.cpu_read(0x2007), 0x0F);
}

#[test]
fn name_table_reads_are_buffered_and_mirrored_vertically() {
    let mut nes = console(true);
    nes.cpu_write(0x2006, 0x20);
    nes.cpu_write(0x2006, 0x05);
    nes.cpu_write(0x2007, 0x77);
    // 0x2805 is the same cell as 0x2005 under vertical mirroring
    nes.cpu_write(0x2006, 0x28);
    nes.cpu_write(0x2006, 0x05);
    assert_eq!(nes.cpu_read(0x2007), 0x00);
    nes.cpu_write(0x2006, 0x28);
    nes.cpu_write(0x2006, 0x05);
    assert_eq!(nes.cpu_read(0x2007), 0x77);
    // 0x2405 is another cell
    nes.cpu_write(0x2006, 0x24);
    nes.cpu_write(0x2006, 0x05);
    nes.cpu_read(0x2007);
    assert_eq!(nes.cpu_read(0x2007), 0x00);
}

#[test]
fn name_tables_mirrored_horizontally() {
    let mut nes = console(false);
    nes.cpu_write(0x2006, 0x20);
    nes.cpu_write(0x2006, 0x10);
    nes.cpu_write(0x2007, 0x55);
    nes.cpu_write(0x2006, 0x24);
    nes.cpu_write(0x2006, 0x10);
    nes.cpu_read(0x2007);
    assert_eq!(nes.cpu_read(0x2007), 0x55);
}

#[test]
fn status_read_clears_vertical_blank_and_latch() {
    let mut nes = console(true);
    // first write of PPUADDR sets the latch, the status read clears it
    nes.cpu_write(0x2006, 0x21);
    nes.cpu_read(0x2002);
    nes.cpu_write(0x2006, 0x20);
    nes.cpu_write(0x2006, 0x00);
    nes.cpu_write(0x2007, 0x11);
    nes.cpu_write(0x2006, 0x20);
    nes.cpu_write(0x2006, 0x00);
    nes.cpu_read(0x2007);
    assert_eq!(nes.cpu_read(0x2007), 0x11);
}

#[test]
fn sprite_memory_through_registers() {
    let mut nes = console(true);
    nes.cpu_write(0x2003, 0x05);
    nes.cpu_write(0x2004, 0x99);
    nes.cpu_write(0x2003, 0x05);
    assert_eq!(nes.cpu_read(0x2004), 0x99);
    nes.cpu_write(0x2003, 0x06);
    assert_eq!(nes.cpu_read(0x2004), 0x00);
}

#[test]
fn controller_reports_buttons_in_order() {
    let mut nes = console(true);
    nes.controllers[0].check_inputs(true, false, false, true, false, false, false, true);
    nes.cpu_write(0x4016, 1);
    let bits: Vec<u8> = (0..9).map(|_| nes.cpu_read(0x4016)).collect();
    assert_eq!(bits, vec![1, 0, 0, 1, 0, 0, 0, 1, 0]);
    // the second controller has nothing pressed
    nes.cpu_write(0x4017, 1);
    assert_eq!(nes.cpu_read(0x4017), 0);
}

#[test]
fn controller_shift_register() {
    let mut c = Controller::new();
    c.check_inputs(false, true, false, false, false, false, true, false);
    assert_eq!(c.get_state(), 0x42);
    assert_eq!(c.read(), 0);
    c.write();
    let bits: Vec<u8> = (0..8).map(|_| c.read()).collect();
    assert_eq!(bits, vec![0, 1, 0, 0, 0, 0, 1, 0]);
}

#[test]
fn sprite_dma_copies_a_page() {
    let mut nes = console(true);
    for i in 0..256u16 {
        nes.cpu_write(0x0200 + i, (i as u8).wrapping_mul(3));
    }
    nes.cpu_write(0x4014, 0x02);
    for _ in 0..3 * 600 {
        nes.tick();
    }
    for i in [0u8, 1, 2, 100, 255] {
        nes.cpu_write(0x2003, i);
        assert_eq!(nes.cpu_read(0x2004), i.wrapping_mul(3));
    }
}

#[test]
fn console_reset_and_clock() {
    let mut nes = console(true);
    nes.reset();
    let info = nes.get_cpu_info();
    assert_eq!(info.program_counter, 0x0200);
    assert_eq!(info.stack_pointer, 0xFD);
    assert_eq!(info.cycles, 8);
    assert_eq!(nes.get_cpu_flags(), 0x20);
    assert_eq!(nes.total_clock_ticks, 0);
    assert!(!nes.is_cpu_instruction_complete());
    // the CPU gets one cycle every third clock tick
    for _ in 0..3 {
        nes.tick();
    }
    assert_eq!(nes.get_cpu_info().cycles, 7);
    assert_eq!(nes.total_clock_ticks, 3);
    for _ in 0..21 {
        nes.tick();
    }
    assert!(nes.is_cpu_instruction_complete());
}

#[test]
fn frame_completes_after_a_full_frame_of_ticks() {
    let mut nes = console(true);
    nes.reset();
    assert!(!nes.is_ppu_frame_complete());
    let mut ticks = 0;
    while !nes.is_ppu_frame_complete() && ticks < 100_000 {
        nes.tick();
        ticks += 1;
    }
    assert!(nes.is_ppu_frame_complete());
    // 261 lines of 341 clocks from line 0, less the clock skipped at its start
    assert_eq!(ticks, 341 * 261 - 1);
    nes.set_ppu_frame_complete(false);
    assert!(!nes.is_ppu_frame_complete());
    assert_eq!(nes.get_screen().len(), 256 * 240);
}

#[test]
fn pattern_tables_are_drawn() {
    let mut nes = console(true);
    let table = nes.get_pattern_table(0);
    assert_eq!(table.len(), 128 * 128);
    nes.cycle_palette();
    let table = nes.get_pattern_table(1);
    assert_eq!(table.len(), 128 * 128);
}

#[test]
fn cartridge_errors() {
    assert_eq!(ComponentCartridge::from_bytes(&[0x4E, 0x45, 0x53]).unwrap_err(), CartridgeError::MissingHeader);
    let nes2 = ines(1, 1, 0x00, 0x08, |_| 0);
    assert_eq!(ComponentCartridge::from_bytes(&nes2).unwrap_err(), CartridgeError::UnsupportedFormat);
    let mmc1 = ines(1, 1, 0x10, 0x00, |_| 0);
    assert_eq!(ComponentCartridge::from_bytes(&mmc1).unwrap_err(), CartridgeError::UnsupportedMapper(1));
    let high = ines(1, 1, 0x40, 0x10, |_| 0);
    assert_eq!(ComponentCartridge::from_bytes(&high).unwrap_err(), CartridgeError::UnsupportedMapper(0x14));
}

#[test]
fn cartridge_without_program_rom_loads() {
    let mut image = ines(0, 1, 0x01, 0x00, |_| 0);
    image[16] = 0x5A;
    let c = ComponentCartridge::from_bytes(&image).unwrap();
    assert_eq!(c.mirror(), Mirror::Vertical);
    assert!(!c.fits_mapper());
    assert!(ComponentCartridge::from_bytes(&ines(1, 1, 0, 0, |_| 0)).unwrap().fits_mapper());
    assert!(!ComponentCartridge::new().fits_mapper());
    let mut data = 0x11u8;
    // below cartridge space the cartridge does not answer
    assert!(!c.cpu_read(0x1234, &mut data));
    assert_eq!(data, 0x11);
    // the character ROM is there
    assert!(c.ppu_read(0x0000, &mut data));
    assert_eq!(data, 0x5A);
    // the console works from its RAM
    let mut nes = Nes::new();
    nes.load_cartridge(c);
    nes.cpu_write(0x0010, 0x77);
    assert_eq!(nes.cpu_read(0x0810), 0x77);
}

#[test]
fn console_without_cartridge_uses_ram() {
    let mut nes = Nes::new();
    nes.cpu_write(0x0801, 0xAB);
    assert_eq!(nes.cpu_read(0x0001), 0xAB);
    assert_eq!(nes.cpu_read(0x1801), 0xAB);
    // an address no device answers reads as zero
    assert_eq!(nes.cpu_read(0x5000), 0x00);
}

#[test]
fn cartridge_with_trainer_and_short_image() {
    // the trainer is skipped; missing bytes at the end read as zeros
    let mut image = vec![0x4E, 0x45, 0x53, 0x1A, 1, 0, 0x05, 0x00];
    image.resize(16 + 512, 0xFF);
    image.push(0x42);
    let c = ComponentCartridge::from_bytes(&image).unwrap();
    assert_eq!(c.mirror(), Mirror::Vertical);
    let mut data = 0u8;
    assert!(c.cpu_read(0x8000, &mut data));
    assert_eq!(data, 0x42);
    assert!(c.cpu_read(0xC001, &mut data));
    assert_eq!(data, 0x00);
    // no character ROM: 8 KiB of zeros
    assert!(c.ppu_read(0x1FFF, &mut data));
    assert_eq!(data, 0x00);
}

#[test]
fn uxrom_cartridge_selects_banks() {
    let image = ines(4, 0, 0x20, 0x00, |i| (i / 0x4000) as u8);
    let mut c = ComponentCartridge::from_bytes(&image).unwrap();
    assert_eq!(c.mirror(), Mirror::Horizontal);
    let mut data = 0x77u8;
    // program reads are not answered by this mapper
    assert!(!c.cpu_read(0x8000, &mut data));
    assert_eq!(data, 0x77);
    assert!(!c.cpu_write(0x8000, 2));
    // character RAM is writable
    assert!(c.ppu_write(0x0010, 0x5A));
    assert!(c.ppu_read(0x0010, &mut data));
    assert_eq!(data, 0x5A);
    c.reset();
}

#[test]
fn nrom_program_rom_is_writable_and_character_rom_is_not() {
    let image = ines(2, 1, 0x00, 0x00, |i| (i % 251) as u8);
    let mut c = ComponentCartridge::from_bytes(&image).unwrap();
    let mut data = 0u8;
    assert!(c.cpu_read(0xC000, &mut data));
    assert_eq!(data, (0x4000 % 251) as u8);
    assert!(c.cpu_write(0x8001, 0x99));
    assert!(c.cpu_read(0x8001, &mut data));
    assert_eq!(data, 0x99);
    assert!(!c.ppu_write(0x0000, 1));
    assert!(!c.cpu_write(0x6000, 1));
}

#[test]
fn format_operands_columns() {
    let mut ram = vec![0u8; 0x10000];
    ram[0x0010] = 0x42;
    ram[0x0020] = 0x34;
    ram[0x0021] = 0x12;
    ram[0x1244] = 0x99;
    ram[0x02FF] = 0x00;
    ram[0x0200] = 0x80;
    ram[0x0300] = 0x40;
    let f = |mode: ADDRESSING_MODES, bytes: &[u8], opcode: u8, pc: u16, x: u8, y: u8| {
        mode.format_operands(bytes, &ram, opcode, pc, x, y)
    };
    assert_eq!(f(ADDRESSING_MODES::IMM, &[], 0xA9, 0, 0, 0), "");
    assert_eq!(f(ADDRESSING_MODES::ABS, &[0x20, 0x34, 0x12], 0x20, 0, 0, 0), format!("$1234{}", " ".repeat(21)));
    assert_eq!(f(ADDRESSING_MODES::ACC, &[0x0A], 0x0A, 0, 0, 0), format!("A{}", " ".repeat(25)));
    assert_eq!(f(ADDRESSING_MODES::IMP, &[0xEA], 0xEA, 0, 0, 0), " ".repeat(26));
    assert_eq!(f(ADDRESSING_MODES::IMM, &[0xA9, 0x05], 0xA9, 0, 0, 0), format!("#$05{}", " ".repeat(22)));
    assert_eq!(f(ADDRESSING_MODES::ZP0, &[0xA5, 0x10], 0xA5, 0, 0, 0), format!("$10 = 42{}", " ".repeat(18)));
    assert_eq!(f(ADDRESSING_MODES::ZPX, &[0xB5, 0x0F], 0xB5, 0, 1, 0), format!("$0F,X @ 10 = 42{}", " ".repeat(11)));
    assert_eq!(f(ADDRESSING_MODES::ZPY, &[0xB6, 0xFF], 0xB6, 0, 0, 0x11), format!("$FF,Y @ 10 = 42{}", " ".repeat(11)));
    assert_eq!(f(ADDRESSING_MODES::REL, &[0xD0, 0xFE], 0xD0, 0xC000, 0, 0), format!("$C000{}", " ".repeat(21)));
    assert_eq!(f(ADDRESSING_MODES::ABS, &[0xAD, 0x44, 0x12], 0xAD, 0, 0, 0), format!("$1244 = 99{}", " ".repeat(16)));
    assert_eq!(f(ADDRESSING_MODES::ABX, &[0xBD, 0x40, 0x12], 0xBD, 0, 4, 0), format!("$1240,X @ 1244 = 99{}", " ".repeat(7)));
    assert_eq!(f(ADDRESSING_MODES::ABY, &[0xB9, 0xFF, 0xFF], 0xB9, 0, 0, 2), format!("$FFFF,Y @ 0001 = 00{}", " ".repeat(7)));
    assert_eq!(f(ADDRESSING_MODES::IZX, &[0xA1, 0x1E], 0xA1, 0, 2, 0), format!("($1E,X) @ 20 = 1234 = 00{}", " ".repeat(2)));
    assert_eq!(f(ADDRESSING_MODES::IZY, &[0xB1, 0x20], 0xB1, 0, 0, 0x10), "($20),Y = 1234 @ 1244 = 99");
}

#[test]
fn format_operands_indirect_page_bug() {
    let mut ram = vec![0u8; 0x10000];
    // JMP ($02FF) at $0400: the high byte comes from $0200, not $0300
    ram[0x0401] = 0xFF;
    ram[0x0402] = 0x02;
    ram[0x02FF] = 0x00;
    ram[0x0200] = 0x80;
    ram[0x0300] = 0x40;
    let s = ADDRESSING_MODES::IND.format_operands(&[0x6C, 0xFF, 0x02], &ram, 0x6C, 0x0400, 0, 0);
    assert_eq!(s, format!("($02FF) = 8000{}", " ".repeat(12)));
}

#[test]
fn nestest_log_line() {
    let mut bus = Bus::new();
    bus.ram[0xC000] = 0x4C;
    bus.ram[0xC001] = 0xF5;
    bus.ram[0xC002] = 0xC5;
    let mut cpu = Component6502::new();
    cpu.status = 0x24;
    let snapshot = Snapshot { cpu, ppu: Component2C02::new(), bus };
    let line = Nes::nestest_format_log(&snapshot);
    assert_eq!(line, "C000  4C F5 C5  JMP $C5F5                       A:00 X:00 Y:00 P:24 SP:FD");
}

#[test]
fn nestest_log_line_for_implied_instruction() {
    let mut bus = Bus::new();
    bus.ram[0xC000] = 0x78;
    let mut cpu = Component6502::new();
    cpu.a = 0x12;
    cpu.status = 0x24;
    let snapshot = Snapshot { cpu, ppu: Component2C02::new(), bus };
    let line = Nes::nestest_format_log(&snapshot);
    assert_eq!(line, format!("C000  78        SEI {}  A:12 X:00 Y:00 P:24 SP:FD", " ".repeat(26)));
}

#[test]
fn instruction_listing() {
    let mut nes = console(true);
    // LDA #$05; STA $0200; NOP; LDA ($10),Y; BNE -2
    let program = [0xA9, 0x05, 0x8D, 0x00, 0x02, 0xEA, 0xB1, 0x10, 0xD0, 0xFE];
    for (i, b) in program.iter().enumerate() {
        nes.cpu_write(0x0300 + i as u16, *b);
    }
    nes.cpu_write(0x0010, 0x00);
    nes.cpu_write(0x0011, 0x04);
    let lines = nes.get_instruction_string_range(0x0300, 0x0305);
    assert_eq!(
        lines,
        vec![
            "A9 (IMM)  LDA #$05",
            "8D (ABS)  STA $0200",
            "EA (IMP)  NOP",
            "B1  LDA ($10), Y = 0400",
            "D0 (REL)  BNE $FE [0408]",
        ]
    );
    assert!(nes.get_instruction_string_range(0x0305, 0x0300).is_empty());
}

#[test]
fn memory_view_lines() {
    assert_eq!(NesDisplay::bytes_to_string((0x0010, 0x0014, &[1, 2, 0xAB, 4])), "[0010-0013] 01 02 AB 04");
    assert_eq!(NesDisplay::bytes_to_string((0x0000, 0x0000, &[])), "");
    let bytes: Vec<u8> = (0..41).collect();
    let text = NesDisplay::bytes_to_string((0x0100, 0x0129, &bytes));
    let lines: Vec<&str> = text.split('\n').collect();
    assert_eq!(lines.len(), 2);
    assert!(lines[0].starts_with("[0100-0127] 00 01 02"));
    assert!(lines[0].ends_with("26 27"));
    assert_eq!(lines[1], "[0128-0128] 28");
}

#[test]
fn registers_panel() {
    let info = CpuInfo { program_counter: 0xC000, reg_a: 5, reg_x: 255, reg_y: 16, stack_pointer: 0xFD, cycles: 0 };
    assert_eq!(NesDisplay::cpu_info_to_string(info), "PC:\tC000\nSP:\t00FD\nA:\t\t(005) 05\nX:\t\t(255) FF\nY:\t\t(016) 10\n");
}

#[test]
fn hex_digits_widen_past_the_width() {
    let mut s = String::new();
    push_hex(&mut s, 0x1FE, 2);
    push_hex(&mut s, 0x7, 4);
    assert_eq!(s, "1FE0007");
}

#[test]
fn sprite_memory_read_after_write() {
    let mut oam = OAM::new();
    oam.set_address(9);
    oam.write(9, 0x3C);
    let mut data = 0;
    oam.read(&mut data);
    assert_eq!(data, 0x3C);
    assert_eq!(oam.get_entry(2).tile_index, 0x3C);
    oam.write(8, 0x10);
    assert_eq!(oam.get_entry(2).y, 0x10);
}

#[test]
fn loopy_fields_round_trip() {
    let mut r = RegisterLoopy::new();
    r.set_coarse_x(31);
    r.set_coarse_y(7);
    r.set_nametable_x(true);
    r.set_fine_y(5);
    assert_eq!(r.coarse_x(), 31);
    assert_eq!(r.coarse_y(), 7);
    assert!(r.nametable_x());
    assert!(!r.nametable_y());
    assert_eq!(r.fine_y(), 5);
    assert_eq!(r.into_bits(), 31 | (7 << 5) | (1 << 10) | (5 << 12));
    r.set_nametable_x(false);
    assert_eq!(RegisterLoopy::from_bits(r.into_bits()).coarse_y(), 7);
    assert!(!r.nametable_x());
}

#[test]
fn screen_starts_blank() {
    let screen = ScreenData::new();
    assert!(screen.get_screen().iter().all(|c| *c == Rgba::blank()));
    assert_eq!(screen.palette_color(0x30), Rgba { r: 236, g: 238, b: 236, a: 255 });
}

#[test]
fn single_step_state_round_trip() {
    let state = TestState { pc: 0x1234, s: 0xF0, a: 1, x: 2, y: 3, p: 0x24, ram: vec![(0x0010, 7), (0x0010, 9), (0x8000, 1)] };
    let mut cpu = Component6502::new();
    let mut mem = FlatMemory::new();
    state.apply(&mut cpu, &mut mem);
    assert_eq!(mem.load(0x0010), 9);
    assert!(!state.matches(&cpu, &mem));
    let later = TestState { ram: vec![(0x0010, 9), (0x8000, 1)], ..state.clone() };
    assert!(later.matches(&cpu, &mem));
    mem.clear();
    assert!(!later.matches(&cpu, &mem));
}

#[test]
fn pla_restores_accumulator_across_a_subroutine() {
    // LDA #$80; PHA; JSR $0300; PLA ... at $0300: LDA #$01; PHA; PLA; LDX #$00; RTS
    let (mut cpu, mut mem) = flat_program(&[0xA9, 0x80, 0x48, 0x20, 0x00, 0x03, 0x68]);
    for (i, b) in [0xA9, 0x01, 0x48, 0x68, 0xA2, 0x00, 0x60].iter().enumerate() {
        mem.poke(0x0300 + i as u16, *b);
    }
    for _ in 0..8 {
        step(&mut cpu, &mut mem);
    }
    // back after the three bytes of the JSR, with the stack as the PHA left it
    assert_eq!(cpu.pc, 0x0206);
    assert_eq!(cpu.sp, 0xFC);
    step(&mut cpu, &mut mem);
    assert_eq!(cpu.a, 0x80);
    assert_eq!(cpu.sp, 0xFD);
    assert!(cpu.get_flag(Flags::N));
    assert!(!cpu.get_flag(Flags::Z));
}

#[test]
fn console_ppu_data_write_reads_back_and_steps() {
    let mut nes = console(false);
    nes.cpu_read(0x2002);
    // step of 32 from PPUCTRL bit 2
    nes.cpu_write(0x2000, 0x04);
    nes.cpu_write(0x2006, 0x23);
    nes.cpu_write(0x2006, 0x10);
    nes.cpu_write(0x2007, 0x99);
    // the next PPUDATA write lands 32 bytes on
    nes.cpu_write(0x2007, 0x42);
    nes.cpu_write(0x2000, 0x00);
    nes.cpu_write(0x2006, 0x23);
    nes.cpu_write(0x2006, 0x10);
    nes.cpu_read(0x2007);
    assert_eq!(nes.cpu_read(0x2007), 0x99);
    nes.cpu_write(0x2006, 0x23);
    nes.cpu_write(0x2006, 0x30);
    nes.cpu_read(0x2007);
    assert_eq!(nes.cpu_read(0x2007), 0x42);
}

#[test]
fn sprite_dma_copies_a_cartridge_page() {
    // program ROM bytes hold their offset's low byte plus one
    let image = ines(1, 1, 0x00, 0x00, |i| (i as u8).wrapping_add(1));
    let mut nes = Nes::new();
    nes.load_cartridge(ComponentCartridge::from_bytes(&image).unwrap());
    nes.cpu_write(0x4014, 0x81);
    for _ in 0..3 * 600 {
        nes.tick();
    }
    for i in [0u8, 7, 128, 255] {
        nes.cpu_write(0x2003, i);
        assert_eq!(nes.cpu_read(0x2004), i.wrapping_add(1));
    }
}

#[test]
fn operand_count_is_program_counter_advance() {
    // LDA #, LDA abs, LDA zp,X, ASL A, NOP, LDA (zp),Y, LDA abs,X, STA (zp,X)
    for op in [0xA9u8, 0xAD, 0xB5, 0x0A, 0xEA, 0xB1, 0xBD, 0x81] {
        let (mut cpu, mut mem) = flat_program(&[op, 0x10, 0x00]);
        step(&mut cpu, &mut mem);
        let n = lookup(op).addr_mode.get_operands_nb();
        assert_eq!(cpu.pc, 0x0201 + n as u16, "opcode {op:02X}");
    }
    assert_eq!(lookup(0xAD).addr_mode, ADDRESSING_MODES::ABS);
    assert_eq!(ADDRESSING_MODES::ABS.get_operands_nb(), 2);
    assert_eq!(ADDRESSING_MODES::IMP.get_operands_nb(), 0);
}

#[test]
fn instruction_listing_of_ram_without_cartridge() {
    let mut nes = Nes::new();
    // JMP ($0010); LDA $0011,X
    for (i, b) in [0x6C, 0x10, 0x00, 0xBD, 0x11, 0x00].iter().enumerate() {
        nes.cpu_write(0x0400 + i as u16, *b);
    }
    nes.cpu_write(0x0010, 0x34);
    nes.cpu_write(0x0011, 0x12);
    let lines = nes.get_instruction_string_range(0x0400, 0x0402);
    assert_eq!(lines, vec!["6C  JMP ($1234)", "BD (ABSx)  LDA $0011, X"]);
}

#[test]
fn run_frame_stops_at_frame_end_and_clears_the_flag() {
    let mut nes = console(true);
    nes.reset();
    assert!(nes.run_frame());
    assert!(!nes.is_ppu_frame_complete());
    assert_eq!(nes.total_clock_ticks, 341 * 261 - 1);
    // the next frame runs the 262 lines from the pre-render line on, less the
    // clock skipped at the start of line 0
    assert!(nes.run_frame());
    assert_eq!(nes.total_clock_ticks, 341 * 261 - 1 + 341 * 262 - 1);
}

#[test]
fn step_instruction_runs_to_the_next_instruction() {
    // two NOPs in RAM at 0x0200, where the reset vector points
    let mut nes = console(true);
    nes.cpu_write(0x0200, 0xEA);
    nes.cpu_write(0x0201, 0xEA);
    nes.reset();
    assert!(nes.step_instruction());
    // the reset sequence is done and the first NOP has started
    assert!(!nes.is_cpu_instruction_complete());
    assert_eq!(nes.get_cpu_info().program_counter, 0x0201);
    assert!(nes.step_instruction());
    assert_eq!(nes.get_cpu_info().program_counter, 0x0202);
}

#[test]
fn step_frame_ends_on_an_instruction_boundary() {
    let mut nes = console(true);
    nes.reset();
    assert!(nes.step_frame());
    assert!(!nes.is_ppu_frame_complete());
    assert!(nes.is_cpu_instruction_complete());
    assert!(nes.total_clock_ticks >= 341 * 261 - 1);
}

#[test]
fn console_jsr_then_rts_with_the_clock() {
    let mut nes = console(true);
    // at 0x0200: JSR $0300; at 0x0300: LDA #$01; PHA; PLA; RTS
    for (i, b) in [0x20u8, 0x00, 0x03].iter().enumerate() {
        nes.cpu_write(0x0200 + i as u16, *b);
    }
    for (i, b) in [0xA9u8, 0x01, 0x48, 0x68, 0x60].iter().enumerate() {
        nes.cpu_write(0x0300 + i as u16, *b);
    }
    nes.reset();
    assert!(nes.step_instruction());
    assert_eq!(nes.get_cpu_info().program_counter, 0x0300);
    assert_eq!(nes.get_cpu_info().stack_pointer, 0xFB);
    for _ in 0..4 {
        assert!(nes.step_instruction());
    }
    assert_eq!(nes.get_cpu_info().program_counter, 0x0203);
    assert_eq!(nes.get_cpu_info().stack_pointer, 0xFD);
}

#[test]
fn console_controller_nine_reads() {
    let mut nes = console(true);
    nes.controllers[1].check_inputs(true, false, false, true, false, false, true, true);
    nes.cpu_write(0x4017, 1);
    let reads: Vec<u8> = (0..9).map(|_| nes.cpu_read(0x4017)).collect();
    assert_eq!(reads, vec![1, 0, 0, 1, 0, 0, 1, 1, 0]);
}

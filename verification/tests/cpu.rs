use dmg_core::apu::AudioFrame;
use dmg_core::interrupts::{INT_JOYPAD, INT_LCD, INT_SERIAL, INT_TIMER, INT_VBLANK};
use dmg_core::memory::{MBCType, MemoryInitializationErrorType};
use dmg_core::ppu::PPUMode;
use dmg_core::registers::{FlagReg, Reg16};
use dmg_core::{AudioBufferConsumer, ExecutionError, InputFlag, CPU};
use ringbuf::traits::Consumer;

/// A 32 KiB ROM image without a controller whose code starts at 0x0150.
fn image(program: &[u8]) -> Vec<u8> {
    let mut rom = vec![0u8; 0x8000];
    rom[0x100] = 0x00;
    rom[0x101] = 0xC3;
    rom[0x102] = 0x50;
    rom[0x103] = 0x01;
    for (index, byte) in b"PROGRAM".iter().enumerate() {
        rom[0x134 + index] = *byte;
    }
    rom[0x150..0x150 + program.len()].copy_from_slice(program);
    rom
}

/// A machine about to run `program`.
fn machine(program: &[u8]) -> CPU {
    let mut cpu = match CPU::new(image(program)) {
        Ok(cpu) => cpu,
        Err(error) => panic!("refused: {:?}", error),
    };
    cpu.reg.pc = 0x0150;
    cpu
}

fn step(cpu: &mut CPU) -> u64 {
    let before = cpu.cycle_counter;
    match cpu.execute() {
        Ok(_) => cpu.cycle_counter - before,
        Err(error) => panic!("stopped: {:?}", error),
    }
}

fn flags(zero: bool, carry: bool) -> FlagReg {
    FlagReg { zero, subtract: false, half_carry: false, carry }
}

#[test]
fn a_machine_starts_in_the_post_boot_state() {
    let cpu = match CPU::new(image(&[])) {
        Ok(cpu) => cpu,
        Err(_) => panic!("refused"),
    };
    assert_eq!(cpu.reg.pc, 0x0100);
    assert_eq!(cpu.reg.sp, 0xFFFE);
    assert_eq!(cpu.reg.a, 0x01);
    assert_eq!(cpu.reg.f.bits(), 0xB0);
    assert!(!cpu.halt);
    assert!(!cpu.istate.ime);
    assert_eq!(cpu.frame_counter, 0);
    assert_eq!(cpu.cycle_counter, 0);
    assert_eq!(cpu.get_display_buffer(), &[0u32; 1440]);
    let info = cpu.get_cartridge_info();
    assert_eq!(info.mbc, MBCType::NoMBC);
    assert_eq!(info.rom_banks, 2);
    assert_eq!(info.ram_banks, 0);
    assert!(!info.has_ram && !info.has_battery);
    assert_eq!(info.title.trim_end_matches('\0'), "PROGRAM");
}

#[test]
fn a_bad_image_is_refused() {
    match CPU::new(vec![0u8; 0x100]) {
        Ok(_) => panic!("accepted"),
        Err(error) => assert_eq!(error.error_type, MemoryInitializationErrorType::NoHeader),
    }
    let mut rom = image(&[]);
    rom[0x147] = 0x05;
    match CPU::new(rom) {
        Ok(_) => panic!("accepted"),
        Err(error) => assert_eq!(
            error.error_type,
            MemoryInitializationErrorType::UnimplementedMBC(MBCType::MBC2)
        ),
    }
}

#[test]
fn load_store_and_halt() {
    let mut cpu = match CPU::new(image(&[0x3E, 0x42, 0xEA, 0x00, 0xC0, 0xFA, 0x00, 0xC0, 0x76])) {
        Ok(cpu) => cpu,
        Err(_) => panic!("refused"),
    };
    assert_eq!(cpu.run(1048), Ok(()));
    assert_eq!(cpu.read(0xC000), 0x42);
    assert_eq!(cpu.reg.a, 0x42);
    assert!(cpu.halt);
    assert_eq!(cpu.reg.pc, 0x0159);
    assert_eq!(cpu.cycle_counter, 0);
}

#[test]
fn halt_ends_without_a_jump_while_ime_is_clear() {
    let mut cpu = machine(&[0x76, 0x3C, 0x3C]);
    cpu.write(0xFFFF, 0x01);
    assert_eq!(step(&mut cpu), 1);
    assert!(cpu.halt);
    assert_eq!(cpu.reg.pc, 0x0151);
    for _ in 0..10 {
        assert_eq!(step(&mut cpu), 1);
        assert!(cpu.halt);
        assert_eq!(cpu.reg.pc, 0x0151);
    }
    cpu.request_interrupt(INT_VBLANK);
    let a = cpu.reg.a;
    assert_eq!(cpu.run(1), Ok(()));
    assert!(!cpu.halt);
    assert_eq!(cpu.reg.pc, 0x0152);
    assert_eq!(cpu.reg.a, a.wrapping_add(1));
    assert_eq!(cpu.reg.sp, 0xFFFE);
    assert_eq!(cpu.read(0xFF0F) & 0x01, 0x01);
}

#[test]
fn halt_ends_with_a_jump_while_ime_is_set() {
    let mut cpu = machine(&[0xFB, 0x76, 0x00]);
    cpu.write(0xFFFF, 0x04);
    step(&mut cpu);
    step(&mut cpu);
    assert!(cpu.halt);
    cpu.request_interrupt(INT_TIMER);
    let cycles = step(&mut cpu);
    assert!(!cpu.halt);
    assert!(!cpu.istate.ime);
    assert_eq!(cycles, 5 + 1);
    assert_eq!(cpu.reg.pc, 0x0051);
    assert_eq!(cpu.reg.sp, 0xFFFC);
    assert_eq!(cpu.read_16(0xFFFC), 0x0152);
    assert_eq!(cpu.read(0xFF0F) & 0x04, 0);
}

#[test]
fn a_halt_without_enabled_requests_stays() {
    let mut cpu = machine(&[0x76]);
    cpu.write(0xFFFF, 0x01);
    step(&mut cpu);
    cpu.request_interrupt(INT_TIMER);
    for _ in 0..5 {
        step(&mut cpu);
    }
    assert!(cpu.halt);
}

#[test]
fn interrupts_are_served_by_priority() {
    let lines = [
        (INT_VBLANK, 0x40u16),
        (INT_LCD, 0x48),
        (INT_TIMER, 0x50),
        (INT_SERIAL, 0x58),
        (INT_JOYPAD, 0x60),
    ];
    for first in 0..5 {
        let mut cpu = machine(&[0x00]);
        cpu.istate.ime = true;
        cpu.write(0xFFFF, 0x1F);
        let mut requested = 0u8;
        for (line, _) in &lines[first..] {
            requested |= *line;
        }
        cpu.write(0xFF0F, requested);
        let cycles = step(&mut cpu);
        assert_eq!(cycles, 6);
        assert_eq!(cpu.reg.pc, lines[first].1 + 1);
        assert_eq!(cpu.read(0xFF0F), requested & !lines[first].0);
        assert!(!cpu.istate.ime);
        assert_eq!(cpu.read_16(cpu.reg.sp), 0x0150);
    }
}

#[test]
fn a_request_that_is_not_enabled_is_not_served() {
    let mut cpu = machine(&[0x00, 0x00]);
    cpu.istate.ime = true;
    cpu.write(0xFFFF, 0x01);
    cpu.write(0xFF0F, 0x1E);
    assert_eq!(step(&mut cpu), 1);
    assert_eq!(cpu.reg.pc, 0x0151);
    assert!(cpu.istate.ime);
}

#[test]
fn di_ei_and_reti() {
    let mut cpu = machine(&[0xFB, 0xF3, 0xFB, 0xCD, 0x60, 0x01]);
    cpu.write(0x0000, 0);
    step(&mut cpu);
    assert!(cpu.istate.ime);
    step(&mut cpu);
    assert!(!cpu.istate.ime);
    step(&mut cpu);
    assert!(cpu.istate.ime);
    let mut cpu = machine(&[0xCD, 0x60, 0x01, 0x00]);
    let mut rom = image(&[0xCD, 0x60, 0x01, 0x00]);
    rom[0x160] = 0xD9;
    cpu.set_rom(rom);
    assert_eq!(step(&mut cpu), 6);
    assert_eq!(cpu.reg.pc, 0x0160);
    assert_eq!(step(&mut cpu), 4);
    assert_eq!(cpu.reg.pc, 0x0153);
    assert!(cpu.istate.ime);
    assert_eq!(cpu.reg.sp, 0xFFFE);
}

/// Machine cycles of every opcode of the first table: the count when a
/// conditional branch is not taken, and the count when it is.
fn published(opcode: u8) -> Option<(u64, u64)> {
    let fixed = |cycles: u64| Some((cycles, cycles));
    match opcode {
        0xD3 | 0xDB | 0xDD | 0xE3 | 0xE4 | 0xEB | 0xEC | 0xED | 0xF4 | 0xFC | 0xFD => None,
        0xCB => None,
        0x00 | 0x10 | 0x76 | 0xF3 | 0xFB => fixed(1),
        0x20 | 0x28 | 0x30 | 0x38 => Some((2, 3)),
        0x18 => fixed(3),
        0x01 | 0x11 | 0x21 | 0x31 => fixed(3),
        0x08 => fixed(5),
        0x34 | 0x35 | 0x36 => fixed(3),
        0x00..=0x3F => match opcode & 0x0F {
            0x2 | 0xA | 0x3 | 0xB | 0x9 | 0x6 | 0xE => fixed(2),
            _ => fixed(1),
        },
        0x40..=0x7F => {
            if opcode & 0x07 == 6 || (0x70..=0x77).contains(&opcode) {
                fixed(2)
            } else {
                fixed(1)
            }
        }
        0x80..=0xBF => {
            if opcode & 0x07 == 6 {
                fixed(2)
            } else {
                fixed(1)
            }
        }
        0xC0 | 0xC8 | 0xD0 | 0xD8 => Some((2, 5)),
        0xC2 | 0xCA | 0xD2 | 0xDA => Some((3, 4)),
        0xC4 | 0xCC | 0xD4 | 0xDC => Some((3, 6)),
        0xC1 | 0xD1 | 0xE1 | 0xF1 => fixed(3),
        0xC5 | 0xD5 | 0xE5 | 0xF5 => fixed(4),
        0xC3 => fixed(4),
        0xC9 | 0xD9 => fixed(4),
        0xCD => fixed(6),
        0xC6 | 0xCE | 0xD6 | 0xDE | 0xE6 | 0xEE | 0xF6 | 0xFE => fixed(2),
        0xC7 | 0xCF | 0xD7 | 0xDF | 0xE7 | 0xEF | 0xF7 | 0xFF => fixed(4),
        0xE0 | 0xF0 => fixed(3),
        0xE2 | 0xF2 => fixed(2),
        0xEA | 0xFA => fixed(4),
        0xE8 => fixed(4),
        0xF8 => fixed(3),
        0xE9 => fixed(1),
        0xF9 => fixed(2),
    }
}

/// Whether the flags Z and C make the branch of `opcode` taken.
fn taken(opcode: u8, zero: bool, carry: bool) -> bool {
    match (opcode >> 3) & 0x03 {
        0 => !zero,
        1 => zero,
        2 => !carry,
        _ => carry,
    }
}

#[test]
fn every_instruction_takes_its_published_cycles() {
    for opcode in 0..=255u8 {
        let expected = match published(opcode) {
            Some(expected) => expected,
            None => continue,
        };
        for zero in [false, true] {
            for carry in [false, true] {
                let mut cpu = machine(&[opcode, 0x10, 0xC1]);
                cpu.reg.f = flags(zero, carry);
                cpu.reg.sp = 0xDFF0;
                cpu.reg.write_16(&Reg16::HL, 0xC100);
                let cycles = step(&mut cpu);
                let want = if expected.0 == expected.1 || !taken(opcode, zero, carry) {
                    expected.0
                } else {
                    expected.1
                };
                assert_eq!(cycles, want, "opcode {:#04X} Z={} C={}", opcode, zero, carry);
            }
        }
    }
}

#[test]
fn every_prefixed_instruction_takes_its_published_cycles() {
    for opcode in 0..=255u8 {
        let mut cpu = machine(&[0xCB, opcode]);
        cpu.reg.write_16(&Reg16::HL, 0xC100);
        let cycles = step(&mut cpu);
        let want = if opcode & 0x07 != 6 {
            2
        } else if (0x40..0x80).contains(&opcode) {
            3
        } else {
            4
        };
        assert_eq!(cycles, want, "opcode CB {:#04X}", opcode);
        assert_eq!(cpu.reg.pc, 0x0152);
    }
}

#[test]
fn every_instruction_moves_pc_by_its_length() {
    let lengths: [(u8, u16); 12] = [
        (0x00, 1),
        (0x10, 2),
        (0x06, 2),
        (0x01, 3),
        (0x08, 3),
        (0x3E, 2),
        (0xE0, 2),
        (0xEA, 3),
        (0xE8, 2),
        (0xF8, 2),
        (0xC6, 2),
        (0xF2, 1),
    ];
    for (opcode, length) in lengths {
        let mut cpu = machine(&[opcode, 0x80, 0xC0]);
        step(&mut cpu);
        assert_eq!(cpu.reg.pc, 0x0150 + length, "opcode {:#04X}", opcode);
    }
}

#[test]
fn prohibited_opcodes_stop_the_machine() {
    for opcode in [0xD3u8, 0xDB, 0xDD, 0xE3, 0xE4, 0xEB, 0xEC, 0xED, 0xF4, 0xFC, 0xFD] {
        let mut cpu = machine(&[0x00, opcode]);
        assert_eq!(cpu.execute(), Ok(false));
        assert_eq!(cpu.execute(), Err(ExecutionError::InvalidOpcode(opcode)));
        assert_eq!(cpu.reg.pc, 0x0151);
        assert_eq!(cpu.cycle_counter, 1);
        assert_eq!(cpu.execute(), Err(ExecutionError::InvalidOpcode(opcode)));
        let mut cpu = machine(&[0x00, 0x00, opcode]);
        cpu.cycle_counter = 77;
        assert_eq!(cpu.run(1000), Err(ExecutionError::InvalidOpcode(opcode)));
        assert_eq!(cpu.reg.pc, 0x0152);
        assert_eq!(cpu.cycle_counter, 0);
    }
}

#[test]
fn run_stops_at_the_instruction_that_reaches_the_target() {
    let mut cpu = machine(&[0x00, 0x00, 0x01, 0x34, 0x12, 0x00, 0x00]);
    assert_eq!(cpu.run(0), Ok(()));
    assert_eq!(cpu.reg.pc, 0x0150);
    assert_eq!(cpu.run(1), Ok(()));
    assert_eq!(cpu.reg.pc, 0x0151);
    assert_eq!(cpu.run(2), Ok(()));
    assert_eq!(cpu.reg.pc, 0x0155);
    assert_eq!(cpu.reg.read_16(&Reg16::BC), 0x1234);
    assert_eq!(cpu.cycle_counter, 0);
    assert_eq!(cpu.timer.div, 5 * 4);
}

#[test]
fn loads_between_registers_and_memory() {
    let mut cpu = machine(&[
        0x06, 0x12, 0x48, 0x51, 0x21, 0x00, 0xC0, 0x70, 0x5E, 0x36, 0x99, 0x7E, 0x22, 0x32, 0x2A,
        0x3A,
    ]);
    for _ in 0..8 {
        step(&mut cpu);
    }
    assert_eq!((cpu.reg.b, cpu.reg.c, cpu.reg.d, cpu.reg.e), (0x12, 0x12, 0x12, 0x12));
    assert_eq!(cpu.read(0xC000), 0x99);
    assert_eq!(cpu.reg.a, 0x99);
    step(&mut cpu);
    assert_eq!(cpu.reg.read_16(&Reg16::HL), 0xC001);
    cpu.reg.a = 0x55;
    step(&mut cpu);
    assert_eq!(cpu.read(0xC001), 0x55);
    assert_eq!(cpu.reg.read_16(&Reg16::HL), 0xC000);
    step(&mut cpu);
    assert_eq!(cpu.reg.a, 0x99);
    assert_eq!(cpu.reg.read_16(&Reg16::HL), 0xC001);
    step(&mut cpu);
    assert_eq!(cpu.reg.a, 0x55);
    assert_eq!(cpu.reg.read_16(&Reg16::HL), 0xC000);
}

#[test]
fn loads_through_bc_and_de_and_the_high_page() {
    let mut cpu = machine(&[0x02, 0x1A, 0xE0, 0x80, 0xF0, 0x80, 0xE2, 0xF2, 0x08, 0x10, 0xC0, 0xF9]);
    cpu.reg.write_16(&Reg16::BC, 0xC020);
    cpu.reg.write_16(&Reg16::DE, 0xC020);
    cpu.reg.a = 0x77;
    step(&mut cpu);
    assert_eq!(cpu.read(0xC020), 0x77);
    cpu.reg.a = 0;
    step(&mut cpu);
    assert_eq!(cpu.reg.a, 0x77);
    step(&mut cpu);
    assert_eq!(cpu.read(0xFF80), 0x77);
    cpu.write(0xFF80, 0x88);
    step(&mut cpu);
    assert_eq!(cpu.reg.a, 0x88);
    cpu.reg.c = 0x81;
    step(&mut cpu);
    assert_eq!(cpu.read(0xFF81), 0x88);
    cpu.write(0xFF81, 0x11);
    step(&mut cpu);
    assert_eq!(cpu.reg.a, 0x11);
    cpu.reg.sp = 0xABCD;
    step(&mut cpu);
    assert_eq!(cpu.read(0xC010), 0xCD);
    assert_eq!(cpu.read(0xC011), 0xAB);
    cpu.reg.write_16(&Reg16::HL, 0xD000);
    step(&mut cpu);
    assert_eq!(cpu.reg.sp, 0xD000);
}

#[test]
fn push_stores_the_high_byte_above_the_low_byte() {
    let mut cpu = machine(&[0xC5, 0xD1, 0xF5, 0xF1]);
    cpu.reg.write_16(&Reg16::BC, 0x1234);
    cpu.reg.sp = 0xD000;
    step(&mut cpu);
    assert_eq!(cpu.reg.sp, 0xCFFE);
    assert_eq!(cpu.read(0xCFFF), 0x12);
    assert_eq!(cpu.read(0xCFFE), 0x34);
    step(&mut cpu);
    assert_eq!(cpu.reg.read_16(&Reg16::DE), 0x1234);
    assert_eq!(cpu.reg.sp, 0xD000);
    cpu.reg.a = 0xAB;
    cpu.reg.f = FlagReg { zero: true, subtract: false, half_carry: true, carry: false };
    step(&mut cpu);
    assert_eq!(cpu.read_16(0xCFFE), 0xABA0);
    cpu.write(0xCFFE, 0xFF);
    step(&mut cpu);
    assert_eq!(cpu.reg.read_16(&Reg16::AF), 0xABF0);
}

#[test]
fn the_stack_pointer_wraps() {
    let mut cpu = machine(&[0xC5, 0xC1]);
    cpu.reg.sp = 0x0001;
    cpu.reg.write_16(&Reg16::BC, 0xBEEF);
    step(&mut cpu);
    assert_eq!(cpu.reg.sp, 0xFFFF);
    step(&mut cpu);
    assert_eq!(cpu.reg.sp, 0x0001);
}

#[test]
fn jumps_calls_and_returns() {
    let mut rom = image(&[0xC3, 0x00, 0x02]);
    rom[0x200..0x204].copy_from_slice(&[0xCD, 0x00, 0x03, 0x76]);
    rom[0x300..0x304].copy_from_slice(&[0x18, 0x02, 0x76, 0x76]);
    rom[0x304..0x308].copy_from_slice(&[0x18, 0xFC, 0x00, 0x00]);
    rom[0x302] = 0xC9;
    let mut cpu = machine(&[]);
    cpu.set_rom(rom);
    step(&mut cpu);
    assert_eq!(cpu.reg.pc, 0x0200);
    step(&mut cpu);
    assert_eq!(cpu.reg.pc, 0x0300);
    assert_eq!(cpu.read_16(cpu.reg.sp), 0x0203);
    step(&mut cpu);
    assert_eq!(cpu.reg.pc, 0x0304);
    step(&mut cpu);
    assert_eq!(cpu.reg.pc, 0x0302);
    step(&mut cpu);
    assert_eq!(cpu.reg.pc, 0x0203);
    assert_eq!(cpu.reg.sp, 0xFFFE);
}

#[test]
fn conditional_branches_follow_the_flags() {
    for (opcode, zero, carry, target) in [
        (0xC2u8, false, false, 0x0234u16),
        (0xC2, true, false, 0x0153),
        (0xCA, true, false, 0x0234),
        (0xCA, false, false, 0x0153),
        (0xD2, false, false, 0x0234),
        (0xD2, false, true, 0x0153),
        (0xDA, false, true, 0x0234),
        (0xDA, false, false, 0x0153),
        (0x20, false, false, 0x0186),
        (0x20, true, false, 0x0152),
        (0x38, false, true, 0x0186),
        (0x38, false, false, 0x0152),
        (0xC4, false, false, 0x0234),
        (0xCC, false, false, 0x0153),
        (0xE9, false, false, 0xC100),
    ] {
        let mut cpu = machine(&[opcode, 0x34, 0x02]);
        cpu.reg.f = flags(zero, carry);
        cpu.reg.write_16(&Reg16::HL, 0xC100);
        step(&mut cpu);
        assert_eq!(cpu.reg.pc, target, "opcode {:#04X}", opcode);
    }
    for (opcode, zero, carry, returns) in [
        (0xC0u8, false, false, true),
        (0xC0, true, false, false),
        (0xC8, true, false, true),
        (0xD0, false, true, false),
        (0xD8, false, true, true),
        (0xC9, false, false, true),
    ] {
        let mut cpu = machine(&[opcode]);
        cpu.reg.f = flags(zero, carry);
        cpu.reg.sp = 0xD000;
        cpu.write(0xD000, 0x78);
        cpu.write(0xD001, 0x56);
        step(&mut cpu);
        assert_eq!(cpu.reg.pc, if returns { 0x5678 } else { 0x0151 });
        assert_eq!(cpu.reg.sp, if returns { 0xD002 } else { 0xD000 });
    }
}

#[test]
fn restarts_call_the_fixed_addresses() {
    for (opcode, target) in [
        (0xC7u8, 0x00u16),
        (0xCF, 0x08),
        (0xD7, 0x10),
        (0xDF, 0x18),
        (0xE7, 0x20),
        (0xEF, 0x28),
        (0xF7, 0x30),
        (0xFF, 0x38),
    ] {
        let mut cpu = machine(&[opcode]);
        step(&mut cpu);
        assert_eq!(cpu.reg.pc, target);
        assert_eq!(cpu.read_16(cpu.reg.sp), 0x0151);
    }
}

#[test]
fn arithmetic_on_registers_memory_and_immediates() {
    let mut cpu = machine(&[
        0x80, 0x96, 0xFE, 0x20, 0xC6, 0xE0, 0x3C, 0x35, 0x09, 0x03, 0x1B, 0x2F, 0x37, 0x3F, 0x07,
        0x27,
    ]);
    cpu.reg.a = 0x10;
    cpu.reg.b = 0x25;
    cpu.reg.write_16(&Reg16::HL, 0xC000);
    cpu.write(0xC000, 0x15);
    step(&mut cpu);
    assert_eq!(cpu.reg.a, 0x35);
    step(&mut cpu);
    assert_eq!(cpu.reg.a, 0x20);
    assert!(cpu.reg.f.subtract);
    step(&mut cpu);
    assert_eq!(cpu.reg.a, 0x20);
    assert!(cpu.reg.f.zero);
    step(&mut cpu);
    assert_eq!(cpu.reg.a, 0x00);
    assert!(cpu.reg.f.zero && cpu.reg.f.carry);
    step(&mut cpu);
    assert_eq!(cpu.reg.a, 0x01);
    assert!(cpu.reg.f.carry && !cpu.reg.f.zero);
    step(&mut cpu);
    assert_eq!(cpu.read(0xC000), 0x14);
    cpu.reg.write_16(&Reg16::BC, 0x4000);
    step(&mut cpu);
    assert_eq!(cpu.reg.read_16(&Reg16::HL), 0x0000);
    assert!(cpu.reg.f.carry);
    step(&mut cpu);
    assert_eq!(cpu.reg.read_16(&Reg16::BC), 0x4001);
    cpu.reg.write_16(&Reg16::DE, 0x0000);
    step(&mut cpu);
    assert_eq!(cpu.reg.read_16(&Reg16::DE), 0xFFFF);
    step(&mut cpu);
    assert_eq!(cpu.reg.a, 0xFE);
    assert!(cpu.reg.f.subtract && cpu.reg.f.half_carry);
    step(&mut cpu);
    assert!(cpu.reg.f.carry && !cpu.reg.f.subtract && !cpu.reg.f.half_carry);
    step(&mut cpu);
    assert!(!cpu.reg.f.carry);
    step(&mut cpu);
    assert_eq!(cpu.reg.a, 0xFD);
    assert!(cpu.reg.f.carry && !cpu.reg.f.zero);
    cpu.reg.a = 0x0A;
    cpu.reg.f = flags(false, false);
    step(&mut cpu);
    assert_eq!(cpu.reg.a, 0x10);
}

#[test]
fn stack_pointer_arithmetic() {
    let mut cpu = machine(&[0xE8, 0xFE, 0xF8, 0x02, 0x33, 0x3B]);
    cpu.reg.sp = 0xD000;
    step(&mut cpu);
    assert_eq!(cpu.reg.sp, 0xCFFE);
    assert!(!cpu.reg.f.zero && !cpu.reg.f.carry && !cpu.reg.f.half_carry);
    step(&mut cpu);
    assert_eq!(cpu.reg.read_16(&Reg16::HL), 0xD000);
    assert_eq!(cpu.reg.sp, 0xCFFE);
    assert!(cpu.reg.f.carry && cpu.reg.f.half_carry);
    step(&mut cpu);
    assert_eq!(cpu.reg.sp, 0xCFFF);
    step(&mut cpu);
    assert_eq!(cpu.reg.sp, 0xCFFE);
}

#[test]
fn prefixed_instructions_work_on_registers_and_memory() {
    let mut cpu = machine(&[
        0xCB, 0x37, 0xCB, 0x7F, 0xCB, 0xC6, 0xCB, 0x86, 0xCB, 0x46, 0xCB, 0x11, 0xCB, 0x3E,
    ]);
    cpu.reg.a = 0xF0;
    cpu.reg.write_16(&Reg16::HL, 0xC000);
    step(&mut cpu);
    assert_eq!(cpu.reg.a, 0x0F);
    step(&mut cpu);
    assert!(cpu.reg.f.zero && cpu.reg.f.half_carry);
    step(&mut cpu);
    assert_eq!(cpu.read(0xC000), 0x01);
    step(&mut cpu);
    assert_eq!(cpu.read(0xC000), 0x00);
    step(&mut cpu);
    assert!(cpu.reg.f.zero);
    cpu.reg.c = 0x80;
    cpu.reg.f = flags(false, true);
    step(&mut cpu);
    assert_eq!(cpu.reg.c, 0x01);
    assert!(cpu.reg.f.carry);
    cpu.write(0xC000, 0x81);
    step(&mut cpu);
    assert_eq!(cpu.read(0xC000), 0x40);
    assert!(cpu.reg.f.carry);
    assert_eq!(cpu.reg.pc, 0x015E);
}

#[test]
fn stop_skips_its_second_byte() {
    let mut cpu = machine(&[0x10, 0x00, 0x3C]);
    cpu.reg.a = 0;
    assert_eq!(step(&mut cpu), 1);
    assert_eq!(cpu.reg.pc, 0x0152);
    step(&mut cpu);
    assert_eq!(cpu.reg.a, 1);
}

#[test]
fn the_bus_routes_every_region() {
    let mut cpu = machine(&[]);
    for (address, value) in [
        (0x8000u16, 0x11u8),
        (0x9FFF, 0x12),
        (0xC000, 0x13),
        (0xDFFF, 0x14),
        (0xE000, 0x15),
        (0xFDFF, 0x16),
        (0xFE00, 0x17),
        (0xFE9F, 0x18),
        (0xFF80, 0x19),
        (0xFFFE, 0x1A),
        (0xFF42, 0x1B),
        (0xFF06, 0x1C),
        (0xFF30, 0x1D),
        (0xFFFF, 0x1E),
    ] {
        cpu.write(address, value);
        assert_eq!(cpu.read(address), value, "address {:#06X}", address);
    }
    assert_eq!(cpu.read(0xC000), 0x15);
    assert_eq!(cpu.read(0xDDFF), 0x16);
    assert_eq!(cpu.read(0x0100), 0x00);
    assert_eq!(cpu.read(0x0101), 0xC3);
    cpu.write(0x0101, 0xFF);
    assert_eq!(cpu.read(0x0101), 0xC3);
    assert_eq!(cpu.read_16(0x0102), 0x0150);
    assert_eq!(cpu.read_16(0xFFFF), 0x001E);
}

#[test]
fn addresses_that_nothing_owns_read_ff() {
    let mut cpu = machine(&[]);
    for address in [0xFEA0u16, 0xFEFF, 0xFF01, 0xFF02, 0xFF03, 0xFF08, 0xFF0E, 0xFF4C, 0xFF7F] {
        cpu.write(address, 0x12);
        assert_eq!(cpu.read(address), 0xFF, "address {:#06X}", address);
    }
    assert_eq!(cpu.read(0xA000), 0x00);
}

#[test]
fn div_reads_zero_after_a_write_over_the_bus() {
    let mut cpu = machine(&[0x00; 0x100]);
    assert_eq!(cpu.run(100), Ok(()));
    assert_eq!(cpu.read(0xFF04), 1);
    for value in [0x00u8, 0x5A, 0xFF] {
        cpu.write(0xFF04, value);
        assert_eq!(cpu.read(0xFF04), 0);
        assert_eq!(cpu.timer.div, 0);
        assert_eq!(cpu.run(10), Ok(()));
    }
}

#[test]
fn the_timer_interrupt_reaches_if() {
    let mut cpu = machine(&[0x00; 0x40]);
    cpu.write(0xFF06, 0xFE);
    cpu.write(0xFF05, 0xFE);
    cpu.write(0xFF07, 0x05);
    assert_eq!(cpu.read(0xFF0F) & INT_TIMER, 0);
    assert_eq!(cpu.run(8), Ok(()));
    assert_eq!(cpu.read(0xFF05), 0x00);
    assert_eq!(cpu.read(0xFF0F) & INT_TIMER, 0);
    assert_eq!(cpu.run(1), Ok(()));
    assert_eq!(cpu.read(0xFF05), 0xFE);
    assert_eq!(cpu.read(0xFF0F) & INT_TIMER, INT_TIMER);
    assert_eq!(cpu.run(7), Ok(()));
    assert_eq!(cpu.timer.div, 64);
    assert_eq!(cpu.read(0xFF0F) & INT_TIMER, INT_TIMER);
}

#[test]
fn the_ppu_interrupts_reach_if() {
    let mut cpu = machine(&[0x00; 0x100]);
    cpu.write(0xFF41, 0x08);
    assert_eq!(cpu.run(62), Ok(()));
    assert_eq!(cpu.read(0xFF0F), 0);
    assert_eq!(cpu.run(3), Ok(()));
    assert_eq!(cpu.read(0xFF0F), INT_LCD);
    cpu.write(0xFF0F, 0);
    cpu.write(0xFF41, 0x00);
    assert_eq!(cpu.run(144 * 114), Ok(()));
    assert_eq!(cpu.read(0xFF0F), INT_VBLANK);
    assert_eq!(cpu.ppu.mode, PPUMode::VBlank);
}

#[test]
fn execute_reports_the_step_into_vblank() {
    let mut cpu = machine(&[0x18, 0xFE]);
    let mut entered = 0;
    let mut steps = 0u32;
    while cpu.frame_counter < 2 {
        match cpu.execute() {
            Ok(true) => {
                entered += 1;
                assert_eq!(cpu.ppu.mode, PPUMode::VBlank);
            }
            Ok(false) => {}
            Err(error) => panic!("stopped: {:?}", error),
        }
        steps += 1;
    }
    assert_eq!(entered, 2);
    assert!(steps > 10000);
}

#[test]
fn the_frame_counter_counts_completed_frames() {
    let mut cpu = machine(&[0x18, 0xFE]);
    assert_eq!(cpu.run(144 * 114 - 3), Ok(()));
    assert_eq!(cpu.frame_counter, 0);
    assert_eq!(cpu.run(6), Ok(()));
    assert_eq!(cpu.frame_counter, 1);
    assert_eq!(cpu.run(154 * 114), Ok(()));
    assert_eq!(cpu.frame_counter, 2);
    cpu.frame_counter = 255;
    assert_eq!(cpu.run(154 * 114), Ok(()));
    assert_eq!(cpu.frame_counter, 0);
}

#[test]
fn a_frame_of_one_tile_is_shown_after_one_frame() {
    let mut cpu = machine(&[0x18, 0xFE]);
    cpu.write(0xFF40, 0x91);
    cpu.write(0xFF47, 0xE4);
    for address in 0x9800..0x9C00u16 {
        cpu.write(address, 0x01);
    }
    for address in 0x8010..0x8020u16 {
        cpu.write(address, 0xFF);
    }
    assert_eq!(cpu.run(154 * 114), Ok(()));
    assert_eq!(cpu.frame_counter, 1);
    let frame = cpu.get_display_buffer();
    for y in 0..144 {
        for x in 0..160 {
            assert_eq!((frame[y * 10 + x / 16] >> ((x % 16) * 2)) & 3, 3);
        }
    }
}

#[test]
fn oam_dma_copies_a_page_into_the_sprite_table() {
    let mut cpu = machine(&[0x00, 0x00]);
    for offset in 0..0xA0u16 {
        cpu.write(0xC100 + offset, offset as u8 ^ 0x5A);
    }
    cpu.write(0xFF46, 0xC1);
    assert!(cpu.ppu.oam_dma_request);
    assert_eq!(cpu.read(0xFE00), 0);
    step(&mut cpu);
    assert!(!cpu.ppu.oam_dma_request);
    for offset in 0..0xA0u16 {
        assert_eq!(cpu.read(0xFE00 + offset), offset as u8 ^ 0x5A);
    }
    assert_eq!(cpu.ppu.oam.sprites[1].x, 5 ^ 0x5A);
    cpu.oam_dma(0x01);
    assert_eq!(cpu.read(0xFE00), 0x00);
    assert_eq!(cpu.read(0xFE01), 0xC3);
    assert_eq!(cpu.read(0xFE02), 0x50);
}

#[test]
fn a_button_press_raises_the_joypad_interrupt() {
    let mut cpu = machine(&[]);
    cpu.update_input(&InputFlag::from_bits_truncate(0xFE));
    assert_eq!(cpu.read(0xFF0F), 0);
    cpu.update_input(&InputFlag::from_bits_truncate(0xFF));
    cpu.write(0xFF00, 0x20);
    assert_eq!(cpu.read(0xFF00), 0x1F);
    cpu.update_input(&InputFlag::from_bits_truncate(0xFE));
    assert_eq!(cpu.read(0xFF0F), INT_JOYPAD);
    assert_eq!(cpu.read(0xFF00), 0x1E);
    cpu.write(0xFF0F, 0);
    cpu.update_input(&InputFlag::from_bits_truncate(0xFC));
    assert_eq!(cpu.read(0xFF0F), INT_JOYPAD);
    cpu.write(0xFF0F, 0);
    cpu.update_input(&InputFlag::from_bits_truncate(0xFF));
    assert_eq!(cpu.read(0xFF0F), 0);
}

fn program_a_square_wave(cpu: &mut CPU) {
    cpu.write(0xFF26, 0x80);
    cpu.write(0xFF25, 0x22);
    cpu.write(0xFF24, 0x77);
    cpu.write(0xFF16, 0x80);
    cpu.write(0xFF17, 0xF0);
    cpu.write(0xFF18, 0xD6);
    cpu.write(0xFF19, 0x86);
}

fn drain(consumer: &mut AudioBufferConsumer) -> Vec<AudioFrame> {
    let mut frames = Vec::new();
    while let Some(frame) = consumer.ring.try_pop() {
        frames.push(frame);
    }
    frames
}

/// A sample rate at which a frame is due every 96 T-cycles, that is every
/// 24 machine cycles.
const RATE_OF_24_CYCLES: u32 = 43690;

#[test]
fn no_sound_is_made_before_the_host_asks() {
    let mut cpu = machine(&[0x18, 0xFE]);
    cpu.set_audio_sample_rate(44100);
    assert_eq!(cpu.run(1000), Ok(()));
    assert!(cpu.audio.is_empty());
    assert!(cpu.audio_ring.is_none());
    cpu.flush_audio();
    assert!(cpu.audio.is_empty());
}

#[test]
fn sound_reaches_the_ring_at_the_end_of_a_run() {
    let mut cpu = machine(&[0x18, 0xFE]);
    let mut consumer = cpu.init_audio_buffer(16, 2);
    cpu.set_audio_sample_rate(RATE_OF_24_CYCLES);
    assert_eq!(cpu.apu.sample_delay, 96);
    assert!(cpu.audio_ring.is_some());
    assert!(drain(&mut consumer).is_empty());
    assert_eq!(cpu.run(24 * 5), Ok(()));
    assert!(cpu.audio.is_empty());
    let frames = drain(&mut consumer);
    assert_eq!(frames.len(), 5);
    assert!(frames.iter().all(|frame| *frame == AudioFrame::Silence));
    program_a_square_wave(&mut cpu);
    assert_eq!(cpu.run(24 * 8), Ok(()));
    let frames = drain(&mut consumer);
    assert_eq!(frames.len(), 8);
    for frame in frames {
        match frame {
            AudioFrame::Mix { left, right } => {
                assert_eq!(left, right);
                assert!(left == 120 || left == -120);
            }
            AudioFrame::Silence => panic!("silence"),
        }
    }
}

#[test]
fn frames_are_offered_in_the_order_they_were_made() {
    let mut cpu = machine(&[0x18, 0xFE]);
    let mut consumer = cpu.init_audio_buffer(4096, 1);
    cpu.set_audio_sample_rate(44100);
    program_a_square_wave(&mut cpu);
    let mut expected = Vec::new();
    for _ in 0..3000 {
        match cpu.execute() {
            Ok(_) => {}
            Err(error) => panic!("stopped: {:?}", error),
        }
        expected.extend(cpu.audio.iter().copied());
        cpu.flush_audio();
        assert!(cpu.audio.is_empty());
    }
    assert_eq!(expected.len(), 3000 * 3 * 4 / 95);
    assert!(expected.contains(&AudioFrame::Mix { left: 120, right: 120 }));
    assert!(expected.contains(&AudioFrame::Mix { left: -120, right: -120 }));
    assert_eq!(drain(&mut consumer), expected);
}

#[test]
fn the_queue_keeps_every_frame_until_it_is_offered() {
    let mut cpu = machine(&[0x00; 0x1000]);
    let mut consumer = cpu.init_audio_buffer(16, 1);
    cpu.set_audio_sample_rate(RATE_OF_24_CYCLES);
    for _ in 0..24 * 50 {
        assert_eq!(cpu.execute(), Ok(false));
    }
    program_a_square_wave(&mut cpu);
    for _ in 0..24 * 50 {
        assert_eq!(cpu.execute(), Ok(false));
    }
    assert_eq!(cpu.audio.len(), 100);
    assert!(cpu.audio[..50].iter().all(|frame| *frame == AudioFrame::Silence));
    assert!(cpu.audio[50..].iter().all(|frame| *frame != AudioFrame::Silence));
    assert!(drain(&mut consumer).is_empty());
    cpu.flush_audio();
    assert!(cpu.audio.is_empty());
    assert_eq!(drain(&mut consumer), vec![AudioFrame::Silence; 16]);
}

#[test]
fn only_the_ring_drops_frames() {
    let mut cpu = machine(&[0x18, 0xFE]);
    let mut consumer = cpu.init_audio_buffer(16, 2);
    cpu.set_audio_sample_rate(RATE_OF_24_CYCLES);
    assert_eq!(cpu.run(24 * 100), Ok(()));
    assert!(cpu.audio.is_empty());
    assert_eq!(drain(&mut consumer).len(), 8);
}

#[test]
fn a_full_ring_drops_what_it_is_offered() {
    let mut cpu = machine(&[0x18, 0xFE]);
    let mut consumer = cpu.init_audio_buffer(8, 2);
    cpu.set_audio_sample_rate(RATE_OF_24_CYCLES);
    assert_eq!(cpu.run(24 * 4), Ok(()));
    program_a_square_wave(&mut cpu);
    assert_eq!(cpu.run(24 * 4), Ok(()));
    assert!(cpu.audio.is_empty());
    let frames = drain(&mut consumer);
    assert_eq!(frames, vec![AudioFrame::Silence; 4]);
    assert_eq!(cpu.run(24 * 2), Ok(()));
    let frames = drain(&mut consumer);
    assert_eq!(frames.len(), 2);
    assert!(frames.iter().all(|frame| *frame != AudioFrame::Silence));
}

#[test]
fn a_new_ring_replaces_the_old_one() {
    let mut cpu = machine(&[0x18, 0xFE]);
    let mut first = cpu.init_audio_buffer(64, 2);
    cpu.set_audio_sample_rate(RATE_OF_24_CYCLES);
    assert_eq!(cpu.run(24 * 3), Ok(()));
    let mut second = cpu.init_audio_buffer(2, 1);
    assert_eq!(cpu.apu.channels, 1);
    assert_eq!(cpu.apu.sample_capacity, 2);
    assert_eq!(cpu.run(24 * 10), Ok(()));
    assert_eq!(drain(&mut first).len(), 3);
    assert_eq!(drain(&mut second).len(), 2);
}

#[test]
fn the_ring_has_room_for_a_frame_that_is_begun() {
    for (sample_capacity, channels, frames) in
        [(1usize, 2usize, 1usize), (2, 2, 1), (3, 2, 2), (1, 1, 1), (5, 1, 5), (7, 2, 4)]
    {
        let mut cpu = machine(&[0x18, 0xFE]);
        let mut consumer = cpu.init_audio_buffer(sample_capacity, channels);
        cpu.set_audio_sample_rate(RATE_OF_24_CYCLES);
        assert_eq!(cpu.run(24 * 10), Ok(()));
        assert_eq!(drain(&mut consumer).len(), frames);
    }
}

#[test]
fn a_press_raises_the_interrupt_with_both_rows_selected() {
    let mut cpu = machine(&[]);
    cpu.write(0xFF00, 0x00);
    assert!(cpu.input.select_button && cpu.input.select_dpad);
    cpu.update_input(&InputFlag::from_bits_truncate(0xFE));
    assert_eq!(cpu.read(0xFF0F), INT_JOYPAD);
    cpu.write(0xFF0F, 0);
    cpu.update_input(&InputFlag::from_bits_truncate(0x7E));
    assert_eq!(cpu.read(0xFF0F), INT_JOYPAD);
    cpu.write(0xFF0F, 0);
    cpu.update_input(&InputFlag::from_bits_truncate(0xFF));
    assert_eq!(cpu.read(0xFF0F), 0);
}

#[test]
fn cartridge_ram_is_saved_and_restored() {
    let mut rom = image(&[]);
    rom[0x147] = 0x03;
    rom[0x149] = 0x02;
    let mut cpu = match CPU::new(rom.clone()) {
        Ok(cpu) => cpu,
        Err(_) => panic!("refused"),
    };
    assert_eq!(cpu.get_ram(), vec![0u8; 0x2000]);
    cpu.write(0x0000, 0x0A);
    cpu.write(0xA000, 0x42);
    cpu.write(0xBFFF, 0x24);
    let saved = cpu.get_ram();
    assert_eq!(saved[0], 0x42);
    assert_eq!(saved[0x1FFF], 0x24);
    let mut other = match CPU::new(rom) {
        Ok(cpu) => cpu,
        Err(_) => panic!("refused"),
    };
    other.set_ram(saved.clone());
    assert_eq!(other.get_ram(), saved);
    other.write(0x0000, 0x0A);
    assert_eq!(other.read(0xA000), 0x42);
    other.set_ram(other.get_ram());
    assert_eq!(other.get_ram(), saved);
    other.set_ram(vec![1, 2, 3]);
    assert_eq!(other.get_ram().len(), 0x2000);
    assert_eq!(&other.get_ram()[..4], &[1, 2, 3, 0]);
}

#[test]
fn a_save_state_keeps_everything_but_rom_and_sound_settings() {
    let mut rom = image(&[0x3E, 0x42, 0xEA, 0x00, 0xC0, 0x18, 0xFE]);
    rom[0x147] = 0x03;
    rom[0x149] = 0x02;
    let mut cpu = match CPU::new(rom.clone()) {
        Ok(cpu) => cpu,
        Err(_) => panic!("refused"),
    };
    let mut consumer = cpu.init_audio_buffer(64, 2);
    cpu.set_audio_sample_rate(44100);
    cpu.write(0xFF40, 0x91);
    cpu.write(0xFF47, 0xE4);
    cpu.write(0x8000, 0xFF);
    cpu.write(0x0000, 0x0A);
    cpu.write(0xA123, 0x77);
    cpu.write(0xFE04, 0x33);
    cpu.write(0xFF30, 0x5A);
    assert_eq!(cpu.run(154 * 114 + 100), Ok(()));
    for _ in 0..50 {
        assert_eq!(cpu.execute(), Ok(false));
    }
    assert!(!cpu.audio.is_empty());
    let queued = cpu.audio.clone();
    let shown = *cpu.get_display_buffer();
    assert_ne!(shown, [0u32; 1440]);

    let mut saved = cpu.snapshot();
    assert_eq!(cpu.audio, queued);
    assert!(cpu.audio_ring.is_some());
    assert_eq!(*cpu.get_display_buffer(), shown);
    assert_eq!(cpu.apu.sample_delay, 95);

    assert!(saved.mem.mbc.rom.is_empty());
    assert!(saved.audio.is_empty());
    assert!(saved.audio_ring.is_none());
    assert_eq!(saved.apu.sample_delay, 0);
    assert_eq!(saved.apu.channels, 0);
    assert_eq!(saved.apu.sample_capacity, 0);
    assert!(!saved.apu.buffer_ready);
    assert_eq!(saved.apu.sample_delay_counter, cpu.apu.sample_delay_counter);
    assert_eq!(saved.apu.wave_channel.wave_ram[0], 0x5A);
    assert_eq!(saved.reg, cpu.reg);
    assert_eq!(saved.timer, cpu.timer);
    assert_eq!(saved.istate, cpu.istate);
    assert_eq!(saved.halt, cpu.halt);
    assert_eq!(saved.frame_counter, cpu.frame_counter);
    assert_eq!(saved.cycle_counter, cpu.cycle_counter);
    assert_eq!(*saved.get_display_buffer(), shown);
    assert_eq!(saved.get_ram(), cpu.get_ram());
    assert_eq!(saved.mem.info.title, cpu.mem.info.title);
    assert_eq!(saved.mem.wram[..], cpu.mem.wram[..]);
    assert_eq!(saved.ppu.vram[..], cpu.ppu.vram[..]);
    assert_eq!(saved.read(0xFE04), 0x33);
    assert_eq!((saved.ppu.lx, saved.ppu.ly), (cpu.ppu.lx, cpu.ppu.ly));

    saved.set_rom(rom);
    let mut other = saved.init_audio_buffer(64, 2);
    saved.set_audio_sample_rate(44100);
    let again = saved.snapshot();
    assert_eq!(again.reg, cpu.reg);
    assert_eq!(again.apu.sample_delay, 0);
    assert!(again.mem.mbc.rom.is_empty());
    assert_eq!(again.get_ram(), cpu.get_ram());
    assert_eq!(*again.get_display_buffer(), shown);

    cpu.flush_audio();
    drain(&mut consumer);
    for _ in 0..5000 {
        assert_eq!(cpu.execute(), saved.execute());
        assert_eq!(cpu.reg, saved.reg);
    }
    assert_eq!(cpu.timer, saved.timer);
    assert_eq!(cpu.frame_counter, saved.frame_counter);
    assert_eq!(cpu.read(0xC000), 0x42);
    assert_eq!(saved.read(0xC000), 0x42);
    assert_eq!(*cpu.get_display_buffer(), *saved.get_display_buffer());
    cpu.flush_audio();
    saved.flush_audio();
    assert_eq!(drain(&mut consumer), drain(&mut other));
}

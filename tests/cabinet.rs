use invaders8080::cpu::{CPUState, InterruptEnable};
use invaders8080::input::{key_binding, key_event, Key};
use invaders8080::interrupts::{handle_interrupts, in_space_invaders, out_space_invaders};
use invaders8080::invaders::{emulate_invaders, half_step, Machine, RomError};
use invaders8080::video::{half_columns, overlay_color, pixel_on, OverlayColor};

fn machine_with(program: &[u8]) -> Machine {
    let mut m = Machine::new();
    let rom = program.to_vec();
    assert_eq!(m.load_rom(&rom, 0), Ok(()));
    m
}

#[test]
fn shift_register_read() {
    for k in 0..8u8 {
        for (v1, v2) in [(0x12u8, 0x34u8), (0xff, 0x00), (0x80, 0x01), (0xa5, 0x5a)] {
            let program = [0x3e, v1, 0xd3, 0x04, 0x3e, v2, 0xd3, 0x04, 0x3e, k, 0xd3, 0x02, 0xdb, 0x03];
            let mut m = machine_with(&program);
            for _ in 0..7 {
                emulate_invaders(&mut m);
            }
            let w = ((v2 as u16) << 8) | v1 as u16;
            assert_eq!(m.cpu.a, ((w >> (8 - k)) & 0xff) as u8);
            assert_eq!(m.cpu.pc, 14);
        }
    }
}

#[test]
fn input_ports() {
    let mut m = Machine::new();
    assert_eq!(in_space_invaders(&mut m, 0), 0x0e);
    assert_eq!(m.cpu.a, 0x0e);
    assert_eq!((m.cpu.pc, m.cpu.cycles), (2, 10));
    assert_eq!(in_space_invaders(&mut m, 1), 0x08);
    m.in_port2 = 0x03;
    assert_eq!(in_space_invaders(&mut m, 2), 0x03);
    assert_eq!(in_space_invaders(&mut m, 7), 0);
    assert_eq!(m.cpu.pc, 8);
}

#[test]
fn output_ports() {
    let mut m = Machine::new();
    m.cpu.a = 0xfd;
    out_space_invaders(&mut m, 2);
    assert_eq!(m.shift_offset, 5);
    assert_eq!((m.cpu.pc, m.cpu.cycles), (2, 10));
    out_space_invaders(&mut m, 3);
    assert_eq!(m.out_port3, 0xfd);
    out_space_invaders(&mut m, 5);
    assert_eq!(m.out_port5, 0xfd);
    out_space_invaders(&mut m, 4);
    assert_eq!((m.shift0, m.shift1), (0, 0xfd));
    out_space_invaders(&mut m, 6);
    assert_eq!((m.shift0, m.shift1, m.shift_offset), (0, 0xfd, 5));
    assert_eq!(m.cpu.pc, 10);
    assert_eq!(m.cpu.a, 0xfd);
}

#[test]
fn out_settles_pending_latch() {
    let mut m = Machine::new();
    m.cpu.int_enable = InterruptEnable::Pending;
    out_space_invaders(&mut m, 6);
    assert_eq!(m.cpu.int_enable, InterruptEnable::Enabled);
}

#[test]
fn shift_register_through_handlers() {
    let mut m = Machine::new();
    m.cpu.a = 0x12;
    out_space_invaders(&mut m, 4);
    m.cpu.a = 0x34;
    out_space_invaders(&mut m, 4);
    m.cpu.a = 3;
    out_space_invaders(&mut m, 2);
    let pc = m.cpu.pc;
    let v = in_space_invaders(&mut m, 3);
    assert_eq!(v, ((0x3412u16 >> 5) & 0xff) as u8);
    assert_eq!(m.cpu.a, v);
    assert_eq!(m.cpu.pc, pc + 2);
}

#[test]
fn in_instruction_reads_port() {
    let mut m = machine_with(&[0xdb, 0x01]);
    m.in_port1 = 0x19;
    emulate_invaders(&mut m);
    assert_eq!(m.cpu.a, 0x19);
    assert_eq!(m.cpu.pc, 2);
    assert_eq!(m.cpu.cycles, 10);
}

#[test]
fn keys_set_and_clear_bits() {
    let mut m = Machine::new();
    key_event(&mut m, Key::Coin, true);
    assert_eq!(m.in_port1, 0x09);
    key_event(&mut m, Key::P1Left, true);
    assert_eq!(m.in_port1, 0x29);
    key_event(&mut m, Key::P2Fire, true);
    assert_eq!(m.in_port2, 0x10);
    key_event(&mut m, Key::Coin, false);
    assert_eq!(m.in_port1, 0x28);
    key_event(&mut m, Key::P2Fire, false);
    assert_eq!(m.in_port2, 0x00);
    assert_eq!(key_binding(Key::P1Right), (1, 0x40));
    assert_eq!(key_binding(Key::P2Start), (1, 0x02));
}

#[test]
fn load_rom_rejects_oversize() {
    let mut m = Machine::new();
    let rom = vec![0xaau8; 0x10000];
    assert_eq!(m.load_rom(&rom, 1), Err(RomError::TooLarge));
    assert_eq!(m.cpu.memory[1], 0);
    assert_eq!(m.load_rom(&rom, 0), Ok(()));
    assert_eq!(m.cpu.memory[0xffff], 0xaa);
}

#[test]
fn load_rom_at_offset() {
    let mut m = Machine::new();
    let rom = vec![1u8, 2, 3];
    assert_eq!(m.load_rom(&rom, 0x100), Ok(()));
    assert_eq!(&m.cpu.memory[0xff..0x104], &[0, 1, 2, 3, 0]);
}

#[test]
fn load_memory_copies_to_zero() {
    let mut cpu = CPUState::new();
    let rom = vec![9u8, 8, 7];
    cpu.load_memory(&rom, 3);
    assert_eq!(&cpu.memory[0..4], &[9, 8, 7, 0]);
    assert_eq!(cpu.memory.len(), 0x10000);
}

#[test]
fn half_steps_raise_both_interrupts() {
    let mut m = machine_with(&[0xfb, 0xc3, 0x01, 0x00]);
    m.cpu.memory[0x08] = 0xfb;
    m.cpu.memory[0x09] = 0xc3;
    m.cpu.memory[0x0a] = 0x09;
    m.cpu.memory[0x0b] = 0x00;
    half_step(&mut m, true);
    assert_eq!(m.cpu.pc, 0x08);
    assert_eq!(m.cpu.sp, 0xeffe);
    assert_eq!(m.cpu.memory[0xefff], 0x00);
    assert_eq!(m.cpu.memory[0xeffe], 0x01);
    assert_eq!(m.cpu.int_enable, InterruptEnable::Disabled);
    half_step(&mut m, false);
    assert_eq!(m.cpu.pc, 0x10);
    assert_eq!(m.cpu.sp, 0xeffc);
    assert_eq!(m.cpu.memory[0xeffc], 0x09);
}

#[test]
fn half_step_without_interrupts() {
    let mut m = machine_with(&[0xc3, 0x00, 0x00]);
    half_step(&mut m, true);
    assert_eq!(m.cpu.pc, 0);
    assert_eq!(m.cpu.sp, 0xf000);
}

#[test]
fn video_pixels() {
    let mut cpu = CPUState::new();
    cpu.memory[0x2400] = 0x01;
    cpu.memory[0x2400 + 63] = 0x80;
    assert!(pixel_on(&cpu, 0, 255));
    assert!(!pixel_on(&cpu, 0, 254));
    assert!(pixel_on(&cpu, 1, 0));
    assert!(!pixel_on(&cpu, 1, 1));
    assert_eq!(half_columns(true), (0, 112));
    assert_eq!(half_columns(false), (112, 224));
}

#[test]
fn overlay_colors() {
    assert_eq!(overlay_color(10, 50), OverlayColor::Red);
    assert_eq!(overlay_color(10, 200), OverlayColor::Green);
    assert_eq!(overlay_color(20, 250), OverlayColor::Green);
    assert_eq!(overlay_color(200, 250), OverlayColor::White);
    assert_eq!(overlay_color(10, 10), OverlayColor::White);
    assert_eq!(overlay_color(10, 32), OverlayColor::White);
}

#[test]
fn handle_interrupts_ignores_other_opcodes() {
    let mut m = machine_with(&[0x00, 0x04]);
    m.cpu.cycles = 3;
    handle_interrupts(&mut m);
    assert_eq!(m.cpu.pc, 0);
    assert_eq!(m.cpu.cycles, 3);
    assert_eq!(m.cpu.b, 0);
}

#[test]
fn handle_interrupts_runs_out() {
    let mut m = machine_with(&[0xd3, 0x04]);
    m.cpu.a = 0x5a;
    handle_interrupts(&mut m);
    assert_eq!(m.shift1, 0x5a);
    assert_eq!(m.cpu.pc, 2);
    assert_eq!(m.cpu.cycles, 10);
}

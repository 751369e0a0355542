use invaders8080::condition_codes::Flags;
use invaders8080::cpu::{emulate_8080_op, instruction_cycles, CPUState, InterruptEnable};
use invaders8080::helpers::{generate_interrupt, parity, psw_byte, set_psw};

fn cpu_with(program: &[u8], at: u16) -> CPUState {
    let mut cpu = CPUState::new();
    for (i, b) in program.iter().enumerate() {
        cpu.memory[at as usize + i] = *b;
    }
    cpu.pc = at;
    cpu
}

fn run(cpu: &mut CPUState, n: usize) {
    for _ in 0..n {
        let spent = emulate_8080_op(cpu);
        assert_eq!(spent, cpu.cycles);
    }
}

#[test]
fn scenario_add_register() {
    let mut cpu = cpu_with(&[0x80], 0);
    cpu.a = 0x3a;
    cpu.b = 0xc6;
    run(&mut cpu, 1);
    assert_eq!(cpu.a, 0x00);
    assert!(cpu.cc.z);
    assert!(cpu.cc.cy);
    assert!(cpu.cc.p);
    assert!(!cpu.cc.s);
    assert!(cpu.cc.ac);
    assert_eq!(cpu.pc, 1);
    assert_eq!(cpu.cycles, 4);
}

#[test]
fn scenario_sui_equal() {
    let mut cpu = cpu_with(&[0xd6, 0x3e], 0);
    cpu.a = 0x3e;
    run(&mut cpu, 1);
    assert_eq!(cpu.a, 0x00);
    assert!(cpu.cc.z);
    assert!(!cpu.cc.cy);
    assert!(!cpu.cc.s);
    assert!(cpu.cc.p);
    assert!(cpu.cc.ac);
    assert_eq!(cpu.pc, 2);
    assert_eq!(cpu.cycles, 7);
}

#[test]
fn scenario_daa() {
    let mut cpu = cpu_with(&[0x27], 0);
    cpu.a = 0x9b;
    run(&mut cpu, 1);
    assert_eq!(cpu.a, 0x01);
    assert!(cpu.cc.cy);
    assert!(cpu.cc.ac);
}

#[test]
fn scenario_rlc() {
    let mut cpu = cpu_with(&[0x07], 0);
    cpu.a = 0xf2;
    run(&mut cpu, 1);
    assert_eq!(cpu.a, 0xe5);
    assert!(cpu.cc.cy);
}

#[test]
fn scenario_call_ret() {
    let mut cpu = cpu_with(&[0xcd, 0x34, 0x12], 0x0100);
    cpu.memory[0x1234] = 0xc9;
    cpu.sp = 0x2400;
    run(&mut cpu, 1);
    assert_eq!(cpu.sp, 0x23fe);
    assert_eq!(cpu.memory[0x23fe], 0x03);
    assert_eq!(cpu.memory[0x23ff], 0x01);
    assert_eq!(cpu.pc, 0x1234);
    assert_eq!(cpu.cycles, 17);
    run(&mut cpu, 1);
    assert_eq!(cpu.sp, 0x2400);
    assert_eq!(cpu.pc, 0x0103);
    assert_eq!(cpu.cycles, 10);
}

#[test]
fn scenario_jz_not_taken() {
    let mut cpu = cpu_with(&[0xca, 0x00, 0x10], 0x0050);
    cpu.sp = 0x2400;
    run(&mut cpu, 1);
    assert_eq!(cpu.pc, 0x0053);
    assert_eq!(cpu.sp, 0x2400);
    assert_eq!(cpu.memory[0x23ff], 0);
    assert_eq!(cpu.memory[0x23fe], 0);
}

#[test]
fn jz_taken() {
    let mut cpu = cpu_with(&[0xca, 0x00, 0x10], 0x0050);
    cpu.cc.z = true;
    run(&mut cpu, 1);
    assert_eq!(cpu.pc, 0x1000);
    assert_eq!(cpu.cycles, 10);
}

#[test]
fn adc_carries_through_ff() {
    let mut cpu = cpu_with(&[0x88], 0);
    cpu.a = 0xff;
    cpu.b = 0x00;
    cpu.cc.cy = true;
    run(&mut cpu, 1);
    assert_eq!(cpu.a, 0x00);
    assert!(cpu.cc.cy);
    assert!(cpu.cc.z);
    assert!(cpu.cc.ac);
}

#[test]
fn add_memory_operand() {
    let mut cpu = cpu_with(&[0x86], 0);
    cpu.h = 0x20;
    cpu.l = 0x10;
    cpu.memory[0x2010] = 0x05;
    cpu.a = 0x01;
    run(&mut cpu, 1);
    assert_eq!(cpu.a, 0x06);
    assert!(!cpu.cc.z);
    assert!(cpu.cc.p);
    assert_eq!(cpu.cycles, 7);
}

#[test]
fn sub_borrow_flags() {
    let mut cpu = cpu_with(&[0x90], 0);
    cpu.a = 0x00;
    cpu.b = 0x01;
    run(&mut cpu, 1);
    assert_eq!(cpu.a, 0xff);
    assert!(cpu.cc.cy);
    assert!(cpu.cc.s);
    assert!(cpu.cc.p);
    assert!(!cpu.cc.z);
    assert!(!cpu.cc.ac);
}

#[test]
fn sbb_with_borrow_in() {
    let mut cpu = cpu_with(&[0x98], 0);
    cpu.a = 0x00;
    cpu.b = 0xff;
    cpu.cc.cy = true;
    run(&mut cpu, 1);
    assert_eq!(cpu.a, 0x00);
    assert!(cpu.cc.cy);
    assert!(cpu.cc.z);
}

#[test]
fn inr_keeps_carry_sets_aux() {
    let mut cpu = cpu_with(&[0x04], 0);
    cpu.b = 0x0f;
    cpu.cc.cy = true;
    run(&mut cpu, 1);
    assert_eq!(cpu.b, 0x10);
    assert!(cpu.cc.ac);
    assert!(cpu.cc.cy);
    assert!(!cpu.cc.z);
    assert!(!cpu.cc.p);
    assert_eq!(cpu.cycles, 5);
}

#[test]
fn dcr_wraps_below_zero() {
    let mut cpu = cpu_with(&[0x0d, 0x0d], 0);
    cpu.c = 0x00;
    run(&mut cpu, 1);
    assert_eq!(cpu.c, 0xff);
    assert!(cpu.cc.s);
    assert!(cpu.cc.p);
    assert!(!cpu.cc.ac);
    assert!(!cpu.cc.cy);
    run(&mut cpu, 1);
    assert_eq!(cpu.c, 0xfe);
    assert!(cpu.cc.ac);
}

#[test]
fn inr_dcr_memory() {
    let mut cpu = cpu_with(&[0x34, 0x35, 0x35], 0);
    cpu.h = 0x30;
    cpu.l = 0x00;
    cpu.memory[0x3000] = 0xff;
    run(&mut cpu, 1);
    assert_eq!(cpu.memory[0x3000], 0x00);
    assert!(cpu.cc.z);
    assert_eq!(cpu.cycles, 10);
    run(&mut cpu, 2);
    assert_eq!(cpu.memory[0x3000], 0xfe);
    assert_eq!(cpu.pc, 3);
}

#[test]
fn logic_ops_flags() {
    let mut cpu = cpu_with(&[0xa0, 0xaf, 0xb1], 0);
    cpu.a = 0x0c;
    cpu.b = 0x03;
    cpu.c = 0x81;
    cpu.cc.cy = true;
    run(&mut cpu, 1);
    assert_eq!(cpu.a, 0x00);
    assert!(cpu.cc.z);
    assert!(cpu.cc.ac);
    assert!(!cpu.cc.cy);
    run(&mut cpu, 1);
    assert_eq!(cpu.a, 0x00);
    assert!(!cpu.cc.ac);
    run(&mut cpu, 1);
    assert_eq!(cpu.a, 0x81);
    assert!(cpu.cc.s);
    assert!(cpu.cc.p);
    assert!(!cpu.cc.z);
}

#[test]
fn immediate_logic_ops() {
    let mut cpu = cpu_with(&[0xe6, 0xf0, 0xee, 0xff, 0xf6, 0x01], 0);
    cpu.a = 0x3c;
    run(&mut cpu, 1);
    assert_eq!(cpu.a, 0x30);
    run(&mut cpu, 1);
    assert_eq!(cpu.a, 0xcf);
    run(&mut cpu, 1);
    assert_eq!(cpu.a, 0xcf);
    assert_eq!(cpu.pc, 6);
}

#[test]
fn compare_sets_flags_keeps_a() {
    let mut cpu = cpu_with(&[0xb8, 0xfe, 0x05], 0);
    cpu.a = 0x05;
    cpu.b = 0x0a;
    run(&mut cpu, 1);
    assert_eq!(cpu.a, 0x05);
    assert!(cpu.cc.cy);
    assert!(!cpu.cc.z);
    run(&mut cpu, 1);
    assert_eq!(cpu.a, 0x05);
    assert!(cpu.cc.z);
    assert!(!cpu.cc.cy);
}

#[test]
fn rotates() {
    let mut cpu = cpu_with(&[0x0f, 0x17, 0x1f], 0);
    cpu.a = 0x01;
    run(&mut cpu, 1);
    assert_eq!(cpu.a, 0x80);
    assert!(cpu.cc.cy);
    cpu.cc.cy = false;
    run(&mut cpu, 1);
    assert_eq!(cpu.a, 0x00);
    assert!(cpu.cc.cy);
    cpu.a = 0x01;
    run(&mut cpu, 1);
    assert_eq!(cpu.a, 0x80);
    assert!(cpu.cc.cy);
}

#[test]
fn cma_cmc_stc() {
    let mut cpu = cpu_with(&[0x2f, 0x37, 0x3f], 0);
    cpu.a = 0x51;
    run(&mut cpu, 1);
    assert_eq!(cpu.a, 0xae);
    run(&mut cpu, 1);
    assert!(cpu.cc.cy);
    run(&mut cpu, 1);
    assert!(!cpu.cc.cy);
}

#[test]
fn dad_sets_only_carry() {
    let mut cpu = cpu_with(&[0x09], 0);
    cpu.h = 0xff;
    cpu.l = 0xff;
    cpu.b = 0x00;
    cpu.c = 0x01;
    cpu.cc.z = false;
    run(&mut cpu, 1);
    assert_eq!((cpu.h, cpu.l), (0, 0));
    assert!(cpu.cc.cy);
    assert!(!cpu.cc.z);
    assert_eq!(cpu.cycles, 10);
}

#[test]
fn inx_dcx_wrap() {
    let mut cpu = cpu_with(&[0x13, 0x3b], 0);
    cpu.d = 0xff;
    cpu.e = 0xff;
    cpu.sp = 0;
    run(&mut cpu, 2);
    assert_eq!((cpu.d, cpu.e), (0, 0));
    assert_eq!(cpu.sp, 0xffff);
}

#[test]
fn lxi_mov_mvi() {
    let mut cpu = cpu_with(&[0x21, 0x00, 0x30, 0x36, 0x42, 0x7e, 0x47, 0x70, 0x31, 0x34, 0x12], 0);
    run(&mut cpu, 1);
    assert_eq!((cpu.h, cpu.l), (0x30, 0x00));
    assert_eq!(cpu.cycles, 10);
    run(&mut cpu, 1);
    assert_eq!(cpu.memory[0x3000], 0x42);
    run(&mut cpu, 1);
    assert_eq!(cpu.a, 0x42);
    run(&mut cpu, 1);
    assert_eq!(cpu.b, 0x42);
    assert_eq!(cpu.cycles, 5);
    cpu.b = 0x99;
    run(&mut cpu, 1);
    assert_eq!(cpu.memory[0x3000], 0x99);
    run(&mut cpu, 1);
    assert_eq!(cpu.sp, 0x1234);
    assert_eq!(cpu.pc, 11);
}

#[test]
fn lda_sta_lhld_shld() {
    let mut cpu = cpu_with(
        &[0x3a, 0x00, 0x40, 0x32, 0x01, 0x40, 0x2a, 0x00, 0x40, 0x22, 0x10, 0x40],
        0,
    );
    cpu.memory[0x4000] = 0x77;
    run(&mut cpu, 1);
    assert_eq!(cpu.a, 0x77);
    assert_eq!(cpu.cycles, 13);
    run(&mut cpu, 1);
    assert_eq!(cpu.memory[0x4001], 0x77);
    run(&mut cpu, 1);
    assert_eq!((cpu.h, cpu.l), (0x77, 0x77));
    assert_eq!(cpu.cycles, 16);
    run(&mut cpu, 1);
    assert_eq!(cpu.memory[0x4010], 0x77);
    assert_eq!(cpu.memory[0x4011], 0x77);
}

#[test]
fn ldax_stax() {
    let mut cpu = cpu_with(&[0x0a, 0x12], 0);
    cpu.b = 0x40;
    cpu.c = 0x00;
    cpu.d = 0x40;
    cpu.e = 0x05;
    cpu.memory[0x4000] = 0x11;
    run(&mut cpu, 2);
    assert_eq!(cpu.a, 0x11);
    assert_eq!(cpu.memory[0x4005], 0x11);
}

#[test]
fn xchg_twice_restores() {
    let mut cpu = cpu_with(&[0xeb, 0xeb], 0);
    cpu.h = 0x12;
    cpu.l = 0x34;
    cpu.d = 0x56;
    cpu.e = 0x78;
    run(&mut cpu, 1);
    assert_eq!((cpu.h, cpu.l, cpu.d, cpu.e), (0x56, 0x78, 0x12, 0x34));
    run(&mut cpu, 1);
    assert_eq!((cpu.h, cpu.l, cpu.d, cpu.e), (0x12, 0x34, 0x56, 0x78));
}

#[test]
fn stack_round_trip_lxi_push_pop() {
    for v in [0x0000u16, 0x1234, 0xffff, 0x8001] {
        let lo = (v & 0xff) as u8;
        let hi = (v >> 8) as u8;
        let mut cpu = cpu_with(&[0x01, lo, hi, 0xc5, 0xd1], 0);
        cpu.sp = 0x2400;
        run(&mut cpu, 3);
        assert_eq!(((cpu.d as u16) << 8) | cpu.e as u16, v);
        assert_eq!(cpu.sp, 0x2400);
    }
}

#[test]
fn psw_round_trip_all_values() {
    for a in 0..=255u8 {
        for bits in 0..32u8 {
            let mut cpu = cpu_with(&[0xf5, 0xf1], 0);
            cpu.sp = 0x2400;
            cpu.a = a;
            cpu.cc = Flags {
                z: bits & 1 != 0,
                s: bits & 2 != 0,
                p: bits & 4 != 0,
                cy: bits & 8 != 0,
                ac: bits & 16 != 0,
            };
            let flags = cpu.cc;
            run(&mut cpu, 1);
            let stored = cpu.memory[0x23fe];
            assert_eq!(stored & 0x02, 0x02);
            assert_eq!(stored & 0x28, 0);
            assert_eq!(cpu.memory[0x23ff], a);
            cpu.a = 0;
            cpu.cc = Flags::new();
            run(&mut cpu, 1);
            assert_eq!(cpu.a, a);
            assert_eq!(cpu.cc, flags);
            assert_eq!(cpu.sp, 0x2400);
        }
    }
}

#[test]
fn xthl_sphl_pchl() {
    let mut cpu = cpu_with(&[0xe3, 0xf9, 0xe9], 0);
    cpu.sp = 0x2400;
    cpu.memory[0x2400] = 0x11;
    cpu.memory[0x2401] = 0x22;
    cpu.h = 0x33;
    cpu.l = 0x44;
    run(&mut cpu, 1);
    assert_eq!((cpu.h, cpu.l), (0x22, 0x11));
    assert_eq!(cpu.memory[0x2400], 0x44);
    assert_eq!(cpu.memory[0x2401], 0x33);
    assert_eq!(cpu.cycles, 18);
    run(&mut cpu, 1);
    assert_eq!(cpu.sp, 0x2211);
    run(&mut cpu, 1);
    assert_eq!(cpu.pc, 0x2211);
}

#[test]
fn conditional_call_and_return() {
    let mut cpu = cpu_with(&[0xcc, 0x00, 0x20, 0xc4, 0x00, 0x20], 0);
    cpu.memory[0x2000] = 0xc0;
    cpu.memory[0x2001] = 0xc8;
    cpu.sp = 0x2400;
    run(&mut cpu, 1);
    assert_eq!(cpu.pc, 3);
    assert_eq!(cpu.cycles, 11);
    run(&mut cpu, 1);
    assert_eq!(cpu.pc, 0x2000);
    assert_eq!(cpu.sp, 0x23fe);
    cpu.cc.z = true;
    run(&mut cpu, 1);
    assert_eq!(cpu.pc, 0x2001);
    assert_eq!(cpu.cycles, 5);
    run(&mut cpu, 1);
    assert_eq!(cpu.pc, 6);
    assert_eq!(cpu.sp, 0x2400);
    assert_eq!(cpu.cycles, 11);
}

#[test]
fn rst_pushes_next_address() {
    let mut cpu = cpu_with(&[0xef], 0x0200);
    cpu.sp = 0x2400;
    run(&mut cpu, 1);
    assert_eq!(cpu.pc, 0x28);
    assert_eq!(cpu.memory[0x23ff], 0x02);
    assert_eq!(cpu.memory[0x23fe], 0x01);
    assert_eq!(cpu.cycles, 11);
}

#[test]
fn undocumented_opcodes_are_nops() {
    let mut cpu = cpu_with(&[0x08, 0xcb, 0xd9, 0xdd], 0);
    let a = cpu.a;
    run(&mut cpu, 1);
    assert_eq!((cpu.pc, cpu.cycles), (1, 4));
    run(&mut cpu, 1);
    assert_eq!((cpu.pc, cpu.cycles), (2, 10));
    run(&mut cpu, 1);
    assert_eq!((cpu.pc, cpu.cycles), (3, 10));
    run(&mut cpu, 1);
    assert_eq!((cpu.pc, cpu.cycles), (4, 17));
    assert_eq!(cpu.a, a);
    assert_eq!(cpu.sp, 0xf000);
}

#[test]
fn ei_takes_effect_after_next_instruction() {
    let mut cpu = cpu_with(&[0xfb, 0x00, 0x00], 0);
    run(&mut cpu, 1);
    assert_eq!(cpu.int_enable, InterruptEnable::Pending);
    generate_interrupt(&mut cpu, 1);
    assert_eq!(cpu.pc, 1);
    run(&mut cpu, 1);
    assert_eq!(cpu.int_enable, InterruptEnable::Enabled);
    run(&mut cpu, 1);
    assert_eq!(cpu.int_enable, InterruptEnable::Enabled);
}

#[test]
fn ei_then_di_stays_disabled() {
    let mut cpu = cpu_with(&[0xfb, 0xf3], 0);
    run(&mut cpu, 2);
    assert_eq!(cpu.int_enable, InterruptEnable::Disabled);
}

#[test]
fn interrupt_flow() {
    let mut cpu = CPUState::new();
    cpu.int_enable = InterruptEnable::Enabled;
    cpu.pc = 0x1a2b;
    cpu.sp = 0x2400;
    generate_interrupt(&mut cpu, 2);
    assert_eq!(cpu.memory[0x23ff], 0x1a);
    assert_eq!(cpu.memory[0x23fe], 0x2b);
    assert_eq!(cpu.sp, 0x23fe);
    assert_eq!(cpu.int_enable, InterruptEnable::Disabled);
    assert_eq!(cpu.pc, 0x10);
    assert_eq!(cpu.cycles, 11);
}

#[test]
fn interrupt_dropped_when_disabled() {
    let mut cpu = CPUState::new();
    cpu.pc = 0x1a2b;
    generate_interrupt(&mut cpu, 1);
    assert_eq!(cpu.pc, 0x1a2b);
    assert_eq!(cpu.sp, 0xf000);
}

#[test]
fn halt_waits_for_interrupt() {
    let mut cpu = cpu_with(&[0xfb, 0x76, 0x00], 0);
    run(&mut cpu, 2);
    assert!(cpu.halted);
    assert_eq!(cpu.pc, 2);
    run(&mut cpu, 3);
    assert_eq!(cpu.pc, 2);
    assert_eq!(cpu.cycles, 4);
    generate_interrupt(&mut cpu, 1);
    assert!(!cpu.halted);
    assert_eq!(cpu.pc, 8);
}

#[test]
fn in_and_out_without_devices() {
    let mut cpu = cpu_with(&[0xdb, 0x01, 0xd3, 0x04], 0);
    cpu.a = 0x55;
    run(&mut cpu, 1);
    assert_eq!(cpu.a, 0);
    assert_eq!(cpu.cycles, 10);
    run(&mut cpu, 1);
    assert_eq!(cpu.pc, 4);
}

#[test]
fn parity_of_low_byte() {
    assert_eq!(parity(0x00), 1);
    assert_eq!(parity(0x03), 1);
    assert_eq!(parity(0x07), 0);
    assert_eq!(parity(0x1ff), 1);
    assert_eq!(parity(0x180), 0);
}

#[test]
fn psw_packing() {
    assert_eq!(psw_byte(Flags::new()), 0x02);
    let all = Flags { z: true, s: true, p: true, cy: true, ac: true };
    assert_eq!(psw_byte(all), 0xd7);
    assert_eq!(set_psw(0xff), all);
    assert_eq!(set_psw(0x02), Flags::new());
}

#[test]
fn cycle_table() {
    assert_eq!(instruction_cycles(0x00, false), 4);
    assert_eq!(instruction_cycles(0x41, false), 5);
    assert_eq!(instruction_cycles(0x46, false), 7);
    assert_eq!(instruction_cycles(0x06, false), 7);
    assert_eq!(instruction_cycles(0x01, false), 10);
    assert_eq!(instruction_cycles(0x32, false), 13);
    assert_eq!(instruction_cycles(0x09, false), 10);
    assert_eq!(instruction_cycles(0xc5, false), 11);
    assert_eq!(instruction_cycles(0xc1, false), 10);
    assert_eq!(instruction_cycles(0xcd, true), 17);
    assert_eq!(instruction_cycles(0xc9, true), 10);
    assert_eq!(instruction_cycles(0x03, false), 5);
    assert_eq!(instruction_cycles(0xc3, false), 10);
    assert_eq!(instruction_cycles(0xc4, true), 17);
    assert_eq!(instruction_cycles(0xc4, false), 11);
}

use invaders8080::cpm::{bdos_output, emulate_cpm_op, BDOS_ENTRY};
use invaders8080::cpu::CPUState;

fn program(code: &[u8], data_at: u16, data: &[u8]) -> CPUState {
    let mut cpu = CPUState::new();
    for (i, b) in code.iter().enumerate() {
        cpu.memory[0x100 + i] = *b;
    }
    for (i, b) in data.iter().enumerate() {
        cpu.memory[data_at as usize + i] = *b;
    }
    cpu.pc = 0x100;
    cpu.sp = 0x2400;
    cpu
}

#[test]
fn print_string_call() {
    // MVI C,9; LXI D,0200h; CALL 0005h; MVI C,2; MVI E,'!'; CALL 0005h
    let code = [0x0e, 0x09, 0x11, 0x00, 0x02, 0xcd, 0x05, 0x00, 0x0e, 0x02, 0x1e, 0x21, 0xcd, 0x05, 0x00];
    let mut cpu = program(&code, 0x0200, b"CPU IS OPERATIONAL$junk");
    let mut printed: Vec<u8> = Vec::new();
    for _ in 0..8 {
        printed.extend(emulate_cpm_op(&mut cpu));
    }
    assert_eq!(printed, b"CPU IS OPERATIONAL!".to_vec());
    assert_eq!(cpu.pc, 0x10f);
    assert_eq!(cpu.sp, 0x2400);
}

#[test]
fn console_call_returns_to_caller() {
    let mut cpu = program(&[], 0, &[]);
    cpu.pc = BDOS_ENTRY;
    cpu.sp = 0x23fe;
    cpu.memory[0x23fe] = 0x34;
    cpu.memory[0x23ff] = 0x12;
    cpu.c = 2;
    cpu.e = b'x';
    assert_eq!(emulate_cpm_op(&mut cpu), vec![b'x']);
    assert_eq!(cpu.pc, 0x1234);
    assert_eq!(cpu.sp, 0x2400);
}

#[test]
fn other_console_functions_print_nothing() {
    let mut cpu = CPUState::new();
    cpu.c = 5;
    assert!(bdos_output(&cpu).is_empty());
    cpu.c = 9;
    cpu.d = 0x30;
    cpu.e = 0x00;
    cpu.memory[0x3000] = b'$';
    assert!(bdos_output(&cpu).is_empty());
}

use vstd::prelude::*;

use crate::cpu::{
    cycles_of, execute_model, group3_model, step_model, word, wrap16, CPUState, CpuModel,
    InterruptEnable,
};
use crate::op_branch::cond_holds;
use crate::invaders::{machine_step_model, Machine, MachineModel};

verus! {

/// The byte that port 3 reads: eight bits of the shift register, starting
/// `8 - offset` bits from its bottom.
pub open spec fn shift_read(shift1: u8, shift0: u8, offset: u8) -> u8 {
    ((word(shift1, shift0) >> ((8 - offset) as u16)) % 256) as u8
}

/// What IN reads from `port`: port 0 a fixed 0x0E, ports 1 and 2 the input
/// latches, port 3 the shift register; any other port 0.
pub open spec fn port_read(m: MachineModel, port: u8) -> u8 {
    if port == 0 {
        0x0e
    } else if port == 1 {
        m.in_port1
    } else if port == 2 {
        m.in_port2
    } else if port == 3 {
        shift_read(m.shift1, m.shift0, m.shift_offset)
    } else {
        0
    }
}

/// What OUT of `v` to `port` does: port 2 sets the shift offset from the low
/// three bits, port 4 shifts `v` in from the top, ports 3 and 5 latch the
/// sound triggers; any other port (6, the watchdog, among them) is ignored.
pub open spec fn port_write(m: MachineModel, port: u8, v: u8) -> MachineModel {
    if port == 2 {
        MachineModel { shift_offset: v % 8, ..m }
    } else if port == 3 {
        MachineModel { out_port3: v, ..m }
    } else if port == 4 {
        MachineModel { shift0: m.shift1, shift1: v, ..m }
    } else if port == 5 {
        MachineModel { out_port5: v, ..m }
    } else {
        m
    }
}

/// The processor is about to run IN (0xDB) or OUT (0xD3).
pub open spec fn is_port_instruction(m: MachineModel) -> bool {
    !m.cpu.halted && (m.cpu.read(m.cpu.pc) == 0xdb || m.cpu.read(m.cpu.pc) == 0xd3)
}

/// Every opcode takes between 4 and 18 cycles.
pub proof fn lemma_cycles_bounds(op: u8, taken: bool)
    ensures
        4 <= cycles_of(op, taken) <= 18,
{
    reveal(cycles_of);
}

/// One instruction of the cabinet takes between 4 and 18 cycles.
pub proof fn lemma_machine_step_cycles(m: MachineModel)
    ensures
        4 <= machine_step_model(m).cpu.cycles <= 18,
{
    let s = m.cpu;
    lemma_cycles_bounds(s.read(s.pc), crate::op_branch::cond_holds(s.cc, (s.read(s.pc) / 8) % 8));
}

/// The latch after an instruction other than EI or DI retires: a pending
/// latch becomes enabled.
pub open spec fn settle_latch(l: InterruptEnable) -> InterruptEnable {
    if l == InterruptEnable::Pending {
        InterruptEnable::Enabled
    } else {
        l
    }
}

/// The processor once a two-byte IN or OUT instruction has retired: PC past
/// it, 10 cycles spent, the latch settled.
pub open spec fn port_instruction_done(s: CpuModel) -> CpuModel {
    CpuModel { int_enable: settle_latch(s.int_enable), ..s.advance(2).spend(10) }
}

fn finish_port_instruction(cpu: &mut CPUState)
    ensures
        final(cpu)@ == port_instruction_done(old(cpu)@),
{
    cpu.advance(2);
    cpu.spend(10);
    if cpu.int_enable == InterruptEnable::Pending {
        cpu.int_enable = InterruptEnable::Enabled;
    }
}

/// IN and OUT through the executor end as `port_instruction_done` says.
proof fn lemma_port_instruction_step(s: CpuModel, port_in: u8)
    requires
        !s.halted,
        s.read(s.pc) == 0xdb || s.read(s.pc) == 0xd3,
    ensures
        s.read(s.pc) == 0xdb ==> step_model(s, port_in) == port_instruction_done(
            CpuModel { a: port_in, ..s },
        ),
        s.read(s.pc) == 0xd3 ==> step_model(s, port_in) == port_instruction_done(s),
{
    let op = s.read(s.pc);
    let b1 = s.read(wrap16(s.pc + 1));
    let b2 = s.read(wrap16(s.pc + 2));
    assert(op / 64 == 3 && op % 8 == 3);
    assert(cycles_of(op, cond_holds(s.cc, (op / 8) % 8)) == 10) by {
        reveal(cycles_of);
    }
    if op == 0xdb {
        assert((op / 8) % 8 == 3);
        assert(execute_model(s, op, b1, b2, port_in) == group3_model(s, 3, 3, b1, b2, port_in))
            by {
            reveal(execute_model);
        }
    } else {
        assert((op / 8) % 8 == 2);
        assert(execute_model(s, op, b1, b2, port_in) == group3_model(s, 2, 3, b1, b2, port_in))
            by {
            reveal(execute_model);
        }
    }
}

/// Runs the IN or OUT instruction at PC against the cabinet's ports. Any
/// other opcode, or a halted processor, is left alone: the machine does not
/// change.
pub fn handle_interrupts(machine: &mut Machine)
    requires
        old(machine).wf(),
    ensures
        final(machine).wf(),
        is_port_instruction(old(machine)@) ==> final(machine)@ == machine_step_model(
            old(machine)@,
        ),
        !is_port_instruction(old(machine)@) ==> final(machine)@ == old(machine)@,
{
    let pc = machine.cpu.pc;
    let op = machine.cpu.read_mem(pc);
    let port = machine.cpu.read_mem(pc.wrapping_add(1));
    if !machine.cpu.halted && (op == 0xdb || op == 0xd3) {
        proof {
            lemma_port_instruction_step(machine.cpu@, port_read(machine@, port));
            lemma_port_instruction_step(machine.cpu@, 0);
        }
        if op == 0xdb {
            in_space_invaders(machine, port);
        } else {
            out_space_invaders(machine, port);
        }
    }
}

/// IN from `port`: A takes the byte the port supplies (returned too) and the
/// instruction retires.
pub fn in_space_invaders(machine: &mut Machine, port: u8) -> (r: u8)
    requires
        old(machine).wf(),
    ensures
        final(machine).wf(),
        r == port_read(old(machine)@, port),
        final(machine)@ == (MachineModel {
            cpu: port_instruction_done(CpuModel { a: r, ..old(machine)@.cpu }),
            ..old(machine)@
        }),
{
    let v: u8 = match port {
        0 => 0x0e,
        1 => machine.in_port1,
        2 => machine.in_port2,
        3 => {
            let w = crate::helpers::make_word(machine.shift1, machine.shift0);
            ((w >> (8 - machine.shift_offset as u16)) % 256) as u8
        },
        _ => 0,
    };
    machine.cpu.a = v;
    finish_port_instruction(&mut machine.cpu);
    v
}

/// OUT of A to `port`: the port effect, then the instruction retires.
pub fn out_space_invaders(machine: &mut Machine, port: u8)
    requires
        old(machine).wf(),
    ensures
        final(machine).wf(),
        final(machine)@ == (MachineModel {
            cpu: port_instruction_done(old(machine)@.cpu),
            ..port_write(old(machine)@, port, old(machine).cpu.a)
        }),
{
    let v = machine.cpu.a;
    match port {
        2 => machine.shift_offset = v % 8,
        3 => machine.out_port3 = v,
        4 => {
            machine.shift0 = machine.shift1;
            machine.shift1 = v;
        },
        5 => machine.out_port5 = v,
        _ => {},
    }
    finish_port_instruction(&mut machine.cpu);
}

} // verus!

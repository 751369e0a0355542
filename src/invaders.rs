use vstd::prelude::*;

use crate::cpu::{
    copy_into, loaded, reset_model, step, step_model, wrap16, CPUState, CpuModel, MEMORY_SIZE,
};
use crate::helpers::{generate_interrupt, interrupt_model};
use crate::interrupts::{handle_interrupts, lemma_machine_step_cycles, port_read, port_write};

verus! {

/// CPU cycles in one half of a video frame.
pub const HALF_FRAME_CYCLES: u32 = 16667;

/// The Space Invaders cabinet: the processor and the hardware on its ports.
#[derive(Debug)]
pub struct Machine {
    pub cpu: CPUState,
    /// Low byte of the external shift register.
    pub shift0: u8,
    /// High byte of the external shift register.
    pub shift1: u8,
    /// How far the shift register's read window sits from its top (0 to 7).
    pub shift_offset: u8,
    pub in_port1: u8,
    pub in_port2: u8,
    /// The sound trigger latches of output ports 3 and 5.
    pub out_port3: u8,
    pub out_port5: u8,
}

/// The mathematical value of a `Machine`.
pub struct MachineModel {
    pub cpu: CpuModel,
    pub shift0: u8,
    pub shift1: u8,
    pub shift_offset: u8,
    pub in_port1: u8,
    pub in_port2: u8,
    pub out_port3: u8,
    pub out_port5: u8,
}

impl View for Machine {
    type V = MachineModel;

    open spec fn view(&self) -> MachineModel {
        MachineModel {
            cpu: self.cpu@,
            shift0: self.shift0,
            shift1: self.shift1,
            shift_offset: self.shift_offset,
            in_port1: self.in_port1,
            in_port2: self.in_port2,
            out_port3: self.out_port3,
            out_port5: self.out_port5,
        }
    }
}

impl MachineModel {
    pub open spec fn wf(self) -> bool {
        self.cpu.wf() && self.shift_offset < 8
    }
}

/// Why a ROM image could not be loaded.
#[derive(Clone, Copy, Debug, PartialEq, Eq, Structural)]
pub enum RomError {
    /// The image does not fit in memory from the requested address on.
    TooLarge,
}

/// One instruction of the cabinet: IN and OUT go to the cabinet's ports, the
/// rest to the processor alone. A halted processor fetches nothing.
pub open spec fn machine_step_model(m: MachineModel) -> MachineModel {
    let op = m.cpu.read(m.cpu.pc);
    let port = m.cpu.read(wrap16(m.cpu.pc + 1));
    if !m.cpu.halted && op == 0xdb {
        MachineModel { cpu: step_model(m.cpu, port_read(m, port)), ..m }
    } else if !m.cpu.halted && op == 0xd3 {
        MachineModel { cpu: step_model(m.cpu, 0), ..port_write(m, port, m.cpu.a) }
    } else {
        MachineModel { cpu: step_model(m.cpu, 0), ..m }
    }
}

/// Instructions run until at least `budget` cycles are spent. (Every
/// instruction takes at least 4 cycles: see `lemma_machine_step_cycles`.)
pub open spec fn run_model(m: MachineModel, budget: int) -> MachineModel
    decreases budget,
{
    if budget <= 0 {
        m
    } else {
        let n = machine_step_model(m);
        if budget <= n.cpu.cycles || n.cpu.cycles == 0 {
            n
        } else {
            run_model(n, budget - n.cpu.cycles)
        }
    }
}

/// Half a frame: `HALF_FRAME_CYCLES` cycles of instructions, then the
/// interrupt of that half (RST 1 for the top half, RST 2 for the bottom).
pub open spec fn half_step_model(m: MachineModel, top_half: bool) -> MachineModel {
    let r = run_model(m, HALF_FRAME_CYCLES as int);
    MachineModel { cpu: interrupt_model(r.cpu, if top_half { 1 } else { 2 }), ..r }
}

impl Machine {
    pub open spec fn wf(&self) -> bool {
        self@.wf()
    }

    /// A cabinet at reset: the processor reset, the shift register cleared,
    /// the always-one bit 3 of input port 1 set, everything else 0.
    pub fn new() -> (r: Machine)
        ensures
            r.wf(),
            r.cpu@ == reset_model(),
            r.shift0 == 0 && r.shift1 == 0 && r.shift_offset == 0,
            r.in_port1 == 0x08 && r.in_port2 == 0,
            r.out_port3 == 0 && r.out_port5 == 0,
    {
        Machine {
            cpu: CPUState::new(),
            shift0: 0,
            shift1: 0,
            shift_offset: 0,
            in_port1: 0x08,
            in_port2: 0,
            out_port3: 0,
            out_port5: 0,
        }
    }

    /// Copies a ROM image into memory from address `start` on; fails, changing
    /// nothing, when it does not fit.
    pub fn load_rom(&mut self, rom: &Vec<u8>, start: usize) -> (r: Result<(), RomError>)
        requires
            old(self).wf(),
        ensures
            final(self).wf(),
            r is Err <==> start + rom@.len() > MEMORY_SIZE,
            r is Err ==> final(self)@ == old(self)@,
            r is Ok ==> final(self)@ == (MachineModel {
                cpu: CpuModel { mem: loaded(old(self)@.cpu.mem, start as int, rom@), ..old(self)@.cpu },
                ..old(self)@
            }),
    {
        if start > MEMORY_SIZE || rom.len() > MEMORY_SIZE - start {
            return Err(RomError::TooLarge);
        }
        copy_into(&mut self.cpu.memory, start, rom);
        Ok(())
    }
}

/// Runs one instruction of the cabinet.
pub fn emulate_invaders(machine: &mut Machine)
    requires
        old(machine).wf(),
    ensures
        final(machine).wf(),
        final(machine)@ == machine_step_model(old(machine)@),
{
    let op = machine.cpu.read_mem(machine.cpu.pc);
    if !machine.cpu.halted && (op == 0xdb || op == 0xd3) {
        handle_interrupts(machine);
    } else {
        step(&mut machine.cpu, 0);
    }
}

/// Runs half a video frame, then offers that half's interrupt: RST 1 after
/// the top half, RST 2 after the bottom one.
pub fn half_step(machine: &mut Machine, top_half: bool)
    requires
        old(machine).wf(),
    ensures
        final(machine).wf(),
        final(machine)@ == half_step_model(old(machine)@, top_half),
{
    let ghost start = machine@;
    let mut spent: u32 = 0;
    while spent < HALF_FRAME_CYCLES
        invariant
            machine.wf(),
            spent <= HALF_FRAME_CYCLES + 255,
            run_model(start, HALF_FRAME_CYCLES as int) == run_model(
                machine@,
                HALF_FRAME_CYCLES - spent,
            ),
        decreases HALF_FRAME_CYCLES + 255 - spent,
    {
        let ghost prev = machine@;
        emulate_invaders(machine);
        proof {
            lemma_machine_step_cycles(prev);
        }
        spent = spent + machine.cpu.cycles as u32;
    }
    generate_interrupt(&mut machine.cpu, if top_half { 1 } else { 2 });
}

} // verus!

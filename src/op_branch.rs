use vstd::prelude::*;

use crate::condition_codes::Flags;
use crate::cpu::{word, wrap16, CPUState, CpuModel};
use crate::helpers::{make_word, pop_from_stack, push_to_stack_addr};

verus! {

/// Condition code `code` of J/C/R<cc>: NZ, Z, NC, C, PO, PE, P, M.
pub open spec fn cond_holds(f: Flags, code: u8) -> bool {
    if code == 0 {
        !f.z
    } else if code == 1 {
        f.z
    } else if code == 2 {
        !f.cy
    } else if code == 3 {
        f.cy
    } else if code == 4 {
        !f.p
    } else if code == 5 {
        f.p
    } else if code == 6 {
        !f.s
    } else {
        f.s
    }
}

/// A three-byte jump: to `addr` when taken, else past the instruction;
/// 10 cycles either way.
pub open spec fn jump_model(s: CpuModel, taken: bool, addr: u16) -> CpuModel {
    if taken {
        CpuModel { pc: addr, ..s }.spend(10)
    } else {
        s.advance(3).spend(10)
    }
}

/// CALL: the return address PC+3 pushed, then PC <- addr; 17 cycles.
pub open spec fn call_model(s: CpuModel, addr: u16) -> CpuModel {
    CpuModel { pc: addr, ..s.push(wrap16(s.pc + 3)) }.spend(17)
}

/// A conditional call: a call when taken, else past the instruction in 11
/// cycles.
pub open spec fn call_if_model(s: CpuModel, taken: bool, addr: u16) -> CpuModel {
    if taken {
        call_model(s, addr)
    } else {
        s.advance(3).spend(11)
    }
}

/// RET: PC popped from the stack; 10 cycles.
pub open spec fn ret_model(s: CpuModel) -> CpuModel {
    CpuModel { pc: s.top(), ..s.drop_top() }.spend(10)
}

/// A conditional return: a return in 11 cycles when taken, else past the
/// instruction in 5.
pub open spec fn ret_if_model(s: CpuModel, taken: bool) -> CpuModel {
    if taken {
        ret_model(s).spend(11)
    } else {
        s.advance(1).spend(5)
    }
}

/// RST n: the return address PC+1 pushed, then PC <- 8n; 11 cycles.
pub open spec fn rst_model(s: CpuModel, n: u8) -> CpuModel {
    CpuModel { pc: (8 * n) as u16, ..s.push(wrap16(s.pc + 1)) }.spend(11)
}

/// Whether condition `code` holds of the flags.
pub fn condition(f: Flags, code: u8) -> (r: bool)
    requires
        code < 8,
    ensures
        r == cond_holds(f, code),
{
    match code {
        0 => !f.z,
        1 => f.z,
        2 => !f.cy,
        3 => f.cy,
        4 => !f.p,
        5 => f.p,
        6 => !f.s,
        _ => f.s,
    }
}

fn jump_if(cpu: &mut CPUState, taken: bool, lo: u8, hi: u8)
    ensures
        final(cpu)@ == jump_model(old(cpu)@, taken, word(hi, lo)),
{
    if taken {
        cpu.pc = make_word(hi, lo);
    } else {
        cpu.advance(3);
    }
    cpu.spend(10);
}

fn call_if(cpu: &mut CPUState, taken: bool, lo: u8, hi: u8)
    requires
        old(cpu).wf(),
    ensures
        final(cpu).wf(),
        final(cpu)@ == call_if_model(old(cpu)@, taken, word(hi, lo)),
{
    if taken {
        let ret_addr = cpu.pc.wrapping_add(3);
        push_to_stack_addr(cpu, ret_addr);
        cpu.pc = make_word(hi, lo);
        cpu.spend(17);
    } else {
        cpu.advance(3);
        cpu.spend(11);
    }
}

fn ret_if(cpu: &mut CPUState, taken: bool)
    requires
        old(cpu).wf(),
    ensures
        final(cpu).wf(),
        final(cpu)@ == ret_if_model(old(cpu)@, taken),
{
    if taken {
        cpu.pc = pop_from_stack(cpu);
        cpu.spend(11);
    } else {
        cpu.advance(1);
        cpu.spend(5);
    }
}

/// JMP a16.
pub fn jmp(cpu: &mut CPUState, lo: u8, hi: u8)
    ensures
        final(cpu)@ == jump_model(old(cpu)@, true, word(hi, lo)),
{
    jump_if(cpu, true, lo, hi);
}

/// CALL a16.
pub fn call(cpu: &mut CPUState, lo: u8, hi: u8)
    requires
        old(cpu).wf(),
    ensures
        final(cpu).wf(),
        final(cpu)@ == call_model(old(cpu)@, word(hi, lo)),
{
    call_if(cpu, true, lo, hi);
}

/// RET.
pub fn ret(cpu: &mut CPUState)
    requires
        old(cpu).wf(),
    ensures
        final(cpu).wf(),
        final(cpu)@ == ret_model(old(cpu)@),
{
    cpu.pc = pop_from_stack(cpu);
    cpu.spend(10);
}

/// JNZ a16: jump when Z = 0.
pub fn jnz(cpu: &mut CPUState, lo: u8, hi: u8)
    ensures
        final(cpu)@ == jump_model(old(cpu)@, !old(cpu).cc.z, word(hi, lo)),
{
    let taken = !cpu.cc.z;
    jump_if(cpu, taken, lo, hi);
}

/// JZ a16: jump when Z = 1.
pub fn jz(cpu: &mut CPUState, lo: u8, hi: u8)
    ensures
        final(cpu)@ == jump_model(old(cpu)@, old(cpu).cc.z, word(hi, lo)),
{
    let taken = cpu.cc.z;
    jump_if(cpu, taken, lo, hi);
}

/// JNC a16: jump when CY = 0.
pub fn jnc(cpu: &mut CPUState, lo: u8, hi: u8)
    ensures
        final(cpu)@ == jump_model(old(cpu)@, !old(cpu).cc.cy, word(hi, lo)),
{
    let taken = !cpu.cc.cy;
    jump_if(cpu, taken, lo, hi);
}

/// JC a16: jump when CY = 1.
pub fn jc(cpu: &mut CPUState, lo: u8, hi: u8)
    ensures
        final(cpu)@ == jump_model(old(cpu)@, old(cpu).cc.cy, word(hi, lo)),
{
    let taken = cpu.cc.cy;
    jump_if(cpu, taken, lo, hi);
}

/// JPO a16: jump when P = 0.
pub fn jpo(cpu: &mut CPUState, lo: u8, hi: u8)
    ensures
        final(cpu)@ == jump_model(old(cpu)@, !old(cpu).cc.p, word(hi, lo)),
{
    let taken = !cpu.cc.p;
    jump_if(cpu, taken, lo, hi);
}

/// JPE a16: jump when P = 1.
pub fn jpe(cpu: &mut CPUState, lo: u8, hi: u8)
    ensures
        final(cpu)@ == jump_model(old(cpu)@, old(cpu).cc.p, word(hi, lo)),
{
    let taken = cpu.cc.p;
    jump_if(cpu, taken, lo, hi);
}

/// JP a16: jump when S = 0.
pub fn jp(cpu: &mut CPUState, lo: u8, hi: u8)
    ensures
        final(cpu)@ == jump_model(old(cpu)@, !old(cpu).cc.s, word(hi, lo)),
{
    let taken = !cpu.cc.s;
    jump_if(cpu, taken, lo, hi);
}

/// JM a16: jump when S = 1.
pub fn jm(cpu: &mut CPUState, lo: u8, hi: u8)
    ensures
        final(cpu)@ == jump_model(old(cpu)@, old(cpu).cc.s, word(hi, lo)),
{
    let taken = cpu.cc.s;
    jump_if(cpu, taken, lo, hi);
}

/// CNZ a16: call when Z = 0.
pub fn cnz(cpu: &mut CPUState, lo: u8, hi: u8)
    requires
        old(cpu).wf(),
    ensures
        final(cpu).wf(),
        final(cpu)@ == call_if_model(old(cpu)@, !old(cpu).cc.z, word(hi, lo)),
{
    let taken = !cpu.cc.z;
    call_if(cpu, taken, lo, hi);
}

/// CZ a16: call when Z = 1.
pub fn cz(cpu: &mut CPUState, lo: u8, hi: u8)
    requires
        old(cpu).wf(),
    ensures
        final(cpu).wf(),
        final(cpu)@ == call_if_model(old(cpu)@, old(cpu).cc.z, word(hi, lo)),
{
    let taken = cpu.cc.z;
    call_if(cpu, taken, lo, hi);
}

/// CNC a16: call when CY = 0.
pub fn cnc(cpu: &mut CPUState, lo: u8, hi: u8)
    requires
        old(cpu).wf(),
    ensures
        final(cpu).wf(),
        final(cpu)@ == call_if_model(old(cpu)@, !old(cpu).cc.cy, word(hi, lo)),
{
    let taken = !cpu.cc.cy;
    call_if(cpu, taken, lo, hi);
}

/// CC a16: call when CY = 1.
pub fn cc(cpu: &mut CPUState, lo: u8, hi: u8)
    requires
        old(cpu).wf(),
    ensures
        final(cpu).wf(),
        final(cpu)@ == call_if_model(old(cpu)@, old(cpu).cc.cy, word(hi, lo)),
{
    let taken = cpu.cc.cy;
    call_if(cpu, taken, lo, hi);
}

/// CPO a16: call when P = 0.
pub fn cpo(cpu: &mut CPUState, lo: u8, hi: u8)
    requires
        old(cpu).wf(),
    ensures
        final(cpu).wf(),
        final(cpu)@ == call_if_model(old(cpu)@, !old(cpu).cc.p, word(hi, lo)),
{
    let taken = !cpu.cc.p;
    call_if(cpu, taken, lo, hi);
}

/// CPE a16: call when P = 1.
pub fn cpe(cpu: &mut CPUState, lo: u8, hi: u8)
    requires
        old(cpu).wf(),
    ensures
        final(cpu).wf(),
        final(cpu)@ == call_if_model(old(cpu)@, old(cpu).cc.p, word(hi, lo)),
{
    let taken = cpu.cc.p;
    call_if(cpu, taken, lo, hi);
}

/// CP a16: call when S = 0.
pub fn cp(cpu: &mut CPUState, lo: u8, hi: u8)
    requires
        old(cpu).wf(),
    ensures
        final(cpu).wf(),
        final(cpu)@ == call_if_model(old(cpu)@, !old(cpu).cc.s, word(hi, lo)),
{
    let taken = !cpu.cc.s;
    call_if(cpu, taken, lo, hi);
}

/// CM a16: call when S = 1.
pub fn cm(cpu: &mut CPUState, lo: u8, hi: u8)
    requires
        old(cpu).wf(),
    ensures
        final(cpu).wf(),
        final(cpu)@ == call_if_model(old(cpu)@, old(cpu).cc.s, word(hi, lo)),
{
    let taken = cpu.cc.s;
    call_if(cpu, taken, lo, hi);
}

/// RNZ: return when Z = 0.
pub fn rnz(cpu: &mut CPUState)
    requires
        old(cpu).wf(),
    ensures
        final(cpu).wf(),
        final(cpu)@ == ret_if_model(old(cpu)@, !old(cpu).cc.z),
{
    let taken = !cpu.cc.z;
    ret_if(cpu, taken);
}

/// RZ: return when Z = 1.
pub fn rz(cpu: &mut CPUState)
    requires
        old(cpu).wf(),
    ensures
        final(cpu).wf(),
        final(cpu)@ == ret_if_model(old(cpu)@, old(cpu).cc.z),
{
    let taken = cpu.cc.z;
    ret_if(cpu, taken);
}

/// RNC: return when CY = 0.
pub fn rnc(cpu: &mut CPUState)
    requires
        old(cpu).wf(),
    ensures
        final(cpu).wf(),
        final(cpu)@ == ret_if_model(old(cpu)@, !old(cpu).cc.cy),
{
    let taken = !cpu.cc.cy;
    ret_if(cpu, taken);
}

/// RC: return when CY = 1.
pub fn rc(cpu: &mut CPUState)
    requires
        old(cpu).wf(),
    ensures
        final(cpu).wf(),
        final(cpu)@ == ret_if_model(old(cpu)@, old(cpu).cc.cy),
{
    let taken = cpu.cc.cy;
    ret_if(cpu, taken);
}

/// RPO: return when P = 0.
pub fn rpo(cpu: &mut CPUState)
    requires
        old(cpu).wf(),
    ensures
        final(cpu).wf(),
        final(cpu)@ == ret_if_model(old(cpu)@, !old(cpu).cc.p),
{
    let taken = !cpu.cc.p;
    ret_if(cpu, taken);
}

/// RPE: return when P = 1.
pub fn rpe(cpu: &mut CPUState)
    requires
        old(cpu).wf(),
    ensures
        final(cpu).wf(),
        final(cpu)@ == ret_if_model(old(cpu)@, old(cpu).cc.p),
{
    let taken = cpu.cc.p;
    ret_if(cpu, taken);
}

/// RP: return when S = 0.
pub fn rp(cpu: &mut CPUState)
    requires
        old(cpu).wf(),
    ensures
        final(cpu).wf(),
        final(cpu)@ == ret_if_model(old(cpu)@, !old(cpu).cc.s),
{
    let taken = !cpu.cc.s;
    ret_if(cpu, taken);
}

/// RM: return when S = 1.
pub fn rm(cpu: &mut CPUState)
    requires
        old(cpu).wf(),
    ensures
        final(cpu).wf(),
        final(cpu)@ == ret_if_model(old(cpu)@, old(cpu).cc.s),
{
    let taken = cpu.cc.s;
    ret_if(cpu, taken);
}

/// PCHL: PC <- HL.
pub fn pchl(cpu: &mut CPUState)
    ensures
        final(cpu)@ == (CpuModel { pc: old(cpu)@.hl(), ..old(cpu)@ }).spend(5),
{
    cpu.pc = cpu.get_hl();
    cpu.spend(5);
}

/// RST n.
pub fn rst(cpu: &mut CPUState, n: u8)
    requires
        old(cpu).wf(),
        n < 8,
    ensures
        final(cpu).wf(),
        final(cpu)@ == rst_model(old(cpu)@, n),
{
    let ret_addr = cpu.pc.wrapping_add(1);
    push_to_stack_addr(cpu, ret_addr);
    cpu.pc = 8 * n as u16;
    cpu.spend(11);
}

} // verus!

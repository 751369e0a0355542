use vstd::prelude::*;

use crate::cpu::{hi_byte, lo_byte, word, wrap16, CPUState, CpuModel, StackPairs};
use crate::helpers::{
    flags_of_psw, make_word, pop_from_stack, psw_byte, psw_of, push_to_stack_addr, set_psw,
    write_memory,
};

verus! {

/// The PSW word: A high, packed flags low.
pub open spec fn psw_word(s: CpuModel) -> u16 {
    word(s.a, psw_of(s.cc))
}

/// POP PSW: A from the high byte of the top word, flags from its low byte.
pub open spec fn pop_psw_model(s: CpuModel) -> CpuModel {
    CpuModel { a: hi_byte(s.top()), cc: flags_of_psw(lo_byte(s.top())), ..s.drop_top() }
}

/// XTHL: L swapped with memory[SP], H with memory[SP + 1].
pub open spec fn xthl_model(s: CpuModel) -> CpuModel {
    CpuModel {
        l: s.read(s.sp),
        h: s.read(wrap16(s.sp + 1)),
        ..s.write(s.sp, s.l).write(wrap16(s.sp + 1), s.h)
    }
}

/// PUSH rp.
pub fn push(cpu: &mut CPUState, rp: StackPairs)
    requires
        old(cpu).wf(),
    ensures
        final(cpu).wf(),
        final(cpu)@ == old(cpu)@.push(old(cpu)@.pair(rp)).advance(1).spend(11),
{
    let v = cpu.get_pair(rp);
    push_to_stack_addr(cpu, v);
    cpu.advance(1);
    cpu.spend(11);
}

/// POP rp.
pub fn pop(cpu: &mut CPUState, rp: StackPairs)
    requires
        old(cpu).wf(),
    ensures
        final(cpu).wf(),
        final(cpu)@ == old(cpu)@.drop_top().with_pair(rp, old(cpu)@.top()).advance(1).spend(10),
{
    let v = pop_from_stack(cpu);
    cpu.set_pair(rp, v);
    cpu.advance(1);
    cpu.spend(10);
}

/// PUSH PSW: A at SP-1, the packed flags at SP-2.
pub fn push_psw(cpu: &mut CPUState)
    requires
        old(cpu).wf(),
    ensures
        final(cpu).wf(),
        final(cpu)@ == old(cpu)@.push(psw_word(old(cpu)@)).advance(1).spend(11),
{
    let v = make_word(cpu.a, psw_byte(cpu.cc));
    push_to_stack_addr(cpu, v);
    cpu.advance(1);
    cpu.spend(11);
}

/// POP PSW.
pub fn pop_psw(cpu: &mut CPUState)
    requires
        old(cpu).wf(),
    ensures
        final(cpu).wf(),
        final(cpu)@ == pop_psw_model(old(cpu)@).advance(1).spend(10),
{
    let v = pop_from_stack(cpu);
    cpu.a = (v / 256) as u8;
    cpu.cc = set_psw((v % 256) as u8);
    cpu.advance(1);
    cpu.spend(10);
}

/// XTHL.
pub fn xthl(cpu: &mut CPUState)
    requires
        old(cpu).wf(),
    ensures
        final(cpu).wf(),
        final(cpu)@ == xthl_model(old(cpu)@).advance(1).spend(18),
{
    let sp = cpu.sp;
    let sp1 = sp.wrapping_add(1);
    let lo = cpu.read_mem(sp);
    let hi = cpu.read_mem(sp1);
    let l = cpu.l;
    let h = cpu.h;
    write_memory(&mut cpu.memory, sp, l);
    write_memory(&mut cpu.memory, sp1, h);
    cpu.l = lo;
    cpu.h = hi;
    cpu.advance(1);
    cpu.spend(18);
}

/// SPHL: SP <- HL.
pub fn sphl(cpu: &mut CPUState)
    ensures
        final(cpu)@ == (CpuModel { sp: old(cpu)@.hl(), ..old(cpu)@ }).advance(1).spend(5),
{
    cpu.sp = cpu.get_hl();
    cpu.advance(1);
    cpu.spend(5);
}

} // verus!

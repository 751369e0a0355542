use vstd::prelude::*;

use crate::cpu::{word, wrap16, CPUState, CpuModel, Registers, StackPairs, WithSPPairs};
use crate::helpers::{make_word, write_memory};

verus! {

/// LHLD: L from `addr`, H from `addr + 1`.
pub open spec fn lhld_model(s: CpuModel, addr: u16) -> CpuModel {
    CpuModel { l: s.read(addr), h: s.read(wrap16(addr + 1)), ..s }
}

/// SHLD: L stored at `addr`, H at `addr + 1`.
pub open spec fn shld_model(s: CpuModel, addr: u16) -> CpuModel {
    s.write(addr, s.l).write(wrap16(addr + 1), s.h)
}

/// XCHG: HL and DE swapped.
pub open spec fn xchg_model(s: CpuModel) -> CpuModel {
    CpuModel { h: s.d, l: s.e, d: s.h, e: s.l, ..s }
}

/// MOV r, r': `value` is the source register's content.
pub fn mov_r_r(cpu: &mut CPUState, r: Registers, value: u8)
    ensures
        final(cpu)@ == old(cpu)@.with_reg(r, value).advance(1).spend(5),
{
    cpu.set_reg(r, value);
    cpu.advance(1);
    cpu.spend(5);
}

/// MOV r, M: r <- memory[HL].
pub fn mov_r_m(cpu: &mut CPUState, r: Registers)
    requires
        old(cpu).wf(),
    ensures
        final(cpu).wf(),
        final(cpu)@ == old(cpu)@.with_reg(r, old(cpu)@.read(old(cpu)@.hl())).advance(1).spend(7),
{
    let v = cpu.read_mem(cpu.get_hl());
    cpu.set_reg(r, v);
    cpu.advance(1);
    cpu.spend(7);
}

/// MOV M, r: memory[HL] <- r.
pub fn mov_m_r(cpu: &mut CPUState, r: Registers)
    requires
        old(cpu).wf(),
    ensures
        final(cpu).wf(),
        final(cpu)@ == old(cpu)@.write(old(cpu)@.hl(), old(cpu)@.reg(r)).advance(1).spend(7),
{
    let addr = cpu.get_hl();
    let v = cpu.get_reg(r);
    write_memory(&mut cpu.memory, addr, v);
    cpu.advance(1);
    cpu.spend(7);
}

/// MVI r, d8.
pub fn mvi_r(cpu: &mut CPUState, r: Registers, value: u8)
    ensures
        final(cpu)@ == old(cpu)@.with_reg(r, value).advance(2).spend(7),
{
    cpu.set_reg(r, value);
    cpu.advance(2);
    cpu.spend(7);
}

/// MVI M, d8: memory[HL] <- value.
pub fn mvi_m(cpu: &mut CPUState, value: u8)
    requires
        old(cpu).wf(),
    ensures
        final(cpu).wf(),
        final(cpu)@ == old(cpu)@.write(old(cpu)@.hl(), value).advance(2).spend(10),
{
    let addr = cpu.get_hl();
    write_memory(&mut cpu.memory, addr, value);
    cpu.advance(2);
    cpu.spend(10);
}

/// LXI rp, d16: the immediate is given low byte first.
pub fn lxi(cpu: &mut CPUState, rp: WithSPPairs, lo: u8, hi: u8)
    ensures
        final(cpu)@ == old(cpu)@.with_pair_sp(rp, word(hi, lo)).advance(3).spend(10),
{
    cpu.set_pair_sp(rp, make_word(hi, lo));
    cpu.advance(3);
    cpu.spend(10);
}

/// LDA a16: A <- memory[a16].
pub fn lda(cpu: &mut CPUState, lo: u8, hi: u8)
    requires
        old(cpu).wf(),
    ensures
        final(cpu).wf(),
        final(cpu)@ == (CpuModel { a: old(cpu)@.read(word(hi, lo)), ..old(cpu)@ }).advance(3).spend(13),
{
    cpu.a = cpu.read_mem(make_word(hi, lo));
    cpu.advance(3);
    cpu.spend(13);
}

/// STA a16: memory[a16] <- A.
pub fn sta(cpu: &mut CPUState, lo: u8, hi: u8)
    requires
        old(cpu).wf(),
    ensures
        final(cpu).wf(),
        final(cpu)@ == old(cpu)@.write(word(hi, lo), old(cpu).a).advance(3).spend(13),
{
    let a = cpu.a;
    write_memory(&mut cpu.memory, make_word(hi, lo), a);
    cpu.advance(3);
    cpu.spend(13);
}

/// LHLD a16.
pub fn lhld(cpu: &mut CPUState, lo: u8, hi: u8)
    requires
        old(cpu).wf(),
    ensures
        final(cpu).wf(),
        final(cpu)@ == lhld_model(old(cpu)@, word(hi, lo)).advance(3).spend(16),
{
    let addr = make_word(hi, lo);
    cpu.l = cpu.read_mem(addr);
    cpu.h = cpu.read_mem(addr.wrapping_add(1));
    cpu.advance(3);
    cpu.spend(16);
}

/// SHLD a16.
pub fn shld(cpu: &mut CPUState, lo: u8, hi: u8)
    requires
        old(cpu).wf(),
    ensures
        final(cpu).wf(),
        final(cpu)@ == shld_model(old(cpu)@, word(hi, lo)).advance(3).spend(16),
{
    let addr = make_word(hi, lo);
    let l = cpu.l;
    let h = cpu.h;
    write_memory(&mut cpu.memory, addr, l);
    write_memory(&mut cpu.memory, addr.wrapping_add(1), h);
    cpu.advance(3);
    cpu.spend(16);
}

/// LDAX rp: A <- memory[rp].
pub fn ldax(cpu: &mut CPUState, rp: StackPairs)
    requires
        old(cpu).wf(),
    ensures
        final(cpu).wf(),
        final(cpu)@ == (CpuModel { a: old(cpu)@.read(old(cpu)@.pair(rp)), ..old(cpu)@ }).advance(1).spend(7),
{
    cpu.a = cpu.read_mem(cpu.get_pair(rp));
    cpu.advance(1);
    cpu.spend(7);
}

/// STAX rp: memory[rp] <- A.
pub fn stax(cpu: &mut CPUState, rp: StackPairs)
    requires
        old(cpu).wf(),
    ensures
        final(cpu).wf(),
        final(cpu)@ == old(cpu)@.write(old(cpu)@.pair(rp), old(cpu).a).advance(1).spend(7),
{
    let addr = cpu.get_pair(rp);
    let a = cpu.a;
    write_memory(&mut cpu.memory, addr, a);
    cpu.advance(1);
    cpu.spend(7);
}

/// XCHG: HL <-> DE.
pub fn xchg(cpu: &mut CPUState)
    ensures
        final(cpu)@ == xchg_model(old(cpu)@).advance(1).spend(4),
{
    let h = cpu.h;
    let l = cpu.l;
    cpu.h = cpu.d;
    cpu.l = cpu.e;
    cpu.d = h;
    cpu.e = l;
    cpu.advance(1);
    cpu.spend(4);
}

} // verus!

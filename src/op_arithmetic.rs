use vstd::prelude::*;

use vstd::arithmetic::div_mod::lemma_mod_add_multiples_vanish;

use crate::condition_codes::Flags;
use crate::cpu::{operand_cycles, wrap16, wrap8, CPUState, CpuModel, Registers, WithSPPairs};
use crate::helpers::{arith_flags, bit, result_flags, set_all_flags, write_memory};

verus! {

/// Flags of `a + v + carry`. AC is the carry out of bit 3.
pub open spec fn add_flags(a: u8, v: u8, carry: bool) -> Flags {
    let sum = a + v + bit(carry, 1);
    result_flags(wrap8(sum), sum > 0xff, a % 16 + v % 16 + bit(carry, 1) > 15)
}

/// Flags of `a - v - borrow`. CY is the borrow; AC is the carry out of bit 3
/// of the equivalent addition `a + !v + !borrow`.
pub open spec fn sub_flags(a: u8, v: u8, borrow: bool) -> Flags {
    let diff = a - v - bit(borrow, 1);
    result_flags(wrap8(diff), diff < 0, a % 16 + (15 - v % 16) + (1 - bit(borrow, 1)) > 15)
}

/// A <- A + v + carry, all five flags written.
pub open spec fn add_model(s: CpuModel, v: u8, carry: bool) -> CpuModel {
    CpuModel { a: wrap8(s.a + v + bit(carry, 1)), cc: add_flags(s.a, v, carry), ..s }
}

/// A <- A - v - borrow, all five flags written.
pub open spec fn sub_model(s: CpuModel, v: u8, borrow: bool) -> CpuModel {
    CpuModel { a: wrap8(s.a - v - bit(borrow, 1)), cc: sub_flags(s.a, v, borrow), ..s }
}

/// Flags of an increment of `v`: CY kept, AC is the carry out of bit 3.
pub open spec fn inr_flags(f: Flags, v: u8) -> Flags {
    result_flags(wrap8(v + 1), f.cy, v % 16 + 1 > 15)
}

/// Flags of a decrement of `v`, computed as `v + 0xFF`: CY kept, AC is the
/// carry out of bit 3 of that addition.
pub open spec fn dcr_flags(f: Flags, v: u8) -> Flags {
    result_flags(wrap8(v - 1), f.cy, v % 16 + 15 > 15)
}

/// INR r: Z, S, P, AC written, CY kept.
pub open spec fn inr_model(s: CpuModel, r: Registers) -> CpuModel {
    CpuModel { cc: inr_flags(s.cc, s.reg(r)), ..s.with_reg(r, wrap8(s.reg(r) + 1)) }
}

/// DCR r: Z, S, P, AC written, CY kept.
pub open spec fn dcr_model(s: CpuModel, r: Registers) -> CpuModel {
    CpuModel { cc: dcr_flags(s.cc, s.reg(r)), ..s.with_reg(r, wrap8(s.reg(r) - 1)) }
}

/// INR M: the byte at HL incremented.
pub open spec fn inr_m_model(s: CpuModel) -> CpuModel {
    CpuModel { cc: inr_flags(s.cc, s.read(s.hl())), ..s.write(s.hl(), wrap8(s.read(s.hl()) + 1)) }
}

/// DCR M: the byte at HL decremented.
pub open spec fn dcr_m_model(s: CpuModel) -> CpuModel {
    CpuModel { cc: dcr_flags(s.cc, s.read(s.hl())), ..s.write(s.hl(), wrap8(s.read(s.hl()) - 1)) }
}

/// DAD: HL <- HL + rp, CY the carry out of bit 15, other flags kept.
pub open spec fn dad_model(s: CpuModel, rp: WithSPPairs) -> CpuModel {
    let sum = s.hl() + s.pair_sp(rp);
    CpuModel { cc: Flags { cy: sum > 0xffff, ..s.cc }, ..s.with_pair_sp(WithSPPairs::HL, wrap16(sum)) }
}

/// The add step shared by ADD, ADC, ADI and ACI.
fn add_to_a(cpu: &mut CPUState, value: u8, carry: bool)
    ensures
        final(cpu)@ == add_model(old(cpu)@, value, carry),
{
    let c: u8 = if carry { 1 } else { 0 };
    let answer: u16 = cpu.a as u16 + value as u16 + c as u16;
    let aux = cpu.a % 16 + value % 16 + c > 15;
    cpu.cc = arith_flags(answer, aux);
    cpu.a = (answer % 256) as u8;
}

/// The subtract step shared by SUB, SBB, SUI and SBI.
fn sub_from_a(cpu: &mut CPUState, value: u8, borrow: bool)
    ensures
        final(cpu)@ == sub_model(old(cpu)@, value, borrow),
{
    let b: u8 = if borrow { 1 } else { 0 };
    let answer: u16 = cpu.a as u16 + 256 - value as u16 - b as u16;
    proof {
        lemma_mod_add_multiples_vanish(cpu.a - value - b, 256);
    }
    let aux = cpu.a % 16 + (15 - value % 16) + (1 - b) > 15;
    cpu.cc = set_all_flags(answer, answer < 256, aux);
    cpu.a = (answer % 256) as u8;
}

/// ADD r / ADD M / ADC: A <- A + value + carry; a one-byte instruction,
/// slower when the operand comes from memory.
pub fn add(cpu: &mut CPUState, value: u8, carry: bool, from_memory: bool)
    ensures
        final(cpu)@ == add_model(old(cpu)@, value, carry).advance(1).spend(operand_cycles(from_memory)),
{
    add_to_a(cpu, value, carry);
    cpu.advance(1);
    cpu.spend(if from_memory { 7 } else { 4 });
}

/// ADI / ACI: A <- A + value + carry; a two-byte instruction.
pub fn adi(cpu: &mut CPUState, value: u8, carry: bool)
    ensures
        final(cpu)@ == add_model(old(cpu)@, value, carry).advance(2).spend(7),
{
    add_to_a(cpu, value, carry);
    cpu.advance(2);
    cpu.spend(7);
}

/// SUB r / SUB M / SBB: A <- A - value - borrow; a one-byte instruction,
/// slower when the operand comes from memory.
pub fn sub(cpu: &mut CPUState, value: u8, borrow: bool, from_memory: bool)
    ensures
        final(cpu)@ == sub_model(old(cpu)@, value, borrow).advance(1).spend(operand_cycles(from_memory)),
{
    sub_from_a(cpu, value, borrow);
    cpu.advance(1);
    cpu.spend(if from_memory { 7 } else { 4 });
}

/// SUI / SBI: A <- A - value - borrow; a two-byte instruction.
pub fn sui(cpu: &mut CPUState, value: u8, borrow: bool)
    ensures
        final(cpu)@ == sub_model(old(cpu)@, value, borrow).advance(2).spend(7),
{
    sub_from_a(cpu, value, borrow);
    cpu.advance(2);
    cpu.spend(7);
}

/// INR r: r <- r + 1; Z, S, P, AC written, CY kept.
pub fn inr_r(cpu: &mut CPUState, r: Registers)
    ensures
        final(cpu)@ == inr_model(old(cpu)@, r).advance(1).spend(5),
{
    let v = cpu.get_reg(r);
    let answer: u8 = v.wrapping_add(1);
    cpu.cc = set_all_flags(answer as u16, cpu.cc.cy, v % 16 == 15);
    cpu.set_reg(r, answer);
    cpu.advance(1);
    cpu.spend(5);
}

/// INR M: memory[HL] <- memory[HL] + 1; Z, S, P, AC written, CY kept.
pub fn inr_m(cpu: &mut CPUState)
    requires
        old(cpu).wf(),
    ensures
        final(cpu).wf(),
        final(cpu)@ == inr_m_model(old(cpu)@).advance(1).spend(10),
{
    let addr = cpu.get_hl();
    let v = cpu.read_mem(addr);
    let answer: u8 = v.wrapping_add(1);
    cpu.cc = set_all_flags(answer as u16, cpu.cc.cy, v % 16 == 15);
    write_memory(&mut cpu.memory, addr, answer);
    cpu.advance(1);
    cpu.spend(10);
}

/// DCR M: memory[HL] <- memory[HL] - 1; Z, S, P, AC written, CY kept.
pub fn dcr_m(cpu: &mut CPUState)
    requires
        old(cpu).wf(),
    ensures
        final(cpu).wf(),
        final(cpu)@ == dcr_m_model(old(cpu)@).advance(1).spend(10),
{
    let addr = cpu.get_hl();
    let v = cpu.read_mem(addr);
    let answer: u8 = v.wrapping_sub(1);
    cpu.cc = set_all_flags(answer as u16, cpu.cc.cy, v % 16 != 0);
    write_memory(&mut cpu.memory, addr, answer);
    cpu.advance(1);
    cpu.spend(10);
}

/// DCR r: r <- r - 1; Z, S, P, AC written, CY kept.
pub fn dcr_r(cpu: &mut CPUState, r: Registers)
    ensures
        final(cpu)@ == dcr_model(old(cpu)@, r).advance(1).spend(5),
{
    let v = cpu.get_reg(r);
    let answer: u8 = v.wrapping_sub(1);
    cpu.cc = set_all_flags(answer as u16, cpu.cc.cy, v % 16 != 0);
    cpu.set_reg(r, answer);
    cpu.advance(1);
    cpu.spend(5);
}

/// INX: a pair (or SP) incremented modulo 2^16; no flags.
pub fn inx(cpu: &mut CPUState, rp: WithSPPairs)
    ensures
        final(cpu)@ == old(cpu)@.with_pair_sp(rp, wrap16(old(cpu)@.pair_sp(rp) + 1)).advance(1).spend(5),
{
    let v = cpu.get_pair_sp(rp);
    cpu.set_pair_sp(rp, v.wrapping_add(1));
    cpu.advance(1);
    cpu.spend(5);
}

/// DCX: a pair (or SP) decremented modulo 2^16; no flags.
pub fn dcx(cpu: &mut CPUState, rp: WithSPPairs)
    ensures
        final(cpu)@ == old(cpu)@.with_pair_sp(rp, wrap16(old(cpu)@.pair_sp(rp) - 1)).advance(1).spend(5),
{
    let v = cpu.get_pair_sp(rp);
    let w = v.wrapping_sub(1);
    assert(w == wrap16(v - 1));
    cpu.set_pair_sp(rp, w);
    cpu.advance(1);
    cpu.spend(5);
}

/// DAD: HL <- HL + rp modulo 2^16; only CY written.
pub fn dad(cpu: &mut CPUState, rp: WithSPPairs)
    ensures
        final(cpu)@ == dad_model(old(cpu)@, rp).advance(1).spend(10),
{
    let hl = cpu.get_hl();
    let v = cpu.get_pair_sp(rp);
    let sum: u32 = hl as u32 + v as u32;
    cpu.set_pair_sp(WithSPPairs::HL, (sum % 0x10000) as u16);
    cpu.cc.cy = sum > 0xffff;
    cpu.advance(1);
    cpu.spend(10);
}

} // verus!

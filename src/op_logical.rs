use vstd::prelude::*;

use crate::condition_codes::Flags;
use crate::cpu::{operand_cycles, CPUState, CpuModel};
use crate::helpers::{arith_flags_logs, bit, result_flags};
use crate::op_arithmetic::sub_flags;

verus! {

/// AND: A <- A & v; CY cleared, AC is bit 3 of A | v.
pub open spec fn and_model(s: CpuModel, v: u8) -> CpuModel {
    CpuModel { a: s.a & v, cc: result_flags(s.a & v, false, ((s.a | v) / 8) % 2 == 1), ..s }
}

/// XOR: A <- A ^ v; CY and AC cleared.
pub open spec fn xor_model(s: CpuModel, v: u8) -> CpuModel {
    CpuModel { a: s.a ^ v, cc: result_flags(s.a ^ v, false, false), ..s }
}

/// OR: A <- A | v; CY and AC cleared.
pub open spec fn or_model(s: CpuModel, v: u8) -> CpuModel {
    CpuModel { a: s.a | v, cc: result_flags(s.a | v, false, false), ..s }
}

/// Compare: the flags of A - v, with A kept.
pub open spec fn cmp_model(s: CpuModel, v: u8) -> CpuModel {
    CpuModel { cc: sub_flags(s.a, v, false), ..s }
}

/// Only CY replaced.
pub open spec fn with_carry(s: CpuModel, cy: bool) -> CpuModel {
    CpuModel { cc: Flags { cy: cy, ..s.cc }, ..s }
}

/// RLC: A rotated left, bit 7 into bit 0 and into CY.
pub open spec fn rlc_model(s: CpuModel) -> CpuModel {
    CpuModel { a: ((s.a * 2) % 256 + s.a / 128) as u8, ..with_carry(s, s.a >= 128) }
}

/// RRC: A rotated right, bit 0 into bit 7 and into CY.
pub open spec fn rrc_model(s: CpuModel) -> CpuModel {
    CpuModel { a: (s.a / 2 + (s.a % 2) * 128) as u8, ..with_carry(s, s.a % 2 == 1) }
}

/// RAL: A rotated left through CY.
pub open spec fn ral_model(s: CpuModel) -> CpuModel {
    CpuModel { a: ((s.a * 2) % 256 + bit(s.cc.cy, 1)) as u8, ..with_carry(s, s.a >= 128) }
}

/// RAR: A rotated right through CY.
pub open spec fn rar_model(s: CpuModel) -> CpuModel {
    CpuModel { a: (s.a / 2 + bit(s.cc.cy, 128)) as u8, ..with_carry(s, s.a % 2 == 1) }
}

fn and_a(cpu: &mut CPUState, value: u8)
    ensures
        final(cpu)@ == and_model(old(cpu)@, value),
{
    let aux = ((cpu.a | value) / 8) % 2 == 1;
    cpu.a = cpu.a & value;
    cpu.cc = arith_flags_logs(cpu.a, aux);
}

fn xor_a(cpu: &mut CPUState, value: u8)
    ensures
        final(cpu)@ == xor_model(old(cpu)@, value),
{
    cpu.a = cpu.a ^ value;
    cpu.cc = arith_flags_logs(cpu.a, false);
}

fn or_a(cpu: &mut CPUState, value: u8)
    ensures
        final(cpu)@ == or_model(old(cpu)@, value),
{
    cpu.a = cpu.a | value;
    cpu.cc = arith_flags_logs(cpu.a, false);
}

fn compare_a(cpu: &mut CPUState, value: u8)
    ensures
        final(cpu)@ == cmp_model(old(cpu)@, value),
{
    let answer: u16 = cpu.a as u16 + 256 - value as u16;
    let aux = cpu.a % 16 + (15 - value % 16) + 1 > 15;
    cpu.cc = crate::helpers::set_all_flags(answer, answer < 256, aux);
}

/// ANA r / ANA M; a one-byte instruction, slower when
/// the operand comes from memory.
pub fn ana(cpu: &mut CPUState, value: u8, from_memory: bool)
    ensures
        final(cpu)@ == and_model(old(cpu)@, value).advance(1).spend(operand_cycles(from_memory)),
{
    and_a(cpu, value);
    cpu.advance(1);
    cpu.spend(if from_memory { 7 } else { 4 });
}

/// ANI; a two-byte instruction.
pub fn ani(cpu: &mut CPUState, value: u8)
    ensures
        final(cpu)@ == and_model(old(cpu)@, value).advance(2).spend(7),
{
    and_a(cpu, value);
    cpu.advance(2);
    cpu.spend(7);
}

/// XRA r / XRA M; a one-byte instruction, slower when
/// the operand comes from memory.
pub fn xra(cpu: &mut CPUState, value: u8, from_memory: bool)
    ensures
        final(cpu)@ == xor_model(old(cpu)@, value).advance(1).spend(operand_cycles(from_memory)),
{
    xor_a(cpu, value);
    cpu.advance(1);
    cpu.spend(if from_memory { 7 } else { 4 });
}

/// XRI; a two-byte instruction.
pub fn xri(cpu: &mut CPUState, value: u8)
    ensures
        final(cpu)@ == xor_model(old(cpu)@, value).advance(2).spend(7),
{
    xor_a(cpu, value);
    cpu.advance(2);
    cpu.spend(7);
}

/// ORA r / ORA M; a one-byte instruction, slower when
/// the operand comes from memory.
pub fn ora(cpu: &mut CPUState, value: u8, from_memory: bool)
    ensures
        final(cpu)@ == or_model(old(cpu)@, value).advance(1).spend(operand_cycles(from_memory)),
{
    or_a(cpu, value);
    cpu.advance(1);
    cpu.spend(if from_memory { 7 } else { 4 });
}

/// ORI; a two-byte instruction.
pub fn ori(cpu: &mut CPUState, value: u8)
    ensures
        final(cpu)@ == or_model(old(cpu)@, value).advance(2).spend(7),
{
    or_a(cpu, value);
    cpu.advance(2);
    cpu.spend(7);
}

/// CMP r / CMP M; a one-byte instruction, slower when
/// the operand comes from memory.
pub fn cmp(cpu: &mut CPUState, value: u8, from_memory: bool)
    ensures
        final(cpu)@ == cmp_model(old(cpu)@, value).advance(1).spend(operand_cycles(from_memory)),
{
    compare_a(cpu, value);
    cpu.advance(1);
    cpu.spend(if from_memory { 7 } else { 4 });
}

/// CPI; a two-byte instruction.
pub fn cpi(cpu: &mut CPUState, value: u8)
    ensures
        final(cpu)@ == cmp_model(old(cpu)@, value).advance(2).spend(7),
{
    compare_a(cpu, value);
    cpu.advance(2);
    cpu.spend(7);
}

/// RLC.
pub fn rlc(cpu: &mut CPUState)
    ensures
        final(cpu)@ == rlc_model(old(cpu)@).advance(1).spend(4),
{
    let a = cpu.a;
    cpu.cc.cy = a >= 128;
    cpu.a = ((a as u16 * 2) % 256 + a as u16 / 128) as u8;
    cpu.advance(1);
    cpu.spend(4);
}

/// RRC.
pub fn rrc(cpu: &mut CPUState)
    ensures
        final(cpu)@ == rrc_model(old(cpu)@).advance(1).spend(4),
{
    let a = cpu.a;
    cpu.cc.cy = a % 2 == 1;
    cpu.a = a / 2 + (a % 2) * 128;
    cpu.advance(1);
    cpu.spend(4);
}

/// RAR.
pub fn rar(cpu: &mut CPUState)
    ensures
        final(cpu)@ == rar_model(old(cpu)@).advance(1).spend(4),
{
    let a = cpu.a;
    let high: u8 = if cpu.cc.cy { 128 } else { 0 };
    cpu.cc.cy = a % 2 == 1;
    cpu.a = a / 2 + high;
    cpu.advance(1);
    cpu.spend(4);
}

/// RAL.
pub fn ral(cpu: &mut CPUState)
    ensures
        final(cpu)@ == ral_model(old(cpu)@).advance(1).spend(4),
{
    let a = cpu.a;
    let low: u16 = if cpu.cc.cy { 1 } else { 0 };
    cpu.cc.cy = a >= 128;
    cpu.a = ((a as u16 * 2) % 256 + low) as u8;
    cpu.advance(1);
    cpu.spend(4);
}

/// CMA: A <- !A; no flags.
pub fn cma(cpu: &mut CPUState)
    ensures
        final(cpu)@ == (CpuModel { a: (255 - old(cpu).a) as u8, ..old(cpu)@ }).advance(1).spend(4),
{
    cpu.a = 255 - cpu.a;
    cpu.advance(1);
    cpu.spend(4);
}

/// CMC: CY <- !CY.
pub fn cmc(cpu: &mut CPUState)
    ensures
        final(cpu)@ == with_carry(old(cpu)@, !old(cpu).cc.cy).advance(1).spend(4),
{
    cpu.cc.cy = !cpu.cc.cy;
    cpu.advance(1);
    cpu.spend(4);
}

/// STC: CY <- 1.
pub fn stc(cpu: &mut CPUState)
    ensures
        final(cpu)@ == with_carry(old(cpu)@, true).advance(1).spend(4),
{
    cpu.cc.cy = true;
    cpu.advance(1);
    cpu.spend(4);
}

} // verus!

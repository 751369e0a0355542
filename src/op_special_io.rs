use vstd::prelude::*;

use crate::cpu::{wrap8, CPUState, CpuModel, InterruptEnable};
use crate::helpers::{bit, result_flags, set_all_flags};

verus! {

/// DAA. When the low digit is above 9 or AC is set, 6 is added and AC
/// becomes the carry out of bit 3. Then, when the high digit of the result
/// is above 9 or CY is set, 0x60 is added and a carry out of bit 7 sets CY.
/// Z, S and P come from the final A.
pub open spec fn daa_model(s: CpuModel) -> CpuModel {
    let low_fix = s.a % 16 > 9 || s.cc.ac;
    let ac = if low_fix {
        s.a % 16 + 6 > 15
    } else {
        s.cc.ac
    };
    let a1 = (s.a + bit(low_fix, 6)) % 256;
    let high_fix = a1 / 16 > 9 || s.cc.cy;
    let a2 = a1 + bit(high_fix, 0x60);
    let cy = if high_fix {
        s.cc.cy || a2 > 255
    } else {
        s.cc.cy
    };
    CpuModel { a: wrap8(a2), cc: result_flags(wrap8(a2), cy, ac), ..s }
}

/// EI: the latch becomes pending; it is enabled once the next instruction retires.
pub fn ei(cpu: &mut CPUState)
    ensures
        final(cpu)@ == (CpuModel { int_enable: InterruptEnable::Pending, ..old(cpu)@ }).advance(1).spend(4),
{
    cpu.int_enable = InterruptEnable::Pending;
    cpu.advance(1);
    cpu.spend(4);
}

/// DI: the latch is cleared.
pub fn di(cpu: &mut CPUState)
    ensures
        final(cpu)@ == (CpuModel { int_enable: InterruptEnable::Disabled, ..old(cpu)@ }).advance(1).spend(4),
{
    cpu.int_enable = InterruptEnable::Disabled;
    cpu.advance(1);
    cpu.spend(4);
}

/// HLT: the processor stops fetching until an interrupt is accepted.
pub fn hlt(cpu: &mut CPUState)
    ensures
        final(cpu)@ == (CpuModel { halted: true, ..old(cpu)@ }).advance(1).spend(7),
{
    cpu.halted = true;
    cpu.advance(1);
    cpu.spend(7);
}

/// IN port: A <- the byte the port supplied.
pub fn op_in(cpu: &mut CPUState, value: u8)
    ensures
        final(cpu)@ == (CpuModel { a: value, ..old(cpu)@ }).advance(2).spend(10),
{
    cpu.a = value;
    cpu.advance(2);
    cpu.spend(10);
}

/// OUT port: A goes to the port; the processor only moves past the instruction.
pub fn out(cpu: &mut CPUState)
    ensures
        final(cpu)@ == old(cpu)@.advance(2).spend(10),
{
    cpu.advance(2);
    cpu.spend(10);
}

/// NOP.
pub fn nop(cpu: &mut CPUState)
    ensures
        final(cpu)@ == old(cpu)@.advance(1).spend(4),
{
    cpu.advance(1);
    cpu.spend(4);
}

/// DAA: decimal adjust of A.
pub fn daa(cpu: &mut CPUState)
    ensures
        final(cpu)@ == daa_model(old(cpu)@).advance(1).spend(4),
{
    let a = cpu.a;
    let low_fix = a % 16 > 9 || cpu.cc.ac;
    let mut ac = cpu.cc.ac;
    let mut a1: u16 = a as u16;
    if low_fix {
        ac = a % 16 + 6 > 15;
        a1 = a1 + 6;
    }
    a1 = a1 % 256;
    let high_fix = a1 / 16 > 9 || cpu.cc.cy;
    let mut cy = cpu.cc.cy;
    let mut a2: u16 = a1;
    if high_fix {
        a2 = a1 + 0x60;
        cy = cy || a2 > 255;
    }
    cpu.cc = set_all_flags(a2, cy, ac);
    cpu.a = (a2 % 256) as u8;
    cpu.advance(1);
    cpu.spend(4);
}

} // verus!

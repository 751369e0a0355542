use vstd::prelude::*;

use crate::cpu::{
    alu_model, execute_model, group0_model, group3_model, hi_byte, lo_byte, mov_model, operand,
    operand_cycles,
    step_model, word, wrap16, wrap8, CpuModel, InterruptEnable, StackPairs, WithSPPairs,
};
use crate::helpers::{bit, even_parity, flags_of_psw, interrupt_model, psw_of};
use crate::interrupts::{port_read, port_write};
use crate::invaders::MachineModel;
use crate::op_arithmetic::{add_flags, add_model, dcr_model, inr_model, sub_flags, sub_model};
use crate::op_data_transfer::xchg_model;
use crate::op_stack::{pop_psw_model, psw_word};

verus! {

/// The pair of LXI that names the same registers as a pair of PUSH and POP.
pub open spec fn lxi_pair(rp: StackPairs) -> WithSPPairs {
    match rp {
        StackPairs::BC => WithSPPairs::BC,
        StackPairs::DE => WithSPPairs::DE,
        StackPairs::HL => WithSPPairs::HL,
    }
}

/// The flags of ADD, ADC, SUB and SBB depend on A, the operand and the
/// incoming carry alone: Z, S and P describe the result byte (P its even
/// parity), CY is the carry or borrow out of bit 7, AC the carry out of bit 3.
pub proof fn law_arith_flags(s: CpuModel, v: u8, c: bool)
    ensures
        ({
            let t = add_model(s, v, c);
            &&& t.a == wrap8(s.a + v + bit(c, 1))
            &&& t.cc.z == (t.a == 0)
            &&& t.cc.s == (t.a >= 128)
            &&& t.cc.p == even_parity(t.a)
            &&& t.cc.cy == (s.a + v + bit(c, 1) > 255)
            &&& t.cc.ac == (s.a % 16 + v % 16 + bit(c, 1) > 15)
        }),
        ({
            let t = sub_model(s, v, c);
            &&& t.a == wrap8(s.a - v - bit(c, 1))
            &&& t.cc.z == (t.a == 0)
            &&& t.cc.s == (t.a >= 128)
            &&& t.cc.p == even_parity(t.a)
            &&& t.cc.cy == (v + bit(c, 1) > s.a)
        }),
{
}

/// INR and DCR write Z, S and P from the new value and leave CY alone.
pub proof fn law_inr_dcr_keep_carry(s: CpuModel, r: crate::cpu::Registers)
    ensures
        inr_model(s, r).cc.cy == s.cc.cy,
        dcr_model(s, r).cc.cy == s.cc.cy,
        inr_model(s, r).cc.z == (inr_model(s, r).reg(r) == 0),
        dcr_model(s, r).cc.z == (dcr_model(s, r).reg(r) == 0),
        inr_model(s, r).cc.p == even_parity(inr_model(s, r).reg(r)),
        dcr_model(s, r).cc.p == even_parity(dcr_model(s, r).reg(r)),
{
}

proof fn lemma_stack_slots(sp: u16)
    ensures
        wrap16(wrap16(sp - 2) + 1) == wrap16(sp - 1),
        wrap16(sp - 2) != wrap16(sp - 1),
        wrap16(wrap16(sp - 2) + 2) == sp,
{
}

proof fn lemma_word_bytes(hi: u8, lo: u8)
    ensures
        hi_byte(word(hi, lo)) == hi,
        lo_byte(word(hi, lo)) == lo,
        word(hi_byte(word(hi, lo)), lo_byte(word(hi, lo))) == word(hi, lo),
{
}

proof fn lemma_split_word(v: u16)
    ensures
        word(hi_byte(v), lo_byte(v)) == v,
{
}

/// PUSH PSW then POP PSW gives back A and all five flags and leaves SP where
/// it was; the flags byte on the stack has bit 1 set and bits 3 and 5 clear.
pub proof fn law_psw_round_trip(s: CpuModel)
    requires
        s.wf(),
    ensures
        ({
            let pushed = s.push(psw_word(s)).advance(1);
            let popped = pop_psw_model(pushed).advance(1);
            let f = pushed.read(pushed.sp);
            &&& popped.a == s.a
            &&& popped.cc == s.cc
            &&& popped.sp == s.sp
            &&& (f / 2) % 2 == 1
            &&& (f / 8) % 2 == 0
            &&& (f / 32) % 2 == 0
        }),
{
    lemma_stack_slots(s.sp);
    lemma_word_bytes(s.a, psw_of(s.cc));
    let f = psw_of(s.cc);
    assert(flags_of_psw(f) == s.cc);
}

/// LXI rp, v; PUSH rp; POP rp2 leaves v in rp2 and SP where it was.
pub proof fn law_stack_round_trip(s: CpuModel, rp: StackPairs, rp2: StackPairs, v: u16)
    requires
        s.wf(),
    ensures
        ({
            let loaded = s.with_pair_sp(lxi_pair(rp), v).advance(3);
            let pushed = loaded.push(loaded.pair(rp)).advance(1);
            let popped = pushed.drop_top().with_pair(rp2, pushed.top()).advance(1);
            &&& popped.pair(rp2) == v
            &&& popped.sp == s.sp
        }),
{
    lemma_stack_slots(s.sp);
    lemma_split_word(v);
    lemma_word_bytes(hi_byte(v), lo_byte(v));
}

/// XCHG twice changes nothing.
pub proof fn law_xchg_involution(s: CpuModel)
    ensures
        xchg_model(xchg_model(s)) == s,
{
}

/// After v1 and then v2 go out on port 4 and k on port 2, port 3 reads the
/// eight bits of (v2 << 8) | v1 that start 8 - k bits from its bottom.
pub proof fn law_shift_register(m: MachineModel, v1: u8, v2: u8, k: u8)
    requires
        k < 8,
    ensures
        port_read(port_write(port_write(port_write(m, 4, v1), 4, v2), 2, k), 3) == (((((v2 as u16)
            << 8u16) | (v1 as u16)) >> ((8 - k) as u16)) & 0xff) as u8,
{
    assert(((v2 as u16) << 8u16) | (v1 as u16) == (v2 as u16) * 256 + (v1 as u16)) by (bit_vector);
    let w = ((v2 as u16) << 8u16) | (v1 as u16);
    let sh = (8 - k) as u16;
    assert((w >> sh) & 0xff == (w >> sh) % 256) by (bit_vector);
}

/// An interrupt accepted with PC = p leaves p's high byte at SP-1 and its low
/// byte at SP-2, lowers SP by 2, clears the latch and jumps to 8n.
pub proof fn law_interrupt_flow(s: CpuModel, n: u8)
    requires
        s.wf(),
        s.int_enable == InterruptEnable::Enabled,
        n < 8,
    ensures
        ({
            let t = interrupt_model(s, n);
            &&& t.read(wrap16(s.sp - 1)) == (s.pc >> 8u16) as u8
            &&& t.read(wrap16(s.sp - 2)) == (s.pc & 0xff) as u8
            &&& t.sp == wrap16(s.sp - 2)
            &&& t.int_enable == InterruptEnable::Disabled
            &&& t.pc == 8 * n
        }),
{
    lemma_stack_slots(s.sp);
    let p = s.pc;
    assert(p >> 8u16 == p / 256) by (bit_vector);
    assert(p & 0xff == p % 256) by (bit_vector);
}

proof fn lemma_group0_keeps_latch(s: CpuModel, y: u8, z: u8, b1: u8, b2: u8)
    ensures
        group0_model(s, y, z, b1, b2).int_enable == s.int_enable,
        group0_model(s, y, z, b1, b2).halted == s.halted,
{
}

proof fn lemma_mov_alu_keep_latch(s: CpuModel, y: u8, z: u8)
    ensures
        mov_model(s, y, z).int_enable == s.int_enable,
        alu_model(s, y, operand(s, z)).advance(1).int_enable == s.int_enable,
{
}

proof fn lemma_group3_keeps_latch(s: CpuModel, y: u8, z: u8, b1: u8, b2: u8, port_in: u8)
    requires
        y < 8,
        !(z == 3 && (y == 6 || y == 7)),
    ensures
        group3_model(s, y, z, b1, b2, port_in).int_enable == s.int_enable,
{
}

/// Right after EI (run with the latch not already pending) the latch is only
/// pending, so an interrupt offered then is refused.
pub proof fn law_ei_pending(s: CpuModel, port_in: u8)
    requires
        s.wf(),
        !s.halted,
        s.read(s.pc) == 0xfb,
        s.int_enable != InterruptEnable::Pending,
    ensures
        step_model(s, port_in).int_enable == InterruptEnable::Pending,
        interrupt_model(step_model(s, port_in), 1) == step_model(s, port_in),
{
    let op = s.read(s.pc);
    let b1 = s.read(wrap16(s.pc + 1));
    let b2 = s.read(wrap16(s.pc + 2));
    assert(op / 64 == 3 && (op / 8) % 8 == 7 && op % 8 == 3);
    assert(execute_model(s, op, b1, b2, port_in) == group3_model(s, 7, 3, b1, b2, port_in)) by {
        reveal(execute_model);
    }
}

proof fn lemma_execute_keeps_latch(s: CpuModel, op: u8, b1: u8, b2: u8, port_in: u8)
    requires
        op != 0xf3,
        op != 0xfb,
    ensures
        execute_model(s, op, b1, b2, port_in).int_enable == s.int_enable,
{
    let x = op / 64;
    let y = (op / 8) % 8;
    let z = op % 8;
    let t = execute_model(s, op, b1, b2, port_in);
    assert(op == (op / 64) * 64 + ((op / 8) % 8) * 8 + op % 8) by (bit_vector);
    if x == 0 {
        assert(t == group0_model(s, y, z, b1, b2)) by {
            reveal(execute_model);
        }
        lemma_group0_keeps_latch(s, y, z, b1, b2);
    } else if x == 1 {
        assert(t == mov_model(s, y, z)) by {
            reveal(execute_model);
        }
        lemma_mov_alu_keep_latch(s, y, z);
    } else if x == 2 {
        assert(t == alu_model(s, y, operand(s, z)).advance(1).spend(operand_cycles(z == 6))) by {
            reveal(execute_model);
        }
        lemma_mov_alu_keep_latch(s, y, z);
    } else {
        assert(t == group3_model(s, y, z, b1, b2, port_in)) by {
            reveal(execute_model);
        }
        assert(!(z == 3 && (y == 6 || y == 7)));
        lemma_group3_keeps_latch(s, y, z, b1, b2, port_in);
    }
}

/// A pending latch becomes enabled once the next instruction retires, unless
/// that instruction is DI (which disables it) or EI.
pub proof fn law_pending_then_enabled(s: CpuModel, port_in: u8)
    requires
        s.wf(),
        !s.halted,
        s.int_enable == InterruptEnable::Pending,
        s.read(s.pc) != 0xf3,
        s.read(s.pc) != 0xfb,
    ensures
        step_model(s, port_in).int_enable == InterruptEnable::Enabled,
{
    lemma_execute_keeps_latch(
        s,
        s.read(s.pc),
        s.read(wrap16(s.pc + 1)),
        s.read(wrap16(s.pc + 2)),
        port_in,
    );
}

/// ADC and SBB run through the executor add or subtract the operand and the
/// incoming carry together, so a carry out of an operand of 0xFF is not lost.
pub proof fn law_carry_ops_through_executor(s: CpuModel)
    requires
        s.wf(),
        !s.halted,
        (0x88 <= s.read(s.pc) <= 0x8f) || (0x98 <= s.read(s.pc) <= 0x9f),
    ensures
        ({
            let op = s.read(s.pc);
            let v = operand(s, op % 8);
            let t = step_model(s, 0);
            &&& op <= 0x8f ==> t.a == wrap8(s.a + v + bit(s.cc.cy, 1)) && t.cc == add_flags(
                s.a,
                v,
                s.cc.cy,
            )
            &&& op >= 0x98 ==> t.a == wrap8(s.a - v - bit(s.cc.cy, 1)) && t.cc == sub_flags(
                s.a,
                v,
                s.cc.cy,
            )
            &&& t.pc == wrap16(s.pc + 1)
        }),
{
    let op = s.read(s.pc);
    let b1 = s.read(wrap16(s.pc + 1));
    let b2 = s.read(wrap16(s.pc + 2));
    let y = (op / 8) % 8;
    let z = op % 8;
    assert(op / 64 == 2);
    assert(op <= 0x8f ==> y == 1);
    assert(op >= 0x98 ==> y == 3);
    assert(execute_model(s, op, b1, b2, 0) == alu_model(s, y, operand(s, z)).advance(1).spend(
        operand_cycles(z == 6),
    )) by {
        reveal(execute_model);
    }
}

} // verus!

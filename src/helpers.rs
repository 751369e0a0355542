use vstd::prelude::*;

use crate::condition_codes::Flags;
use crate::cpu::{word, CPUState, CpuModel, InterruptEnable};

verus! {

/// The number of set bits of `n`.
pub open spec fn bit_count(n: nat) -> nat
    decreases n,
{
    if n == 0 {
        0
    } else {
        (n % 2) + bit_count(n / 2)
    }
}

/// `v` has an even number of set bits.
pub open spec fn even_parity(v: u8) -> bool {
    bit_count(v as nat) % 2 == 0
}

/// Z, S and P taken from a result byte, beside the given CY and AC.
pub open spec fn result_flags(v: u8, cy: bool, ac: bool) -> Flags {
    Flags { z: v == 0, s: v >= 128, p: even_parity(v), cy: cy, ac: ac }
}

pub open spec fn bit(b: bool, weight: int) -> int {
    if b {
        weight
    } else {
        0
    }
}

/// The flags packed into a byte: S Z 0 AC 0 P 1 CY, bit 7 first.
pub open spec fn psw_of(f: Flags) -> u8 {
    (bit(f.s, 128) + bit(f.z, 64) + bit(f.ac, 16) + bit(f.p, 4) + 2 + bit(f.cy, 1)) as u8
}

/// The flags read back from a packed byte; bits 1, 3 and 5 are ignored.
pub open spec fn flags_of_psw(b: u8) -> Flags {
    Flags {
        s: (b / 128) % 2 == 1,
        z: (b / 64) % 2 == 1,
        ac: (b / 16) % 2 == 1,
        p: (b / 4) % 2 == 1,
        cy: b % 2 == 1,
    }
}

/// The state after an interrupt that restarts at vector `8 * n`. Only an
/// enabled latch accepts it; otherwise nothing changes.
pub open spec fn interrupt_model(s: CpuModel, n: u8) -> CpuModel {
    if s.int_enable == InterruptEnable::Enabled {
        CpuModel {
            pc: (8 * n) as u16,
            int_enable: InterruptEnable::Disabled,
            halted: false,
            cycles: 11,
            ..s.push(s.pc)
        }
    } else {
        s
    }
}

proof fn lemma_bit_count_le(n: nat)
    ensures
        bit_count(n) <= n,
    decreases n,
{
    if n > 0 {
        lemma_bit_count_le(n / 2);
    }
}

/// 1 when the low byte of `byte` has even parity, else 0.
pub fn parity(byte: u16) -> (r: u16)
    ensures
        r == (if even_parity((byte % 256) as u8) { 1u16 } else { 0u16 }),
{
    let low: u16 = byte % 256;
    let mut y: u16 = low;
    let mut ones: u16 = 0;
    proof {
        lemma_bit_count_le(low as nat);
    }
    while y > 0
        invariant
            ones + bit_count(y as nat) == bit_count(low as nat),
            bit_count(low as nat) <= low < 256,
        decreases y,
    {
        ones = ones + y % 2;
        y = y / 2;
    }
    if ones % 2 == 0 {
        1
    } else {
        0
    }
}

/// Z, S and P from the low byte of `answer`, with CY and AC as given.
pub fn set_all_flags(answer: u16, carry: bool, aux: bool) -> (r: Flags)
    ensures
        r == result_flags((answer % 256) as u8, carry, aux),
{
    let v: u16 = answer % 256;
    Flags { z: v == 0, s: v >= 128, p: parity(v) == 1, cy: carry, ac: aux }
}

/// Flags of an add form: CY is the carry out of the low byte of `answer`.
pub fn arith_flags(answer: u16, aux: bool) -> (r: Flags)
    ensures
        r == result_flags((answer % 256) as u8, answer > 0xff, aux),
{
    set_all_flags(answer, answer > 0xff, aux)
}

/// Flags of a logic operation: CY cleared.
pub fn arith_flags_logs(answer: u8, aux: bool) -> (r: Flags)
    ensures
        r == result_flags(answer, false, aux),
{
    set_all_flags(answer as u16, false, aux)
}

/// Unpacks the flags byte of POP PSW.
pub fn set_psw(psw: u8) -> (r: Flags)
    ensures
        r == flags_of_psw(psw),
{
    Flags {
        s: (psw / 128) % 2 == 1,
        z: (psw / 64) % 2 == 1,
        ac: (psw / 16) % 2 == 1,
        p: (psw / 4) % 2 == 1,
        cy: psw % 2 == 1,
    }
}

/// Packs the flags into the byte that PUSH PSW stores.
pub fn psw_byte(f: Flags) -> (r: u8)
    ensures
        r == psw_of(f),
{
    let mut v: u8 = 2;
    if f.s {
        v = v + 128;
    }
    if f.z {
        v = v + 64;
    }
    if f.ac {
        v = v + 16;
    }
    if f.p {
        v = v + 4;
    }
    if f.cy {
        v = v + 1;
    }
    v
}

/// The 16-bit value of a high byte and a low byte.
pub fn make_word(hi: u8, lo: u8) -> (r: u16)
    ensures
        r == word(hi, lo),
{
    hi as u16 * 256 + lo as u16
}

/// The byte at the address held in the pair `hr:lr`.
pub fn get_value_memory(memory: &Vec<u8>, hr: u8, lr: u8) -> (r: u8)
    requires
        memory@.len() == crate::cpu::MEMORY_SIZE,
    ensures
        r == memory@[word(hr, lr) as int],
{
    memory[make_word(hr, lr) as usize]
}

/// Stores `value` at `address`.
pub fn write_memory(memory: &mut Vec<u8>, address: u16, value: u8)
    requires
        old(memory)@.len() == crate::cpu::MEMORY_SIZE,
    ensures
        final(memory)@ == old(memory)@.update(address as int, value),
{
    memory.set(address as usize, value);
}

/// Pops the word on top of the stack: low byte from SP, high byte from SP+1.
pub fn pop_from_stack(cpu: &mut CPUState) -> (r: u16)
    requires
        old(cpu).wf(),
    ensures
        final(cpu).wf(),
        r == old(cpu)@.top(),
        final(cpu)@ == old(cpu)@.drop_top(),
{
    let lo = cpu.memory[cpu.sp as usize];
    let hi = cpu.memory[cpu.sp.wrapping_add(1) as usize];
    cpu.sp = cpu.sp.wrapping_add(2);
    make_word(hi, lo)
}

/// Pushes `addr`: high byte at SP-1, low byte at SP-2, SP lowered by 2.
pub fn push_to_stack_addr(cpu: &mut CPUState, addr: u16)
    requires
        old(cpu).wf(),
    ensures
        final(cpu).wf(),
        final(cpu)@ == old(cpu)@.push(addr),
{
    let hi_at = cpu.sp.wrapping_sub(1);
    let lo_at = cpu.sp.wrapping_sub(2);
    write_memory(&mut cpu.memory, hi_at, (addr / 256) as u8);
    write_memory(&mut cpu.memory, lo_at, (addr % 256) as u8);
    cpu.sp = lo_at;
}

/// Accepts an interrupt that restarts at `8 * interrupt_num` when the latch
/// is enabled: pushes PC, clears the latch and the halt, takes 11 cycles.
/// With the latch not enabled the interrupt is dropped.
pub fn generate_interrupt(cpu: &mut CPUState, interrupt_num: u8)
    requires
        old(cpu).wf(),
        interrupt_num < 8,
    ensures
        final(cpu).wf(),
        final(cpu)@ == interrupt_model(old(cpu)@, interrupt_num),
{
    if cpu.int_enable == InterruptEnable::Enabled {
        let pc = cpu.pc;
        push_to_stack_addr(cpu, pc);
        cpu.pc = 8 * interrupt_num as u16;
        cpu.int_enable = InterruptEnable::Disabled;
        cpu.halted = false;
        cpu.cycles = 11;
    }
}

} // verus!

use vstd::prelude::*;

use crate::condition_codes::Flags;
use crate::op_arithmetic;
use crate::op_arithmetic::{
    adi, dad, dad_model, dcr_m, dcr_m_model, dcr_model, dcr_r, dcx, inr_m, inr_m_model, inr_model,
    inr_r, inx, sub_model, sui, add_model,
};
use crate::op_branch::{
    call, call_if_model, call_model, cc, cm, cnc, cnz, cond_holds, condition, cp, cpe, cpo, cz, jc,
    jm, jmp, jnc, jnz, jp, jpe, jpo, jump_model, jz, pchl, rc, ret, ret_if_model, ret_model, rm,
    rnc, rnz, rp, rpe, rpo, rst, rst_model, rz,
};
use crate::op_data_transfer::{
    lda, ldax, lhld, lhld_model, lxi, mov_m_r, mov_r_m, mov_r_r, mvi_m, mvi_r, shld, shld_model,
    sta, stax, xchg, xchg_model,
};
use crate::op_logical::{
    and_model, ana, ani, cma, cmc, cmp, cmp_model, cpi, or_model, ora, ori, ral, ral_model, rar,
    rar_model, rlc, rlc_model, rrc, rrc_model, stc, with_carry, xor_model, xra, xri,
};
use crate::op_special_io::{daa, daa_model, di, ei, hlt, nop, op_in, out};
use crate::op_stack::{pop, pop_psw, pop_psw_model, psw_word, push, push_psw, sphl, xthl, xthl_model};

verus! {

/// Size of the 8080 address space in bytes.
pub const MEMORY_SIZE: usize = 0x10000;

/// Register pairs that PUSH, POP, LDAX and STAX name.
#[derive(Clone, Copy, Debug, PartialEq, Eq, Structural)]
pub enum StackPairs {
    BC,
    DE,
    HL,
}

/// Register pairs that LXI, INX, DCX and DAD name: the three data pairs and SP.
#[derive(Clone, Copy, Debug, PartialEq, Eq, Structural)]
pub enum WithSPPairs {
    BC,
    DE,
    HL,
    SP,
}

/// The seven 8-bit data registers.
#[derive(Clone, Copy, Debug, PartialEq, Eq, Structural)]
pub enum Registers {
    A,
    B,
    C,
    D,
    E,
    H,
    L,
}

/// The interrupt-enable latch. EI moves it to `Pending`; the next instruction
/// to retire moves `Pending` to `Enabled`.
#[derive(Clone, Copy, Debug, PartialEq, Eq, Structural)]
pub enum InterruptEnable {
    Disabled,
    Pending,
    Enabled,
}

/// The complete state of the processor, memory included.
#[derive(Debug)]
pub struct CPUState {
    pub a: u8,
    pub b: u8,
    pub c: u8,
    pub d: u8,
    pub e: u8,
    pub h: u8,
    pub l: u8,
    pub sp: u16,
    pub pc: u16,
    /// Cycles taken by the most recent instruction.
    pub cycles: u8,
    pub memory: Vec<u8>,
    pub cc: Flags,
    pub int_enable: InterruptEnable,
    /// Set by HLT; cleared when an interrupt is accepted.
    pub halted: bool,
}

/// The mathematical value of a `CPUState`: its memory as a sequence.
pub struct CpuModel {
    pub a: u8,
    pub b: u8,
    pub c: u8,
    pub d: u8,
    pub e: u8,
    pub h: u8,
    pub l: u8,
    pub sp: u16,
    pub pc: u16,
    pub cycles: u8,
    pub mem: Seq<u8>,
    pub cc: Flags,
    pub int_enable: InterruptEnable,
    pub halted: bool,
}

impl View for CPUState {
    type V = CpuModel;

    open spec fn view(&self) -> CpuModel {
        CpuModel {
            a: self.a,
            b: self.b,
            c: self.c,
            d: self.d,
            e: self.e,
            h: self.h,
            l: self.l,
            sp: self.sp,
            pc: self.pc,
            cycles: self.cycles,
            mem: self.memory@,
            cc: self.cc,
            int_enable: self.int_enable,
            halted: self.halted,
        }
    }
}

/// Reduces an integer to a 16-bit address, wrapping modulo 2^16.
pub open spec fn wrap16(x: int) -> u16 {
    (x % 0x10000) as u16
}

/// Reduces an integer to a byte, wrapping modulo 2^8.
pub open spec fn wrap8(x: int) -> u8 {
    (x % 0x100) as u8
}

/// The 16-bit value of a high byte and a low byte.
pub open spec fn word(hi: u8, lo: u8) -> u16 {
    (hi * 256 + lo) as u16
}

pub open spec fn hi_byte(v: u16) -> u8 {
    (v / 256) as u8
}

pub open spec fn lo_byte(v: u16) -> u8 {
    (v % 256) as u8
}

/// The data register that a 3-bit operand code names: B C D E H L - A
/// (code 6 is M, memory at HL).
pub open spec fn reg_code(code: u8) -> Registers {
    if code == 0 {
        Registers::B
    } else if code == 1 {
        Registers::C
    } else if code == 2 {
        Registers::D
    } else if code == 3 {
        Registers::E
    } else if code == 4 {
        Registers::H
    } else if code == 5 {
        Registers::L
    } else {
        Registers::A
    }
}

/// The pair that a 2-bit code names for LXI, INX, DCX and DAD.
pub open spec fn rp_code(code: u8) -> WithSPPairs {
    if code == 0 {
        WithSPPairs::BC
    } else if code == 1 {
        WithSPPairs::DE
    } else if code == 2 {
        WithSPPairs::HL
    } else {
        WithSPPairs::SP
    }
}

/// The pair that a 2-bit code names for PUSH and POP (code 3 is PSW).
pub open spec fn stack_code(code: u8) -> StackPairs {
    if code == 0 {
        StackPairs::BC
    } else if code == 1 {
        StackPairs::DE
    } else {
        StackPairs::HL
    }
}

/// The cycles of an accumulator operation on a register (4) or on the byte
/// at HL (7).
pub open spec fn operand_cycles(from_memory: bool) -> u8 {
    if from_memory {
        7
    } else {
        4
    }
}

/// The source operand that a 3-bit code names.
pub open spec fn operand(s: CpuModel, code: u8) -> u8 {
    if code == 6 {
        s.read(s.hl())
    } else {
        s.reg(reg_code(code))
    }
}

/// The eight accumulator operations ADD ADC SUB SBB ANA XRA ORA CMP on `v`.
pub open spec fn alu_model(s: CpuModel, op: u8, v: u8) -> CpuModel {
    if op == 0 {
        add_model(s, v, false)
    } else if op == 1 {
        add_model(s, v, s.cc.cy)
    } else if op == 2 {
        sub_model(s, v, false)
    } else if op == 3 {
        sub_model(s, v, s.cc.cy)
    } else if op == 4 {
        and_model(s, v)
    } else if op == 5 {
        xor_model(s, v)
    } else if op == 6 {
        or_model(s, v)
    } else {
        cmp_model(s, v)
    }
}

/// Opcodes 0x00 to 0x3F; `y` and `z` are bits 5..3 and 2..0 of the opcode.
pub open spec fn group0_model(s: CpuModel, y: u8, z: u8, b1: u8, b2: u8) -> CpuModel {
    let addr = word(b2, b1);
    if z == 0 {
        s.advance(1).spend(4)
    } else if z == 1 {
        if y % 2 == 0 {
            s.with_pair_sp(rp_code(y / 2), addr).advance(3).spend(10)
        } else {
            dad_model(s, rp_code(y / 2)).advance(1).spend(10)
        }
    } else if z == 2 {
        if y == 0 {
            s.write(s.pair(StackPairs::BC), s.a).advance(1).spend(7)
        } else if y == 1 {
            CpuModel { a: s.read(s.pair(StackPairs::BC)), ..s }.advance(1).spend(7)
        } else if y == 2 {
            s.write(s.pair(StackPairs::DE), s.a).advance(1).spend(7)
        } else if y == 3 {
            CpuModel { a: s.read(s.pair(StackPairs::DE)), ..s }.advance(1).spend(7)
        } else if y == 4 {
            shld_model(s, addr).advance(3).spend(16)
        } else if y == 5 {
            lhld_model(s, addr).advance(3).spend(16)
        } else if y == 6 {
            s.write(addr, s.a).advance(3).spend(13)
        } else {
            CpuModel { a: s.read(addr), ..s }.advance(3).spend(13)
        }
    } else if z == 3 {
        if y % 2 == 0 {
            s.with_pair_sp(rp_code(y / 2), wrap16(s.pair_sp(rp_code(y / 2)) + 1)).advance(1).spend(5)
        } else {
            s.with_pair_sp(rp_code(y / 2), wrap16(s.pair_sp(rp_code(y / 2)) - 1)).advance(1).spend(5)
        }
    } else if z == 4 {
        if y == 6 {
            inr_m_model(s).advance(1).spend(10)
        } else {
            inr_model(s, reg_code(y)).advance(1).spend(5)
        }
    } else if z == 5 {
        if y == 6 {
            dcr_m_model(s).advance(1).spend(10)
        } else {
            dcr_model(s, reg_code(y)).advance(1).spend(5)
        }
    } else if z == 6 {
        if y == 6 {
            s.write(s.hl(), b1).advance(2).spend(10)
        } else {
            s.with_reg(reg_code(y), b1).advance(2).spend(7)
        }
    } else {
        let t = if y == 0 {
            rlc_model(s)
        } else if y == 1 {
            rrc_model(s)
        } else if y == 2 {
            ral_model(s)
        } else if y == 3 {
            rar_model(s)
        } else if y == 4 {
            daa_model(s)
        } else if y == 5 {
            CpuModel { a: (255 - s.a) as u8, ..s }
        } else if y == 6 {
            with_carry(s, true)
        } else {
            with_carry(s, !s.cc.cy)
        };
        t.advance(1).spend(4)
    }
}

/// Opcodes 0x40 to 0x7F: MOV, and HLT in the place of MOV M, M.
pub open spec fn mov_model(s: CpuModel, y: u8, z: u8) -> CpuModel {
    if y == 6 && z == 6 {
        CpuModel { halted: true, ..s }.advance(1).spend(7)
    } else if y == 6 {
        s.write(s.hl(), s.reg(reg_code(z))).advance(1).spend(7)
    } else {
        s.with_reg(reg_code(y), operand(s, z)).advance(1).spend(if z == 6 { 7 } else { 5 })
    }
}

/// Opcodes 0xC0 to 0xFF. `port_in` is what an IN instruction reads. The
/// undocumented opcodes 0xCB, 0xD9, 0xDD, 0xED and 0xFD do nothing but take
/// the cycles of JMP, RET and CALL, which they duplicate.
pub open spec fn group3_model(s: CpuModel, y: u8, z: u8, b1: u8, b2: u8, port_in: u8) -> CpuModel {
    let addr = word(b2, b1);
    if z == 0 {
        ret_if_model(s, cond_holds(s.cc, y))
    } else if z == 1 {
        if y == 6 {
            pop_psw_model(s).advance(1).spend(10)
        } else if y % 2 == 0 {
            s.drop_top().with_pair(stack_code(y / 2), s.top()).advance(1).spend(10)
        } else if y == 1 {
            ret_model(s)
        } else if y == 3 {
            s.advance(1).spend(10)
        } else if y == 5 {
            CpuModel { pc: s.hl(), ..s }.spend(5)
        } else {
            CpuModel { sp: s.hl(), ..s }.advance(1).spend(5)
        }
    } else if z == 2 {
        jump_model(s, cond_holds(s.cc, y), addr)
    } else if z == 3 {
        if y == 0 {
            jump_model(s, true, addr)
        } else if y == 1 {
            s.advance(1).spend(10)
        } else if y == 2 {
            s.advance(2).spend(10)
        } else if y == 3 {
            CpuModel { a: port_in, ..s }.advance(2).spend(10)
        } else if y == 4 {
            xthl_model(s).advance(1).spend(18)
        } else if y == 5 {
            xchg_model(s).advance(1).spend(4)
        } else if y == 6 {
            CpuModel { int_enable: InterruptEnable::Disabled, ..s }.advance(1).spend(4)
        } else {
            CpuModel { int_enable: InterruptEnable::Pending, ..s }.advance(1).spend(4)
        }
    } else if z == 4 {
        call_if_model(s, cond_holds(s.cc, y), addr)
    } else if z == 5 {
        if y == 6 {
            s.push(psw_word(s)).advance(1).spend(11)
        } else if y % 2 == 0 {
            s.push(s.pair(stack_code(y / 2))).advance(1).spend(11)
        } else if y == 1 {
            call_model(s, addr)
        } else {
            s.advance(1).spend(17)
        }
    } else if z == 6 {
        alu_model(s, y, b1).advance(2).spend(7)
    } else {
        rst_model(s, y)
    }
}

/// The effect of opcode `op` with the two bytes that follow it, before the
/// cycle count and the interrupt latch are settled.
#[verifier::opaque]
pub open spec fn execute_model(s: CpuModel, op: u8, b1: u8, b2: u8, port_in: u8) -> CpuModel {
    let x = op / 64;
    let y = (op / 8) % 8;
    let z = op % 8;
    if x == 0 {
        group0_model(s, y, z, b1, b2)
    } else if x == 1 {
        mov_model(s, y, z)
    } else if x == 2 {
        alu_model(s, y, operand(s, z)).advance(1).spend(operand_cycles(z == 6))
    } else {
        group3_model(s, y, z, b1, b2, port_in)
    }
}

/// The cycle count of opcode `op` from the 8080 data sheet; `taken` tells
/// whether a conditional call or return goes ahead. The undocumented opcodes
/// take the count of the instruction they duplicate.
#[verifier::opaque]
pub open spec fn cycles_of(op: u8, taken: bool) -> u8 {
    let x = op / 64;
    let y = (op / 8) % 8;
    let z = op % 8;
    if x == 0 {
        if z == 0 || z == 7 {
            4
        } else if z == 1 {
            10
        } else if z == 2 {
            if y < 4 {
                7
            } else if y < 6 {
                16
            } else {
                13
            }
        } else if z == 3 {
            5
        } else if z == 6 {
            if y == 6 {
                10
            } else {
                7
            }
        } else {
            if y == 6 {
                10
            } else {
                5
            }
        }
    } else if x == 1 {
        if y == 6 || z == 6 {
            7
        } else {
            5
        }
    } else if x == 2 {
        if z == 6 {
            7
        } else {
            4
        }
    } else {
        if z == 0 {
            if taken {
                11
            } else {
                5
            }
        } else if z == 1 {
            if y == 5 || y == 7 {
                5
            } else {
                10
            }
        } else if z == 2 {
            10
        } else if z == 3 {
            if y == 4 {
                18
            } else if y < 4 {
                10
            } else {
                4
            }
        } else if z == 4 {
            if taken {
                17
            } else {
                11
            }
        } else if z == 5 {
            if y % 2 == 0 {
                11
            } else {
                17
            }
        } else if z == 6 {
            7
        } else {
            11
        }
    }
}

/// One instruction: a halted processor only spends 4 cycles; otherwise the
/// opcode at PC runs, `cycles` records its count, and a latch that was
/// pending when it began and is still pending becomes enabled.
pub open spec fn step_model(s: CpuModel, port_in: u8) -> CpuModel {
    if s.halted {
        CpuModel { cycles: 4, ..s }
    } else {
        let op = s.read(s.pc);
        let t = execute_model(s, op, s.read(wrap16(s.pc + 1)), s.read(wrap16(s.pc + 2)), port_in);
        let latch = if s.int_enable == InterruptEnable::Pending && t.int_enable
            == InterruptEnable::Pending {
            InterruptEnable::Enabled
        } else {
            t.int_enable
        };
        CpuModel {
            cycles: cycles_of(op, cond_holds(s.cc, (op / 8) % 8)),
            int_enable: latch,
            ..t
        }
    }
}

impl CpuModel {
    /// Memory holds exactly the 64 KiB address space.
    pub open spec fn wf(self) -> bool {
        self.mem.len() == MEMORY_SIZE
    }

    pub open spec fn read(self, addr: u16) -> u8 {
        self.mem[addr as int]
    }

    pub open spec fn write(self, addr: u16, v: u8) -> CpuModel {
        CpuModel { mem: self.mem.update(addr as int, v), ..self }
    }

    /// The little-endian word at `addr` and `addr + 1`.
    pub open spec fn read_word(self, addr: u16) -> u16 {
        word(self.read(wrap16(addr + 1)), self.read(addr))
    }

    pub open spec fn reg(self, r: Registers) -> u8 {
        match r {
            Registers::A => self.a,
            Registers::B => self.b,
            Registers::C => self.c,
            Registers::D => self.d,
            Registers::E => self.e,
            Registers::H => self.h,
            Registers::L => self.l,
        }
    }

    pub open spec fn with_reg(self, r: Registers, v: u8) -> CpuModel {
        match r {
            Registers::A => CpuModel { a: v, ..self },
            Registers::B => CpuModel { b: v, ..self },
            Registers::C => CpuModel { c: v, ..self },
            Registers::D => CpuModel { d: v, ..self },
            Registers::E => CpuModel { e: v, ..self },
            Registers::H => CpuModel { h: v, ..self },
            Registers::L => CpuModel { l: v, ..self },
        }
    }

    pub open spec fn hl(self) -> u16 {
        word(self.h, self.l)
    }

    /// The 16-bit value of a data pair.
    pub open spec fn pair(self, rp: StackPairs) -> u16 {
        match rp {
            StackPairs::BC => word(self.b, self.c),
            StackPairs::DE => word(self.d, self.e),
            StackPairs::HL => word(self.h, self.l),
        }
    }

    pub open spec fn with_pair(self, rp: StackPairs, v: u16) -> CpuModel {
        match rp {
            StackPairs::BC => CpuModel { b: hi_byte(v), c: lo_byte(v), ..self },
            StackPairs::DE => CpuModel { d: hi_byte(v), e: lo_byte(v), ..self },
            StackPairs::HL => CpuModel { h: hi_byte(v), l: lo_byte(v), ..self },
        }
    }

    /// The 16-bit value of a data pair or of SP.
    pub open spec fn pair_sp(self, rp: WithSPPairs) -> u16 {
        match rp {
            WithSPPairs::BC => word(self.b, self.c),
            WithSPPairs::DE => word(self.d, self.e),
            WithSPPairs::HL => word(self.h, self.l),
            WithSPPairs::SP => self.sp,
        }
    }

    pub open spec fn with_pair_sp(self, rp: WithSPPairs, v: u16) -> CpuModel {
        match rp {
            WithSPPairs::BC => CpuModel { b: hi_byte(v), c: lo_byte(v), ..self },
            WithSPPairs::DE => CpuModel { d: hi_byte(v), e: lo_byte(v), ..self },
            WithSPPairs::HL => CpuModel { h: hi_byte(v), l: lo_byte(v), ..self },
            WithSPPairs::SP => CpuModel { sp: v, ..self },
        }
    }

    /// `n` cycles recorded as the cost of the instruction just run.
    pub open spec fn spend(self, n: u8) -> CpuModel {
        CpuModel { cycles: n, ..self }
    }

    /// PC moved past an instruction of `n` bytes.
    pub open spec fn advance(self, n: int) -> CpuModel {
        CpuModel { pc: wrap16(self.pc + n), ..self }
    }

    /// `v` pushed: high byte at SP-1, low byte at SP-2, SP lowered by 2.
    pub open spec fn push(self, v: u16) -> CpuModel {
        CpuModel {
            mem: self.mem.update(wrap16(self.sp - 1) as int, hi_byte(v)).update(
                wrap16(self.sp - 2) as int,
                lo_byte(v),
            ),
            sp: wrap16(self.sp - 2),
            ..self
        }
    }

    /// The word on top of the stack.
    pub open spec fn top(self) -> u16 {
        self.read_word(self.sp)
    }

    /// The stack with its top word removed.
    pub open spec fn drop_top(self) -> CpuModel {
        CpuModel { sp: wrap16(self.sp + 2), ..self }
    }
}

/// The state at reset: registers and flags cleared, SP = 0xF000, PC = 0,
/// interrupts disabled, not halted, memory zeroed.
pub open spec fn reset_model() -> CpuModel {
    CpuModel {
        a: 0,
        b: 0,
        c: 0,
        d: 0,
        e: 0,
        h: 0,
        l: 0,
        sp: 0xF000,
        pc: 0,
        cycles: 0,
        mem: Seq::new(MEMORY_SIZE as nat, |i: int| 0u8),
        cc: Flags { z: false, s: false, p: false, cy: false, ac: false },
        int_enable: InterruptEnable::Disabled,
        halted: false,
    }
}

impl CPUState {
    pub open spec fn wf(&self) -> bool {
        self@.wf()
    }

    /// The state at reset: registers and flags cleared, SP = 0xF000, PC = 0,
    /// interrupts disabled, memory zeroed.
    pub fn new() -> (r: CPUState)
        ensures
            r.wf(),
            r@ == reset_model(),
    {
        let cpu = CPUState {
            a: 0,
            b: 0,
            c: 0,
            d: 0,
            e: 0,
            h: 0,
            l: 0,
            sp: 0xF000,
            pc: 0,
            cycles: 0,
            memory: vec![0u8; MEMORY_SIZE],
            cc: Flags::new(),
            int_enable: InterruptEnable::Disabled,
            halted: false,
        };
        assert(cpu@.mem =~= reset_model().mem);
        cpu
    }
}


impl CPUState {
    /// The value of a data register.
    pub fn get_reg(&self, r: Registers) -> (v: u8)
        ensures
            v == self@.reg(r),
    {
        match r {
            Registers::A => self.a,
            Registers::B => self.b,
            Registers::C => self.c,
            Registers::D => self.d,
            Registers::E => self.e,
            Registers::H => self.h,
            Registers::L => self.l,
        }
    }

    /// Writes a data register.
    pub fn set_reg(&mut self, r: Registers, v: u8)
        ensures
            final(self)@ == old(self)@.with_reg(r, v),
    {
        match r {
            Registers::A => self.a = v,
            Registers::B => self.b = v,
            Registers::C => self.c = v,
            Registers::D => self.d = v,
            Registers::E => self.e = v,
            Registers::H => self.h = v,
            Registers::L => self.l = v,
        }
    }

    /// The value of HL, the memory pointer.
    pub fn get_hl(&self) -> (v: u16)
        ensures
            v == self@.hl(),
    {
        crate::helpers::make_word(self.h, self.l)
    }

    /// The value of a data pair.
    pub fn get_pair(&self, rp: StackPairs) -> (v: u16)
        ensures
            v == self@.pair(rp),
    {
        match rp {
            StackPairs::BC => crate::helpers::make_word(self.b, self.c),
            StackPairs::DE => crate::helpers::make_word(self.d, self.e),
            StackPairs::HL => crate::helpers::make_word(self.h, self.l),
        }
    }

    /// Writes a data pair, high byte into the first register.
    pub fn set_pair(&mut self, rp: StackPairs, v: u16)
        ensures
            final(self)@ == old(self)@.with_pair(rp, v),
    {
        let hi = (v / 256) as u8;
        let lo = (v % 256) as u8;
        match rp {
            StackPairs::BC => {
                self.b = hi;
                self.c = lo;
            },
            StackPairs::DE => {
                self.d = hi;
                self.e = lo;
            },
            StackPairs::HL => {
                self.h = hi;
                self.l = lo;
            },
        }
    }

    /// The value of a data pair or of SP.
    pub fn get_pair_sp(&self, rp: WithSPPairs) -> (v: u16)
        ensures
            v == self@.pair_sp(rp),
    {
        match rp {
            WithSPPairs::BC => crate::helpers::make_word(self.b, self.c),
            WithSPPairs::DE => crate::helpers::make_word(self.d, self.e),
            WithSPPairs::HL => crate::helpers::make_word(self.h, self.l),
            WithSPPairs::SP => self.sp,
        }
    }

    /// Writes a data pair or SP.
    pub fn set_pair_sp(&mut self, rp: WithSPPairs, v: u16)
        ensures
            final(self)@ == old(self)@.with_pair_sp(rp, v),
    {
        let hi = (v / 256) as u8;
        let lo = (v % 256) as u8;
        match rp {
            WithSPPairs::BC => {
                self.b = hi;
                self.c = lo;
            },
            WithSPPairs::DE => {
                self.d = hi;
                self.e = lo;
            },
            WithSPPairs::HL => {
                self.h = hi;
                self.l = lo;
            },
            WithSPPairs::SP => self.sp = v,
        }
    }

    /// The byte at `addr`.
    pub fn read_mem(&self, addr: u16) -> (v: u8)
        requires
            self.wf(),
        ensures
            v == self@.read(addr),
    {
        self.memory[addr as usize]
    }

    /// Records `n` cycles as the cost of the instruction just run.
    pub fn spend(&mut self, n: u8)
        ensures
            final(self)@ == old(self)@.spend(n),
    {
        self.cycles = n;
    }

    /// Moves PC past an instruction of `n` bytes.
    pub fn advance(&mut self, n: u16)
        requires
            n <= 3,
        ensures
            final(self)@ == old(self)@.advance(n as int),
    {
        self.pc = self.pc.wrapping_add(n);
    }
}

fn reg_of_code(code: u8) -> (r: Registers)
    ensures
        r == reg_code(code),
{
    match code {
        0 => Registers::B,
        1 => Registers::C,
        2 => Registers::D,
        3 => Registers::E,
        4 => Registers::H,
        5 => Registers::L,
        _ => Registers::A,
    }
}

fn rp_of_code(code: u8) -> (r: WithSPPairs)
    ensures
        r == rp_code(code),
{
    match code {
        0 => WithSPPairs::BC,
        1 => WithSPPairs::DE,
        2 => WithSPPairs::HL,
        _ => WithSPPairs::SP,
    }
}

fn stack_of_code(code: u8) -> (r: StackPairs)
    ensures
        r == stack_code(code),
{
    match code {
        0 => StackPairs::BC,
        1 => StackPairs::DE,
        _ => StackPairs::HL,
    }
}

/// The source operand that a 3-bit register code names.
pub fn read_operand(cpu: &CPUState, code: u8) -> (v: u8)
    requires
        cpu.wf(),
    ensures
        v == operand(cpu@, code),
{
    if code == 6 {
        cpu.read_mem(cpu.get_hl())
    } else {
        cpu.get_reg(reg_of_code(code))
    }
}

/// ADD ADC SUB SBB ANA XRA ORA CMP with a register or memory operand.
fn exec_alu(cpu: &mut CPUState, op: u8, v: u8, from_memory: bool)
    ensures
        final(cpu)@ == alu_model(old(cpu)@, op, v).advance(1).spend(operand_cycles(from_memory)),
{
    let cy = cpu.cc.cy;
    match op {
        0 => op_arithmetic::add(cpu, v, false, from_memory),
        1 => op_arithmetic::add(cpu, v, cy, from_memory),
        2 => op_arithmetic::sub(cpu, v, false, from_memory),
        3 => op_arithmetic::sub(cpu, v, cy, from_memory),
        4 => ana(cpu, v, from_memory),
        5 => xra(cpu, v, from_memory),
        6 => ora(cpu, v, from_memory),
        _ => cmp(cpu, v, from_memory),
    }
}

/// ADI ACI SUI SBI ANI XRI ORI CPI.
fn exec_alu_immediate(cpu: &mut CPUState, op: u8, v: u8)
    ensures
        final(cpu)@ == alu_model(old(cpu)@, op, v).advance(2).spend(7),
{
    let cy = cpu.cc.cy;
    match op {
        0 => adi(cpu, v, false),
        1 => adi(cpu, v, cy),
        2 => sui(cpu, v, false),
        3 => sui(cpu, v, cy),
        4 => ani(cpu, v),
        5 => xri(cpu, v),
        6 => ori(cpu, v),
        _ => cpi(cpu, v),
    }
}

fn exec_group0(cpu: &mut CPUState, y: u8, z: u8, b1: u8, b2: u8)
    requires
        old(cpu).wf(),
        y < 8,
        z < 8,
    ensures
        final(cpu).wf(),
        final(cpu)@ == group0_model(old(cpu)@, y, z, b1, b2),
{
    if z == 0 {
        nop(cpu);
    } else if z == 1 {
        if y % 2 == 0 {
            lxi(cpu, rp_of_code(y / 2), b1, b2);
        } else {
            dad(cpu, rp_of_code(y / 2));
        }
    } else if z == 2 {
        match y {
            0 => stax(cpu, StackPairs::BC),
            1 => ldax(cpu, StackPairs::BC),
            2 => stax(cpu, StackPairs::DE),
            3 => ldax(cpu, StackPairs::DE),
            4 => shld(cpu, b1, b2),
            5 => lhld(cpu, b1, b2),
            6 => sta(cpu, b1, b2),
            _ => lda(cpu, b1, b2),
        }
    } else if z == 3 {
        if y % 2 == 0 {
            inx(cpu, rp_of_code(y / 2));
        } else {
            dcx(cpu, rp_of_code(y / 2));
        }
    } else if z == 4 {
        if y == 6 {
            inr_m(cpu);
        } else {
            inr_r(cpu, reg_of_code(y));
        }
    } else if z == 5 {
        if y == 6 {
            dcr_m(cpu);
        } else {
            dcr_r(cpu, reg_of_code(y));
        }
    } else if z == 6 {
        if y == 6 {
            mvi_m(cpu, b1);
        } else {
            mvi_r(cpu, reg_of_code(y), b1);
        }
    } else {
        match y {
            0 => rlc(cpu),
            1 => rrc(cpu),
            2 => ral(cpu),
            3 => rar(cpu),
            4 => daa(cpu),
            5 => cma(cpu),
            6 => stc(cpu),
            _ => cmc(cpu),
        }
    }
}

fn exec_mov(cpu: &mut CPUState, y: u8, z: u8)
    requires
        old(cpu).wf(),
        y < 8,
        z < 8,
    ensures
        final(cpu).wf(),
        final(cpu)@ == mov_model(old(cpu)@, y, z),
{
    if y == 6 && z == 6 {
        hlt(cpu);
    } else if y == 6 {
        mov_m_r(cpu, reg_of_code(z));
    } else if z == 6 {
        mov_r_m(cpu, reg_of_code(y));
    } else {
        let v = cpu.get_reg(reg_of_code(z));
        mov_r_r(cpu, reg_of_code(y), v);
    }
}

fn exec_group3(cpu: &mut CPUState, y: u8, z: u8, b1: u8, b2: u8, port_in: u8)
    requires
        old(cpu).wf(),
        y < 8,
        z < 8,
    ensures
        final(cpu).wf(),
        final(cpu)@ == group3_model(old(cpu)@, y, z, b1, b2, port_in),
{
    if z == 0 {
        match y {
            0 => rnz(cpu),
            1 => rz(cpu),
            2 => rnc(cpu),
            3 => rc(cpu),
            4 => rpo(cpu),
            5 => rpe(cpu),
            6 => rp(cpu),
            _ => rm(cpu),
        }
    } else if z == 1 {
        if y == 6 {
            pop_psw(cpu);
        } else if y % 2 == 0 {
            pop(cpu, stack_of_code(y / 2));
        } else if y == 1 {
            ret(cpu);
        } else if y == 3 {
            nop(cpu);
            cpu.spend(10);
        } else if y == 5 {
            pchl(cpu);
        } else {
            sphl(cpu);
        }
    } else if z == 2 {
        match y {
            0 => jnz(cpu, b1, b2),
            1 => jz(cpu, b1, b2),
            2 => jnc(cpu, b1, b2),
            3 => jc(cpu, b1, b2),
            4 => jpo(cpu, b1, b2),
            5 => jpe(cpu, b1, b2),
            6 => jp(cpu, b1, b2),
            _ => jm(cpu, b1, b2),
        }
    } else if z == 3 {
        match y {
            0 => jmp(cpu, b1, b2),
            1 => {
                nop(cpu);
                cpu.spend(10);
            },
            2 => out(cpu),
            3 => op_in(cpu, port_in),
            4 => xthl(cpu),
            5 => xchg(cpu),
            6 => di(cpu),
            _ => ei(cpu),
        }
    } else if z == 4 {
        match y {
            0 => cnz(cpu, b1, b2),
            1 => cz(cpu, b1, b2),
            2 => cnc(cpu, b1, b2),
            3 => cc(cpu, b1, b2),
            4 => cpo(cpu, b1, b2),
            5 => cpe(cpu, b1, b2),
            6 => cp(cpu, b1, b2),
            _ => cm(cpu, b1, b2),
        }
    } else if z == 5 {
        if y == 6 {
            push_psw(cpu);
        } else if y % 2 == 0 {
            push(cpu, stack_of_code(y / 2));
        } else if y == 1 {
            call(cpu, b1, b2);
        } else {
            nop(cpu);
            cpu.spend(17);
        }
    } else if z == 6 {
        exec_alu_immediate(cpu, y, b1);
    } else {
        rst(cpu, y);
    }
}

/// The cycle count of opcode `op`; `taken` tells whether a conditional call
/// or return goes ahead.
pub fn instruction_cycles(op: u8, taken: bool) -> (r: u8)
    ensures
        r == cycles_of(op, taken),
{
    reveal(cycles_of);
    let x = op / 64;
    let y = (op / 8) % 8;
    let z = op % 8;
    if x == 0 {
        if z == 0 || z == 7 {
            4
        } else if z == 1 {
            10
        } else if z == 2 {
            if y < 4 {
                7
            } else if y < 6 {
                16
            } else {
                13
            }
        } else if z == 3 {
            5
        } else if z == 6 {
            if y == 6 {
                10
            } else {
                7
            }
        } else {
            if y == 6 {
                10
            } else {
                5
            }
        }
    } else if x == 1 {
        if y == 6 || z == 6 {
            7
        } else {
            5
        }
    } else if x == 2 {
        if z == 6 {
            7
        } else {
            4
        }
    } else {
        if z == 0 {
            if taken {
                11
            } else {
                5
            }
        } else if z == 1 {
            if y == 5 || y == 7 {
                5
            } else {
                10
            }
        } else if z == 2 {
            10
        } else if z == 3 {
            if y == 4 {
                18
            } else if y < 4 {
                10
            } else {
                4
            }
        } else if z == 4 {
            if taken {
                17
            } else {
                11
            }
        } else if z == 5 {
            if y % 2 == 0 {
                11
            } else {
                17
            }
        } else if z == 6 {
            7
        } else {
            11
        }
    }
}

/// Runs opcode `op` with the two bytes that follow it; an IN instruction
/// reads `port_in`. Neither the cycle count nor the interrupt latch's delay
/// is settled here.
pub fn execute(cpu: &mut CPUState, op: u8, b1: u8, b2: u8, port_in: u8)
    requires
        old(cpu).wf(),
    ensures
        final(cpu).wf(),
        final(cpu)@ == execute_model(old(cpu)@, op, b1, b2, port_in),
{
    reveal(execute_model);
    let x = op / 64;
    let y = (op / 8) % 8;
    let z = op % 8;
    if x == 0 {
        exec_group0(cpu, y, z, b1, b2);
    } else if x == 1 {
        exec_mov(cpu, y, z);
    } else if x == 2 {
        let v = read_operand(cpu, z);
        exec_alu(cpu, y, v, z == 6);
    } else {
        exec_group3(cpu, y, z, b1, b2, port_in);
    }
}

/// Runs one instruction; an IN instruction reads `port_in`.
pub fn step(cpu: &mut CPUState, port_in: u8)
    requires
        old(cpu).wf(),
    ensures
        final(cpu).wf(),
        final(cpu)@ == step_model(old(cpu)@, port_in),
{
    if cpu.halted {
        cpu.cycles = 4;
        return;
    }
    let pc = cpu.pc;
    let op = cpu.read_mem(pc);
    let b1 = cpu.read_mem(pc.wrapping_add(1));
    let b2 = cpu.read_mem(pc.wrapping_add(2));
    let was_pending = cpu.int_enable == InterruptEnable::Pending;
    let taken = condition(cpu.cc, (op / 8) % 8);
    execute(cpu, op, b1, b2, port_in);
    cpu.cycles = instruction_cycles(op, taken);
    if was_pending && cpu.int_enable == InterruptEnable::Pending {
        cpu.int_enable = InterruptEnable::Enabled;
    }
}

/// Runs the instruction at PC, with no device on the ports: IN reads 0 and
/// OUT is discarded. Returns the cycles the instruction took.
pub fn emulate_8080_op(cpu: &mut CPUState) -> (r: u8)
    requires
        old(cpu).wf(),
    ensures
        final(cpu).wf(),
        final(cpu)@ == step_model(old(cpu)@, 0),
        r == final(cpu).cycles,
{
    step(cpu, 0);
    cpu.cycles
}

/// `mem` with `rom` copied in from address `start` on.
pub open spec fn loaded(mem: Seq<u8>, start: int, rom: Seq<u8>) -> Seq<u8> {
    Seq::new(
        mem.len(),
        |i: int|
            if start <= i < start + rom.len() {
                rom[i - start]
            } else {
                mem[i]
            },
    )
}

/// Copies `rom` into `memory` from `start` on.
pub fn copy_into(memory: &mut Vec<u8>, start: usize, rom: &Vec<u8>)
    requires
        start + rom@.len() <= old(memory)@.len(),
    ensures
        final(memory)@ == loaded(old(memory)@, start as int, rom@),
{
    let ghost orig = memory@;
    let len = memory.len();
    let mut i: usize = 0;
    while i < rom.len()
        invariant
            i <= rom@.len(),
            start + rom@.len() <= orig.len() == len,
            memory@.len() == orig.len(),
            memory@ == loaded(orig, start as int, rom@.subrange(0, i as int)),
        decreases rom@.len() - i,
    {
        memory.set(start + i, rom[i]);
        i = i + 1;
        assert(memory@ =~= loaded(orig, start as int, rom@.subrange(0, i as int)));
    }
    assert(rom@.subrange(0, rom@.len() as int) =~= rom@);
}

impl CPUState {
    /// Copies a ROM image of `size` bytes to address 0.
    pub fn load_memory(&mut self, rom: &Vec<u8>, size: usize)
        requires
            old(self).wf(),
            rom@.len() == size,
            size <= MEMORY_SIZE,
        ensures
            final(self).wf(),
            final(self)@ == (CpuModel { mem: loaded(old(self)@.mem, 0, rom@), ..old(self)@ }),
    {
        copy_into(&mut self.memory, 0, rom);
    }
}

} // verus!

use vstd::prelude::*;

use crate::cpu::{emulate_8080_op, step_model, word, wrap16, CPUState, CpuModel};
use crate::op_branch::{ret, ret_model};

verus! {

/// Address of the CP/M console entry point that diagnostic programs call.
pub const BDOS_ENTRY: u16 = 0x0005;

/// The text that a console call prints, as its bytes: with C = 2 the
/// character in E; with C = 9 the bytes from DE up to the first '$'.
/// `r` is that text when it meets this description.
pub open spec fn is_bdos_text(s: CpuModel, r: Seq<u8>) -> bool {
    if s.c == 2 {
        r == seq![s.e]
    } else if s.c == 9 {
        &&& r.len() <= 0x10000
        &&& (forall|i: int|
            0 <= i < r.len() ==> #[trigger] r[i] == s.read(wrap16(word(s.d, s.e) + i)) && r[i]
                != 0x24)
        &&& (r.len() < 0x10000 ==> s.read(wrap16(word(s.d, s.e) + r.len())) == 0x24)
    } else {
        r.len() == 0
    }
}

/// The console output of a CP/M call made with the registers of `cpu`.
pub fn bdos_output(cpu: &CPUState) -> (r: Vec<u8>)
    requires
        cpu.wf(),
    ensures
        is_bdos_text(cpu@, r@),
{
    let mut out: Vec<u8> = Vec::new();
    if cpu.c == 2 {
        out.push(cpu.e);
    } else if cpu.c == 9 {
        let start = crate::helpers::make_word(cpu.d, cpu.e);
        let mut i: u32 = 0;
        while i < 0x10000
            invariant
                i <= 0x10000,
                cpu.wf(),
                cpu.c == 9,
                start == word(cpu.d, cpu.e),
                out@.len() == i,
                forall|j: int|
                    0 <= j < i ==> #[trigger] out@[j] == cpu@.read(wrap16(start + j)) && out@[j]
                        != 0x24,
            decreases 0x10000 - i,
        {
            let addr = ((start as u32 + i) % 0x10000) as u16;
            assert(addr == wrap16(start + i));
            let b = cpu.read_mem(addr);
            if b == 0x24 {
                assert(out@.len() < 0x10000);
                return out;
            }
            out.push(b);
            i = i + 1;
        }
    }
    out
}

/// One instruction of a CP/M diagnostic program: at the console entry point
/// the call is served (its text returned) and the processor returns to the
/// caller; anywhere else the instruction runs and nothing is printed.
pub fn emulate_cpm_op(cpu: &mut CPUState) -> (r: Vec<u8>)
    requires
        old(cpu).wf(),
    ensures
        final(cpu).wf(),
        old(cpu).pc == BDOS_ENTRY ==> is_bdos_text(old(cpu)@, r@) && final(cpu)@ == ret_model(
            old(cpu)@,
        ),
        old(cpu).pc != BDOS_ENTRY ==> r@.len() == 0 && final(cpu)@ == step_model(old(cpu)@, 0),
{
    if cpu.pc == BDOS_ENTRY {
        let text = bdos_output(cpu);
        ret(cpu);
        text
    } else {
        emulate_8080_op(cpu);
        Vec::new()
    }
}

} // verus!

//! What holds of every instruction: the value and flags that the computing
//! instructions leave, when a branch is taken, the return address of a call,
//! and which registers and words an instruction can change.

use vstd::prelude::*;
use crate::instr::{decode_spec, lemma_decode_total, Instr, Operand, TrapVector};
use crate::machine::{flag_of, wrap16, MachineState, MEM_SIZE, NEG, PC, POS, ZRO};
use crate::utils::signed;

verus! {

impl Instr {
    /// The register that receives a computed or loaded value, for the
    /// instructions that have one: ADD, AND, NOT, LD, LDI, LDR and LEA.
    pub open spec fn result_reg(self) -> Option<u16> {
        match self {
            Instr::Add { dr, .. }
            | Instr::And { dr, .. }
            | Instr::Not { dr, .. }
            | Instr::Ld { dr, .. }
            | Instr::Ldi { dr, .. }
            | Instr::Ldr { dr, .. }
            | Instr::Lea { dr, .. } => Some(dr),
            _ => None,
        }
    }

    /// Whether the instruction records a return address in R7: JSR, JSRR and
    /// TRAP.
    pub open spec fn links(self) -> bool {
        self is Jsr || self is Jsrr || self is Trap
    }

    /// Whether the instruction may write the program counter: BR, JMP, JSR and
    /// JSRR.
    pub open spec fn transfers(self) -> bool {
        self is Br || self is Jmp || self is Jsr || self is Jsrr
    }
}

impl MachineState {
    /// The address that a store instruction writes in this state, for ST, STI
    /// and STR.
    pub open spec fn store_target(self, instr: Instr) -> Option<u16> {
        match instr {
            Instr::St { offset, .. } => Some(self.pc_relative(offset)),
            Instr::Sti { offset, .. } => Some(self.mem[self.pc_relative(offset) as int]),
            Instr::Str { base, offset, .. } => Some(self.base_relative(base, offset)),
            _ => None,
        }
    }
}

/// The flag for a word is exactly one of POS, ZRO and NEG, and it is the one
/// that fits the word read as a signed number.
pub proof fn lemma_flag_of(v: u16)
    ensures
        flag_of(v) == POS || flag_of(v) == ZRO || flag_of(v) == NEG,
        flag_of(v) == ZRO <==> v == 0,
        flag_of(v) == POS <==> signed(v) > 0,
        flag_of(v) == NEG <==> signed(v) < 0,
        flag_of(v) == POS <==> 0 < v < 0x8000,
        flag_of(v) == NEG <==> v >= 0x8000,
{
}

/// Running an instruction keeps the shape of the state.
pub proof fn lemma_execute_wf(s: MachineState, instr: Instr)
    requires
        s.wf(),
        instr.wf(),
    ensures
        s.execute(instr).wf(),
{
}

/// One step keeps the shape of the state.
pub proof fn lemma_step_wf(s: MachineState)
    requires
        s.wf(),
    ensures
        s.step().wf(),
{
    lemma_decode_total(s.fetch());
}

/// ADD, AND, NOT, LD, LDI, LDR and LEA leave in the destination register the
/// value that the instruction computes from the state after the fetch, and in
/// the condition register the flag for that value: ZRO for zero, POS for a
/// positive and NEG for a negative signed number.
pub proof fn lemma_result_and_flags(s: MachineState, instr: Instr)
    requires
        s.wf(),
        instr.wf(),
        instr.result_reg() is Some,
    ensures
        ({
            let t = s.execute(instr);
            let dr = instr.result_reg().unwrap() as int;
            &&& instr matches Instr::Add { sr1, src: Operand::Reg(sr2), .. } ==> t.reg[dr]
                == wrap16(s.reg[sr1 as int] + s.reg[sr2 as int])
            &&& instr matches Instr::Add { sr1, src: Operand::Imm(imm), .. } ==> t.reg[dr]
                == wrap16(s.reg[sr1 as int] + imm)
            &&& instr matches Instr::And { sr1, src: Operand::Reg(sr2), .. } ==> t.reg[dr]
                == s.reg[sr1 as int] & s.reg[sr2 as int]
            &&& instr matches Instr::And { sr1, src: Operand::Imm(imm), .. } ==> t.reg[dr]
                == s.reg[sr1 as int] & imm
            &&& instr matches Instr::Not { sr, .. } ==> t.reg[dr] == !s.reg[sr as int]
            &&& instr matches Instr::Ld { offset, .. } ==> t.reg[dr] == s.mem[wrap16(
                s.pc() + offset,
            ) as int]
            &&& instr matches Instr::Ldi { offset, .. } ==> t.reg[dr] == s.mem[s.mem[wrap16(
                s.pc() + offset,
            ) as int] as int]
            &&& instr matches Instr::Ldr { base, offset, .. } ==> t.reg[dr] == s.mem[wrap16(
                s.reg[base as int] + offset,
            ) as int]
            &&& instr matches Instr::Lea { offset, .. } ==> t.reg[dr] == wrap16(s.pc() + offset)
            &&& t.cond() == flag_of(t.reg[dr])
            &&& t.cond() == POS || t.cond() == ZRO || t.cond() == NEG
            &&& t.cond() == ZRO <==> t.reg[dr] == 0
            &&& t.cond() == POS <==> signed(t.reg[dr]) > 0
            &&& t.cond() == NEG <==> signed(t.reg[dr]) < 0
        }),
{
}

/// BR moves the program counter by its offset exactly when the condition bit
/// that belongs to the flag in the condition register is set; otherwise the
/// program counter stays at the next instruction. Nothing else changes.
pub proof fn lemma_branch(s: MachineState, n: bool, z: bool, p: bool, offset: u16)
    requires
        s.wf(),
    ensures
        ({
            let t = s.execute(Instr::Br { n, z, p, offset });
            let taken = (n && s.cond() == NEG) || (z && s.cond() == ZRO) || (p && s.cond() == POS);
            &&& taken ==> t.pc() == wrap16(s.pc() + offset)
            &&& !taken ==> t.pc() == s.pc()
            &&& t == s.with_reg(PC, t.pc())
            &&& s.cond() == NEG ==> (taken <==> n)
            &&& s.cond() == ZRO ==> (taken <==> z)
            &&& s.cond() == POS ==> (taken <==> p)
            &&& !n && !z && !p ==> !taken
            &&& n && z && p && (s.cond() == NEG || s.cond() == ZRO || s.cond() == POS) ==> taken
        }),
{
    let t = s.execute(Instr::Br { n, z, p, offset });
    assert(t.reg =~= s.with_reg(PC, t.pc()).reg);
}

/// JSR and JSRR leave in R7 the address of the instruction after the call,
/// whichever way the target is given. JSR continues `offset` words from that
/// address; JSRR continues at the address in its base register.
pub proof fn lemma_call_links(s: MachineState, instr: Instr)
    requires
        s.wf(),
        instr.wf(),
        instr is Jsr || instr is Jsrr,
    ensures
        s.execute(instr).reg[7] == s.pc(),
        instr matches Instr::Jsr { offset } ==> s.execute(instr).pc() == wrap16(s.pc() + offset),
        instr matches Instr::Jsrr { base } ==> s.execute(instr).pc() == (if base == 7 {
            s.pc()
        } else {
            s.reg[base as int]
        }),
{
}

/// After a step that runs JSR or JSRR, R7 holds the address that follows the
/// instruction's own.
pub proof fn lemma_step_call_links(s: MachineState)
    requires
        s.wf(),
        s.can_step(),
        decode_spec(s.fetch()).unwrap() is Jsr || decode_spec(s.fetch()).unwrap() is Jsrr,
    ensures
        s.step().reg[7] == wrap16(s.pc() + 1),
{
    lemma_decode_total(s.fetch());
}

/// An instruction changes only what it targets. Of the general-purpose
/// registers, only the destination of a computing or loading instruction, and
/// R7 for JSR, JSRR and TRAP; of memory, only the word that a store
/// addresses; the condition register only where a result is written; the
/// program counter only in BR, JMP, JSR and JSRR; the halt flag only in TRAP
/// HALT, which sets it.
pub proof fn lemma_frame(s: MachineState, instr: Instr)
    requires
        s.wf(),
        instr.wf(),
    ensures
        ({
            let t = s.execute(instr);
            &&& forall|r: int|
                0 <= r < 8 && instr.result_reg() != Some(r as u16) && !(r == 7 && instr.links())
                    ==> t.reg[r] == s.reg[r]
            &&& forall|a: int|
                0 <= a < MEM_SIZE && s.store_target(instr) != Some(a as u16) ==> t.mem[a]
                    == s.mem[a]
            &&& instr.result_reg() is None ==> t.cond() == s.cond()
            &&& !instr.transfers() ==> t.pc() == s.pc()
            &&& t.halt == (s.halt || instr == Instr::Trap { vector: TrapVector::Halt })
        }),
{
}

/// One step is the fetch, then the instruction: the program counter moves to
/// the next address, nothing else changes, and the decoded instruction runs
/// from there.
pub proof fn lemma_step_runs_decoded(s: MachineState)
    requires
        s.wf(),
        s.can_step(),
    ensures
        ({
            let instr = decode_spec(s.fetch()).unwrap();
            let fetched = s.with_reg(PC, wrap16(s.pc() + 1));
            &&& instr.wf()
            &&& fetched.wf()
            &&& s.step() == fetched.execute(instr)
        }),
{
    lemma_decode_total(s.fetch());
}

/// A step changes only what its instruction targets, and the program counter.
/// A general-purpose register other than the instruction's destination (and
/// R7, for JSR, JSRR and TRAP) keeps its value; so does every word of memory
/// but the one that a store addresses; the condition register changes only
/// where a result is written.
pub proof fn lemma_step_frame(s: MachineState)
    requires
        s.wf(),
        s.can_step(),
    ensures
        ({
            let instr = decode_spec(s.fetch()).unwrap();
            let fetched = s.with_reg(PC, wrap16(s.pc() + 1));
            let t = s.step();
            &&& forall|r: int|
                0 <= r < 8 && instr.result_reg() != Some(r as u16) && !(r == 7 && instr.links())
                    ==> t.reg[r] == s.reg[r]
            &&& forall|a: int|
                0 <= a < MEM_SIZE && fetched.store_target(instr) != Some(a as u16) ==> t.mem[a]
                    == s.mem[a]
            &&& instr.result_reg() is None ==> t.cond() == s.cond()
            &&& !instr.transfers() ==> t.pc() == wrap16(s.pc() + 1)
            &&& t.halt == (s.halt || instr == Instr::Trap { vector: TrapVector::Halt })
        }),
{
    lemma_step_runs_decoded(s);
    let instr = decode_spec(s.fetch()).unwrap();
    let fetched = s.with_reg(PC, wrap16(s.pc() + 1));
    lemma_frame(fetched, instr);
}

/// After a step that runs ADD, AND, NOT, LD, LDI, LDR or LEA, the destination
/// register holds the value that the instruction computes from the state
/// before the step, addresses being taken from the address after the
/// instruction's own, and the condition register holds the flag for that
/// value.
pub proof fn lemma_step_result_and_flags(s: MachineState)
    requires
        s.wf(),
        s.can_step(),
        decode_spec(s.fetch()).unwrap().result_reg() is Some,
    ensures
        ({
            let instr = decode_spec(s.fetch()).unwrap();
            let t = s.step();
            let dr = instr.result_reg().unwrap() as int;
            let next = s.pc() + 1;
            &&& instr matches Instr::Add { sr1, src: Operand::Reg(sr2), .. } ==> t.reg[dr]
                == wrap16(s.reg[sr1 as int] + s.reg[sr2 as int])
            &&& instr matches Instr::Add { sr1, src: Operand::Imm(imm), .. } ==> t.reg[dr]
                == wrap16(s.reg[sr1 as int] + imm)
            &&& instr matches Instr::And { sr1, src: Operand::Reg(sr2), .. } ==> t.reg[dr]
                == s.reg[sr1 as int] & s.reg[sr2 as int]
            &&& instr matches Instr::And { sr1, src: Operand::Imm(imm), .. } ==> t.reg[dr]
                == s.reg[sr1 as int] & imm
            &&& instr matches Instr::Not { sr, .. } ==> t.reg[dr] == !s.reg[sr as int]
            &&& instr matches Instr::Ld { offset, .. } ==> t.reg[dr] == s.mem[wrap16(
                next + offset,
            ) as int]
            &&& instr matches Instr::Ldi { offset, .. } ==> t.reg[dr] == s.mem[s.mem[wrap16(
                next + offset,
            ) as int] as int]
            &&& instr matches Instr::Ldr { base, offset, .. } ==> t.reg[dr] == s.mem[wrap16(
                s.reg[base as int] + offset,
            ) as int]
            &&& instr matches Instr::Lea { offset, .. } ==> t.reg[dr] == wrap16(next + offset)
            &&& t.cond() == flag_of(t.reg[dr])
            &&& t.cond() == POS || t.cond() == ZRO || t.cond() == NEG
        }),
{
    lemma_step_runs_decoded(s);
    let instr = decode_spec(s.fetch()).unwrap();
    let fetched = s.with_reg(PC, wrap16(s.pc() + 1));
    lemma_result_and_flags(fetched, instr);
}

/// After a step that runs BR, the program counter is `offset` past the next
/// instruction where the branch is taken, and at the next instruction where
/// it is not. It is taken exactly when the condition bit that belongs to the
/// flag in the condition register is set.
pub proof fn lemma_step_branch(s: MachineState)
    requires
        s.wf(),
        s.can_step(),
        decode_spec(s.fetch()).unwrap() is Br,
    ensures
        ({
            let instr = decode_spec(s.fetch()).unwrap();
            let t = s.step();
            &&& instr matches Instr::Br { n, z, p, offset } ==> t.pc() == (if (n && s.cond()
                == NEG) || (z && s.cond() == ZRO) || (p && s.cond() == POS) {
                wrap16(s.pc() + 1 + offset)
            } else {
                wrap16(s.pc() + 1)
            })
            &&& t == s.with_reg(PC, t.pc())
        }),
{
    lemma_step_runs_decoded(s);
    let instr = decode_spec(s.fetch()).unwrap();
    let fetched = s.with_reg(PC, wrap16(s.pc() + 1));
    match instr {
        Instr::Br { n, z, p, offset } => {
            lemma_branch(fetched, n, z, p, offset);
        },
        _ => {},
    }
    assert(s.step().reg =~= s.with_reg(PC, s.step().pc()).reg);
}

} // verus!

//! The machine: registers, memory, halt flag, and the primitives that read and
//! write them.

use vstd::prelude::*;
use crate::instr::{decode, decode_spec, Instr, Operand, TrapVector};
use crate::utils::signed;

verus! {

/// Number of words of memory.
pub const MEM_SIZE: usize = 65536;

/// Number of registers: eight general-purpose ones, the program counter and
/// the condition register.
pub const REG_SIZE: usize = 10;

/// Index of the program counter.
pub const PC: u16 = 8;

/// Index of the condition register.
pub const COND: u16 = 9;

/// Condition flag: the last result was positive.
pub const POS: u16 = 1;

/// Condition flag: the last result was zero.
pub const ZRO: u16 = 2;

/// Condition flag: the last result was negative.
pub const NEG: u16 = 4;

/// Address at which execution starts.
pub const START: u16 = 0x3000;

/// The sum of two numbers as a 16-bit word: addition modulo 2^16.
pub open spec fn wrap16(x: int) -> u16 {
    (x % 0x10000) as u16
}

/// The condition flag for a result: ZRO for zero, POS and NEG by the sign of the
/// word read as a signed number.
pub open spec fn flag_of(v: u16) -> u16 {
    if signed(v) == 0 {
        ZRO
    } else if signed(v) > 0 {
        POS
    } else {
        NEG
    }
}

/// The mathematical state of a machine.
pub struct MachineState {
    pub reg: Seq<u16>,
    pub mem: Seq<u16>,
    pub halt: bool,
}

impl MachineState {
    /// Ten registers and 2^16 words of memory.
    pub open spec fn wf(self) -> bool {
        self.reg.len() == REG_SIZE && self.mem.len() == MEM_SIZE
    }

    /// The state with register `r` holding `val`.
    pub open spec fn with_reg(self, r: u16, val: u16) -> MachineState {
        MachineState { reg: self.reg.update(r as int, val), ..self }
    }

    /// The state with the word at `addr` holding `val`.
    pub open spec fn with_mem(self, addr: u16, val: u16) -> MachineState {
        MachineState { mem: self.mem.update(addr as int, val), ..self }
    }

    /// The state of a machine as it is built: every register and every word of
    /// memory zero, and halted.
    pub open spec fn reset() -> MachineState {
        MachineState {
            reg: Seq::new(REG_SIZE as nat, |r: int| 0u16),
            mem: Seq::new(MEM_SIZE as nat, |a: int| 0u16),
            halt: true,
        }
    }

    /// The state armed to run: not halted, the program counter at the start
    /// address, all else as it was.
    pub open spec fn armed(self) -> MachineState {
        MachineState { halt: false, ..self }.with_reg(PC, START)
    }

    /// The program counter.
    pub open spec fn pc(self) -> u16 {
        self.reg[PC as int]
    }

    /// The condition register.
    pub open spec fn cond(self) -> u16 {
        self.reg[COND as int]
    }

    /// The word that the program counter points at.
    pub open spec fn fetch(self) -> u16 {
        self.mem[self.pc() as int]
    }

    /// The state with `val` added to register `r`, modulo 2^16.
    pub open spec fn add_reg(self, r: u16, val: u16) -> MachineState {
        self.with_reg(r, wrap16(self.reg[r as int] + val))
    }

    /// The state with the condition register holding the flag for the word in
    /// register `r`.
    pub open spec fn with_flags(self, r: u16) -> MachineState {
        self.with_reg(COND, flag_of(self.reg[r as int]))
    }

    /// The state after `val` is written to register `dr` and the flags are set
    /// from it.
    pub open spec fn load(self, dr: u16, val: u16) -> MachineState {
        self.with_reg(dr, val).with_flags(dr)
    }

    /// The value of the second operand of ADD and AND.
    pub open spec fn operand(self, src: Operand) -> u16 {
        match src {
            Operand::Reg(sr2) => self.reg[sr2 as int],
            Operand::Imm(imm) => imm,
        }
    }

    /// Whether a branch with these condition bits is taken: the bit that
    /// belongs to the flag in the condition register is set.
    pub open spec fn branch_taken(self, n: bool, z: bool, p: bool) -> bool {
        (n && self.cond() == NEG) || (z && self.cond() == ZRO) || (p && self.cond() == POS)
    }

    /// The address `offset` words from the program counter, modulo 2^16.
    pub open spec fn pc_relative(self, offset: u16) -> u16 {
        wrap16(self.pc() + offset)
    }

    /// The address `offset` words from the one in register `base`, modulo 2^16.
    pub open spec fn base_relative(self, base: u16, offset: u16) -> u16 {
        wrap16(self.reg[base as int] + offset)
    }

    /// The state after an instruction has run. `self` is the state after the
    /// fetch: the program counter already points at the next instruction.
    ///
    /// JSR, JSRR and TRAP write the return address to R7 first; JSRR reads its
    /// base register after that.
    pub open spec fn execute(self, instr: Instr) -> MachineState {
        match instr {
            Instr::Br { n, z, p, offset } => if self.branch_taken(n, z, p) {
                self.add_reg(PC, offset)
            } else {
                self
            },
            Instr::Add { dr, sr1, src } => self.load(
                dr,
                wrap16(self.reg[sr1 as int] + self.operand(src)),
            ),
            Instr::And { dr, sr1, src } => self.load(dr, self.reg[sr1 as int] & self.operand(src)),
            Instr::Not { dr, sr } => self.load(dr, !self.reg[sr as int]),
            Instr::Jmp { base } => self.with_reg(PC, self.reg[base as int]),
            Instr::Jsr { offset } => self.with_reg(7, self.pc()).add_reg(PC, offset),
            Instr::Jsrr { base } => {
                let linked = self.with_reg(7, self.pc());
                linked.with_reg(PC, linked.reg[base as int])
            },
            Instr::Ld { dr, offset } => self.load(dr, self.mem[self.pc_relative(offset) as int]),
            Instr::Ldi { dr, offset } => self.load(
                dr,
                self.mem[self.mem[self.pc_relative(offset) as int] as int],
            ),
            Instr::Ldr { dr, base, offset } => self.load(
                dr,
                self.mem[self.base_relative(base, offset) as int],
            ),
            Instr::Lea { dr, offset } => self.load(dr, self.pc_relative(offset)),
            Instr::St { sr, offset } => self.with_mem(self.pc_relative(offset), self.reg[sr as int]),
            Instr::Sti { sr, offset } => self.with_mem(
                self.mem[self.pc_relative(offset) as int],
                self.reg[sr as int],
            ),
            Instr::Str { sr, base, offset } => self.with_mem(
                self.base_relative(base, offset),
                self.reg[sr as int],
            ),
            Instr::Trap { vector } => {
                let linked = self.with_reg(7, self.pc());
                if vector == TrapVector::Halt {
                    MachineState { halt: true, ..linked }
                } else {
                    linked
                }
            },
            Instr::Rti | Instr::Res => self,
        }
    }

    /// Whether the word at the program counter can be executed: it is not a
    /// TRAP whose vector names no system call.
    pub open spec fn can_step(self) -> bool {
        decode_spec(self.fetch()) is Some
    }

    /// The state after one instruction: fetch the word at the program counter,
    /// advance the program counter by one, then run the instruction. A word
    /// that cannot be executed leaves the state as it is.
    pub open spec fn step(self) -> MachineState {
        match decode_spec(self.fetch()) {
            Some(instr) => self.add_reg(PC, 1).execute(instr),
            None => self,
        }
    }
}

/// An LC-3 machine. It owns its registers and memory; `halt` is for the driver
/// to poll, and to set where it wants the run to end early.
pub struct Machine {
    reg: [u16; REG_SIZE],
    mem: [u16; MEM_SIZE],
    pub halt: bool,
}

impl View for Machine {
    type V = MachineState;

    closed spec fn view(&self) -> MachineState {
        MachineState { reg: self.reg@, mem: self.mem@, halt: self.halt }
    }
}

impl Machine {
    /// The view of a machine always has ten registers and 2^16 words of memory.
    pub proof fn lemma_view_wf(&self)
        ensures
            self@.wf(),
    {
    }

    /// A machine in its reset state: all registers and memory zero, halted.
    pub fn new() -> (m: Machine)
        ensures
            m@ == MachineState::reset(),
    {
        let m = Machine { reg: [0; REG_SIZE], mem: [0; MEM_SIZE], halt: true };
        assert(m@.reg =~= MachineState::reset().reg);
        assert(m@.mem =~= MachineState::reset().mem);
        m
    }

    /// Arms the machine: clears the halt flag and points the program counter at
    /// the start address. Memory and the other registers keep what they hold.
    pub fn init(&mut self)
        ensures
            final(self)@ == old(self)@.armed(),
            final(self)@.pc() == 0x3000,
            !final(self)@.halt,
    {
        self.halt = false;
        self.setr(PC, START);
    }

    /// Whether the machine is halted.
    pub fn halted(&self) -> (h: bool)
        ensures
            h == self@.halt,
    {
        self.halt
    }

    /// Reads register `r`.
    pub fn getr(&self, r: u16) -> (val: u16)
        requires
            r < REG_SIZE,
        ensures
            val == self@.reg[r as int],
    {
        self.reg[r as usize]
    }

    /// Writes `val` to register `r`; nothing else changes.
    pub fn setr(&mut self, r: u16, val: u16)
        requires
            r < REG_SIZE,
        ensures
            final(self)@ == old(self)@.with_reg(r, val),
    {
        self.reg[r as usize] = val;
    }

    /// Adds `val` to register `r`, modulo 2^16; nothing else changes.
    pub fn addr(&mut self, r: u16, val: u16)
        requires
            r < REG_SIZE,
        ensures
            final(self)@ == old(self)@.add_reg(r, val),
    {
        let sum: u16 = self.reg[r as usize].wrapping_add(val);
        self.reg[r as usize] = sum;
    }

    /// Reads the word at `addr`.
    pub fn getm(&self, addr: u16) -> (val: u16)
        ensures
            val == self@.mem[addr as int],
    {
        self.mem[addr as usize]
    }

    /// Writes `val` to the word at `addr`; nothing else changes.
    pub fn setm(&mut self, addr: u16, val: u16)
        ensures
            final(self)@ == old(self)@.with_mem(addr, val),
    {
        self.mem[addr as usize] = val;
    }

    /// Sets the condition register from the word in register `r`: ZRO where it
    /// is zero, POS where it is positive as a signed number, NEG where it is
    /// negative.
    pub fn set_cond(&mut self, r: u16)
        requires
            r < REG_SIZE,
        ensures
            final(self)@ == old(self)@.with_flags(r),
    {
        let val: u16 = self.getr(r);
        if val == 0 {
            self.setr(COND, ZRO);
        } else if val < 0x8000 {
            self.setr(COND, POS);
        } else {
            self.setr(COND, NEG);
        }
    }

    /// The word at the program counter: the instruction that `step` runs next.
    pub fn fetch(&self) -> (w: u16)
        ensures
            w == self@.fetch(),
    {
        self.getm(self.getr(PC))
    }

    /// The value of the second operand of ADD and AND.
    fn operand(&self, src: Operand) -> (val: u16)
        requires
            src matches Operand::Reg(sr2) ==> sr2 < 8,
        ensures
            val == self@.operand(src),
    {
        match src {
            Operand::Reg(sr2) => self.getr(sr2),
            Operand::Imm(imm) => imm,
        }
    }

    /// Runs a decoded instruction. The program counter must already point past
    /// the instruction, as it does after the fetch in `step`. The system calls
    /// other than HALT only record the return address in R7: the console work
    /// is the host's.
    pub fn execute(&mut self, instr: Instr)
        requires
            instr.wf(),
        ensures
            final(self)@ == old(self)@.execute(instr),
    {
        match instr {
            Instr::Br { n, z, p, offset } => {
                let cond: u16 = self.getr(COND);
                if (n && cond == NEG) || (z && cond == ZRO) || (p && cond == POS) {
                    self.addr(PC, offset);
                }
            },
            Instr::Add { dr, sr1, src } => {
                let val: u16 = self.getr(sr1).wrapping_add(self.operand(src));
                self.setr(dr, val);
                self.set_cond(dr);
            },
            Instr::And { dr, sr1, src } => {
                let val: u16 = self.getr(sr1) & self.operand(src);
                self.setr(dr, val);
                self.set_cond(dr);
            },
            Instr::Not { dr, sr } => {
                let val: u16 = !self.getr(sr);
                self.setr(dr, val);
                self.set_cond(dr);
            },
            Instr::Jmp { base } => {
                let target: u16 = self.getr(base);
                self.setr(PC, target);
            },
            Instr::Jsr { offset } => {
                let ret: u16 = self.getr(PC);
                self.setr(7, ret);
                self.addr(PC, offset);
            },
            Instr::Jsrr { base } => {
                let ret: u16 = self.getr(PC);
                self.setr(7, ret);
                let target: u16 = self.getr(base);
                self.setr(PC, target);
            },
            Instr::Ld { dr, offset } => {
                let val: u16 = self.getm(self.getr(PC).wrapping_add(offset));
                self.setr(dr, val);
                self.set_cond(dr);
            },
            Instr::Ldi { dr, offset } => {
                let val: u16 = self.getm(self.getm(self.getr(PC).wrapping_add(offset)));
                self.setr(dr, val);
                self.set_cond(dr);
            },
            Instr::Ldr { dr, base, offset } => {
                let val: u16 = self.getm(self.getr(base).wrapping_add(offset));
                self.setr(dr, val);
                self.set_cond(dr);
            },
            Instr::Lea { dr, offset } => {
                let val: u16 = self.getr(PC).wrapping_add(offset);
                self.setr(dr, val);
                self.set_cond(dr);
            },
            Instr::St { sr, offset } => {
                let target: u16 = self.getr(PC).wrapping_add(offset);
                let val: u16 = self.getr(sr);
                self.setm(target, val);
            },
            Instr::Sti { sr, offset } => {
                let target: u16 = self.getm(self.getr(PC).wrapping_add(offset));
                let val: u16 = self.getr(sr);
                self.setm(target, val);
            },
            Instr::Str { sr, base, offset } => {
                let target: u16 = self.getr(base).wrapping_add(offset);
                let val: u16 = self.getr(sr);
                self.setm(target, val);
            },
            Instr::Trap { vector } => {
                let ret: u16 = self.getr(PC);
                self.setr(7, ret);
                match vector {
                    TrapVector::Halt => {
                        self.halt = true;
                    },
                    _ => {},
                }
            },
            Instr::Rti | Instr::Res => {},
        }
    }

    /// Whether `step` may be called: the word at the program counter is not a
    /// TRAP whose vector names no system call.
    pub fn can_step(&self) -> (ok: bool)
        ensures
            ok == self@.can_step(),
    {
        decode(self.fetch()).is_some()
    }

    /// Executes exactly one instruction: fetches the word at the program
    /// counter, advances the program counter by one (modulo 2^16), decodes the
    /// word and runs it. Offsets are therefore relative to the next
    /// instruction. The halt flag is not consulted: a driver polls it between
    /// steps.
    ///
    /// A TRAP whose vector names no system call is fatal to the machine, and is
    /// left out here: test `can_step` first.
    pub fn step(&mut self)
        requires
            old(self)@.can_step(),
        ensures
            final(self)@ == old(self)@.step(),
    {
        let word: u16 = self.fetch();
        self.addr(PC, 1);
        match decode(word) {
            Some(instr) => {
                self.execute(instr);
            },
            None => {},
        }
    }
}

} // verus!

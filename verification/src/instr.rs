//! Instruction words: the sixteen opcodes, the trap vectors, and the decoder
//! that reads an instruction's fields out of a 16-bit word.

use vstd::prelude::*;
use crate::utils::{lemma_sign_extend_value, sign_extend, sign_extend_spec, signed};

verus! {

/// The operation that the top four bits of an instruction word select.
#[derive(Clone, Copy, Debug, PartialEq, Eq, Structural)]
pub enum Opcode {
    /// Branch.
    Br,
    /// Add.
    Add,
    /// Load.
    Ld,
    /// Store.
    St,
    /// Jump to subroutine.
    Jsr,
    /// Bitwise and.
    And,
    /// Load through a base register.
    Ldr,
    /// Store through a base register.
    Str,
    /// Return from interrupt.
    Rti,
    /// Bitwise complement.
    Not,
    /// Load indirect.
    Ldi,
    /// Store indirect.
    Sti,
    /// Jump.
    Jmp,
    /// Reserved.
    Res,
    /// Load effective address.
    Lea,
    /// System call.
    Trap,
}

impl Opcode {
    /// The opcode numbered `n`, for `n` below 16.
    pub open spec fn of(n: u16) -> Option<Opcode> {
        if n == 0 {
            Some(Opcode::Br)
        } else if n == 1 {
            Some(Opcode::Add)
        } else if n == 2 {
            Some(Opcode::Ld)
        } else if n == 3 {
            Some(Opcode::St)
        } else if n == 4 {
            Some(Opcode::Jsr)
        } else if n == 5 {
            Some(Opcode::And)
        } else if n == 6 {
            Some(Opcode::Ldr)
        } else if n == 7 {
            Some(Opcode::Str)
        } else if n == 8 {
            Some(Opcode::Rti)
        } else if n == 9 {
            Some(Opcode::Not)
        } else if n == 10 {
            Some(Opcode::Ldi)
        } else if n == 11 {
            Some(Opcode::Sti)
        } else if n == 12 {
            Some(Opcode::Jmp)
        } else if n == 13 {
            Some(Opcode::Res)
        } else if n == 14 {
            Some(Opcode::Lea)
        } else if n == 15 {
            Some(Opcode::Trap)
        } else {
            None
        }
    }

    /// The number of this opcode, 0 to 15.
    pub open spec fn number(self) -> u16 {
        match self {
            Opcode::Br => 0,
            Opcode::Add => 1,
            Opcode::Ld => 2,
            Opcode::St => 3,
            Opcode::Jsr => 4,
            Opcode::And => 5,
            Opcode::Ldr => 6,
            Opcode::Str => 7,
            Opcode::Rti => 8,
            Opcode::Not => 9,
            Opcode::Ldi => 10,
            Opcode::Sti => 11,
            Opcode::Jmp => 12,
            Opcode::Res => 13,
            Opcode::Lea => 14,
            Opcode::Trap => 15,
        }
    }

    /// Every opcode is the one that its number selects, and every number below
    /// 16 selects an opcode.
    pub proof fn lemma_number_round_trip(op: Opcode, n: u16)
        ensures
            Opcode::of(op.number()) == Some(op),
            Opcode::of(n) is Some <==> n < 16,
            Opcode::of(n) is Some ==> Opcode::of(n).unwrap().number() == n,
    {
    }

    /// The opcode numbered `n`, or `None` where `n` is 16 or more.
    pub fn from_u16(n: u16) -> (op: Option<Opcode>)
        ensures
            op == Opcode::of(n),
    {
        match n {
            0 => Some(Opcode::Br),
            1 => Some(Opcode::Add),
            2 => Some(Opcode::Ld),
            3 => Some(Opcode::St),
            4 => Some(Opcode::Jsr),
            5 => Some(Opcode::And),
            6 => Some(Opcode::Ldr),
            7 => Some(Opcode::Str),
            8 => Some(Opcode::Rti),
            9 => Some(Opcode::Not),
            10 => Some(Opcode::Ldi),
            11 => Some(Opcode::Sti),
            12 => Some(Opcode::Jmp),
            13 => Some(Opcode::Res),
            14 => Some(Opcode::Lea),
            15 => Some(Opcode::Trap),
            _ => None,
        }
    }

    /// The number of this opcode.
    pub fn to_u16(self) -> (n: u16)
        ensures
            n == self.number(),
    {
        match self {
            Opcode::Br => 0,
            Opcode::Add => 1,
            Opcode::Ld => 2,
            Opcode::St => 3,
            Opcode::Jsr => 4,
            Opcode::And => 5,
            Opcode::Ldr => 6,
            Opcode::Str => 7,
            Opcode::Rti => 8,
            Opcode::Not => 9,
            Opcode::Ldi => 10,
            Opcode::Sti => 11,
            Opcode::Jmp => 12,
            Opcode::Res => 13,
            Opcode::Lea => 14,
            Opcode::Trap => 15,
        }
    }
}

/// A system call that the TRAP instruction can name.
#[derive(Clone, Copy, Debug, PartialEq, Eq, Structural)]
pub enum TrapVector {
    /// Read one character from the keyboard, without echo.
    Getc,
    /// Write one character.
    Out,
    /// Write a string held one character to a word.
    Puts,
    /// Prompt, read one character and echo it.
    In,
    /// Write a string held two characters to a word.
    Putsp,
    /// Stop the machine.
    Halt,
}

impl TrapVector {
    /// The system call numbered `n`: 0x20 to 0x25.
    pub open spec fn of(n: u16) -> Option<TrapVector> {
        if n == 0x20 {
            Some(TrapVector::Getc)
        } else if n == 0x21 {
            Some(TrapVector::Out)
        } else if n == 0x22 {
            Some(TrapVector::Puts)
        } else if n == 0x23 {
            Some(TrapVector::In)
        } else if n == 0x24 {
            Some(TrapVector::Putsp)
        } else if n == 0x25 {
            Some(TrapVector::Halt)
        } else {
            None
        }
    }

    /// The number of this system call.
    pub open spec fn number(self) -> u16 {
        match self {
            TrapVector::Getc => 0x20,
            TrapVector::Out => 0x21,
            TrapVector::Puts => 0x22,
            TrapVector::In => 0x23,
            TrapVector::Putsp => 0x24,
            TrapVector::Halt => 0x25,
        }
    }

    /// Every system call is the one that its number selects, and the numbers
    /// that select one are 0x20 to 0x25.
    pub proof fn lemma_number_round_trip(t: TrapVector, n: u16)
        ensures
            TrapVector::of(t.number()) == Some(t),
            TrapVector::of(n) is Some <==> 0x20 <= n <= 0x25,
            TrapVector::of(n) is Some ==> TrapVector::of(n).unwrap().number() == n,
    {
    }

    /// The system call numbered `n`, or `None` where `n` is not 0x20 to 0x25.
    pub fn from_u16(n: u16) -> (t: Option<TrapVector>)
        ensures
            t == TrapVector::of(n),
    {
        match n {
            0x20 => Some(TrapVector::Getc),
            0x21 => Some(TrapVector::Out),
            0x22 => Some(TrapVector::Puts),
            0x23 => Some(TrapVector::In),
            0x24 => Some(TrapVector::Putsp),
            0x25 => Some(TrapVector::Halt),
            _ => None,
        }
    }

    /// The number of this system call.
    pub fn to_u16(self) -> (n: u16)
        ensures
            n == self.number(),
    {
        match self {
            TrapVector::Getc => 0x20,
            TrapVector::Out => 0x21,
            TrapVector::Puts => 0x22,
            TrapVector::In => 0x23,
            TrapVector::Putsp => 0x24,
            TrapVector::Halt => 0x25,
        }
    }
}

/// The second operand of ADD and AND.
#[derive(Clone, Copy, Debug, PartialEq, Eq, Structural)]
pub enum Operand {
    /// The register with this index.
    Reg(u16),
    /// This word: the sign-extended 5-bit immediate field.
    Imm(u16),
}

/// A decoded instruction. Register fields hold indices 0 to 7; offsets and
/// immediates are held sign-extended to 16 bits.
#[derive(Clone, Copy, Debug, PartialEq, Eq, Structural)]
pub enum Instr {
    /// Branch by `offset` where a condition bit matches the condition register.
    Br { n: bool, z: bool, p: bool, offset: u16 },
    /// `dr` becomes `sr1` plus the second operand.
    Add { dr: u16, sr1: u16, src: Operand },
    /// `dr` becomes the word `offset` from the program counter.
    Ld { dr: u16, offset: u16 },
    /// The word `offset` from the program counter becomes `sr`.
    St { sr: u16, offset: u16 },
    /// Call the subroutine `offset` from the program counter.
    Jsr { offset: u16 },
    /// Call the subroutine at the address in `base`.
    Jsrr { base: u16 },
    /// `dr` becomes `sr1` and the second operand, bit by bit.
    And { dr: u16, sr1: u16, src: Operand },
    /// `dr` becomes the word `offset` from the address in `base`.
    Ldr { dr: u16, base: u16, offset: u16 },
    /// The word `offset` from the address in `base` becomes `sr`.
    Str { sr: u16, base: u16, offset: u16 },
    /// Return from interrupt: does nothing, as the machine never leaves user
    /// mode.
    Rti,
    /// `dr` becomes the complement of `sr`.
    Not { dr: u16, sr: u16 },
    /// `dr` becomes the word whose address is held `offset` from the program
    /// counter.
    Ldi { dr: u16, offset: u16 },
    /// The word whose address is held `offset` from the program counter
    /// becomes `sr`.
    Sti { sr: u16, offset: u16 },
    /// Continue at the address in `base`.
    Jmp { base: u16 },
    /// The reserved opcode: does nothing.
    Res,
    /// `dr` becomes the address `offset` from the program counter.
    Lea { dr: u16, offset: u16 },
    /// System call.
    Trap { vector: TrapVector },
}

/// Bits 15 to 12 of a word: the opcode's number.
pub open spec fn field_opcode(w: u16) -> u16 {
    w >> 12
}

/// Bits 11 to 9: the destination or source register.
pub open spec fn field_dr(w: u16) -> u16 {
    (w >> 9) & 0x7
}

/// Bits 8 to 6: the first source register, or the base register.
pub open spec fn field_sr1(w: u16) -> u16 {
    (w >> 6) & 0x7
}

/// Bits 2 to 0: the second source register.
pub open spec fn field_sr2(w: u16) -> u16 {
    w & 0x7
}

/// Whether bit `k` of a word is set.
pub open spec fn bit(w: u16, k: u16) -> bool {
    (w >> k) & 0x1 == 1
}

/// Bits 4 to 0 as a signed number, extended to 16 bits: the immediate operand.
pub open spec fn field_imm5(w: u16) -> u16 {
    sign_extend_spec(w & 0x1F, 5)
}

/// Bits 5 to 0 as a signed number, extended to 16 bits: the offset from a base
/// register.
pub open spec fn field_offset6(w: u16) -> u16 {
    sign_extend_spec(w & 0x3F, 6)
}

/// Bits 8 to 0 as a signed number, extended to 16 bits: the offset from the
/// program counter.
pub open spec fn field_offset9(w: u16) -> u16 {
    sign_extend_spec(w & 0x1FF, 9)
}

/// Bits 10 to 0 as a signed number, extended to 16 bits: the offset of a
/// subroutine from the program counter.
pub open spec fn field_offset11(w: u16) -> u16 {
    sign_extend_spec(w & 0x7FF, 11)
}

/// Bits 7 to 0: the trap vector.
pub open spec fn field_vector(w: u16) -> u16 {
    w & 0xFF
}

/// The second operand that an ADD or AND word encodes: the immediate in bits 4
/// to 0 where bit 5 is set, else the register in bits 2 to 0.
pub open spec fn operand_spec(w: u16) -> Operand {
    if bit(w, 5) {
        Operand::Imm(field_imm5(w))
    } else {
        Operand::Reg(field_sr2(w))
    }
}

/// The instruction that a word encodes, or `None` where the word is a TRAP whose
/// vector names no system call.
pub open spec fn decode_spec(w: u16) -> Option<Instr> {
    match Opcode::of(field_opcode(w)) {
        Some(Opcode::Br) => Some(
            Instr::Br { n: bit(w, 11), z: bit(w, 10), p: bit(w, 9), offset: field_offset9(w) },
        ),
        Some(Opcode::Add) => Some(
            Instr::Add { dr: field_dr(w), sr1: field_sr1(w), src: operand_spec(w) },
        ),
        Some(Opcode::Ld) => Some(Instr::Ld { dr: field_dr(w), offset: field_offset9(w) }),
        Some(Opcode::St) => Some(Instr::St { sr: field_dr(w), offset: field_offset9(w) }),
        Some(Opcode::Jsr) => if bit(w, 11) {
            Some(Instr::Jsr { offset: field_offset11(w) })
        } else {
            Some(Instr::Jsrr { base: field_sr1(w) })
        },
        Some(Opcode::And) => Some(
            Instr::And { dr: field_dr(w), sr1: field_sr1(w), src: operand_spec(w) },
        ),
        Some(Opcode::Ldr) => Some(
            Instr::Ldr { dr: field_dr(w), base: field_sr1(w), offset: field_offset6(w) },
        ),
        Some(Opcode::Str) => Some(
            Instr::Str { sr: field_dr(w), base: field_sr1(w), offset: field_offset6(w) },
        ),
        Some(Opcode::Rti) => Some(Instr::Rti),
        Some(Opcode::Not) => Some(Instr::Not { dr: field_dr(w), sr: field_sr1(w) }),
        Some(Opcode::Ldi) => Some(Instr::Ldi { dr: field_dr(w), offset: field_offset9(w) }),
        Some(Opcode::Sti) => Some(Instr::Sti { sr: field_dr(w), offset: field_offset9(w) }),
        Some(Opcode::Jmp) => Some(Instr::Jmp { base: field_sr1(w) }),
        Some(Opcode::Res) => Some(Instr::Res),
        Some(Opcode::Lea) => Some(Instr::Lea { dr: field_dr(w), offset: field_offset9(w) }),
        Some(Opcode::Trap) => match TrapVector::of(field_vector(w)) {
            Some(vector) => Some(Instr::Trap { vector }),
            None => None,
        },
        None => None,
    }
}

impl Instr {
    /// Every register field names a general-purpose register.
    pub open spec fn wf(self) -> bool {
        match self {
            Instr::Add { dr, sr1, src } | Instr::And { dr, sr1, src } => dr < 8 && sr1 < 8 && (src
                matches Operand::Reg(sr2) ==> sr2 < 8),
            Instr::Ld { dr, .. } | Instr::Ldi { dr, .. } | Instr::Lea { dr, .. } => dr < 8,
            Instr::St { sr, .. } | Instr::Sti { sr, .. } => sr < 8,
            Instr::Ldr { dr, base, .. } => dr < 8 && base < 8,
            Instr::Str { sr, base, .. } => sr < 8 && base < 8,
            Instr::Not { dr, sr } => dr < 8 && sr < 8,
            Instr::Jmp { base } | Instr::Jsrr { base } => base < 8,
            Instr::Br { .. } | Instr::Jsr { .. } | Instr::Trap { .. } | Instr::Rti | Instr::Res => true,
        }
    }

    /// The opcode under which this instruction is encoded.
    pub open spec fn opcode(self) -> Opcode {
        match self {
            Instr::Br { .. } => Opcode::Br,
            Instr::Add { .. } => Opcode::Add,
            Instr::Ld { .. } => Opcode::Ld,
            Instr::St { .. } => Opcode::St,
            Instr::Jsr { .. } | Instr::Jsrr { .. } => Opcode::Jsr,
            Instr::And { .. } => Opcode::And,
            Instr::Ldr { .. } => Opcode::Ldr,
            Instr::Str { .. } => Opcode::Str,
            Instr::Rti => Opcode::Rti,
            Instr::Not { .. } => Opcode::Not,
            Instr::Ldi { .. } => Opcode::Ldi,
            Instr::Sti { .. } => Opcode::Sti,
            Instr::Jmp { .. } => Opcode::Jmp,
            Instr::Res => Opcode::Res,
            Instr::Lea { .. } => Opcode::Lea,
            Instr::Trap { .. } => Opcode::Trap,
        }
    }
}

/// The register fields of any word name general-purpose registers, and the
/// opcode field is below 16.
pub proof fn lemma_field_ranges(w: u16)
    ensures
        field_opcode(w) < 16,
        field_dr(w) < 8,
        field_sr1(w) < 8,
        field_sr2(w) < 8,
        field_vector(w) < 256,
{
    assert(w >> 12 < 16) by (bit_vector);
    assert((w >> 9) & 0x7 < 8) by (bit_vector);
    assert((w >> 6) & 0x7 < 8) by (bit_vector);
    assert(w & 0x7 < 8) by (bit_vector);
    assert(w & 0xFF < 256) by (bit_vector);
}

/// The low digits of a word, `w` modulo `modulus`, read as a signed number: the
/// upper half of the range stands for the negative numbers.
pub open spec fn low_signed(w: u16, modulus: int) -> int {
    let low = (w as int) % modulus;
    if low < modulus / 2 {
        low
    } else {
        low - modulus
    }
}

/// The fields as numbers: each register field is a base-8 digit of the word,
/// each mode or condition bit a base-2 digit, the trap vector the word modulo
/// 256, and each offset the word modulo 2^k read as a signed number of k bits.
pub proof fn lemma_field_values(w: u16)
    ensures
        field_opcode(w) == w / 4096,
        field_dr(w) == (w / 512) % 8,
        field_sr1(w) == (w / 64) % 8,
        field_sr2(w) == w % 8,
        field_vector(w) == w % 256,
        bit(w, 5) <==> (w / 32) % 2 == 1,
        bit(w, 9) <==> (w / 512) % 2 == 1,
        bit(w, 10) <==> (w / 1024) % 2 == 1,
        bit(w, 11) <==> (w / 2048) % 2 == 1,
        signed(field_imm5(w)) == low_signed(w, 32),
        signed(field_offset6(w)) == low_signed(w, 64),
        signed(field_offset9(w)) == low_signed(w, 512),
        signed(field_offset11(w)) == low_signed(w, 2048),
{
    assert(w >> 12 == w / 4096) by (bit_vector);
    assert((w >> 9) & 0x7 == (w / 512) % 8) by (bit_vector);
    assert((w >> 6) & 0x7 == (w / 64) % 8) by (bit_vector);
    assert(w & 0x7 == w % 8) by (bit_vector);
    assert(w & 0xFF == w % 256) by (bit_vector);
    assert((w >> 5) & 0x1 == (w / 32) % 2) by (bit_vector);
    assert((w >> 9) & 0x1 == (w / 512) % 2) by (bit_vector);
    assert((w >> 10) & 0x1 == (w / 1024) % 2) by (bit_vector);
    assert((w >> 11) & 0x1 == (w / 2048) % 2) by (bit_vector);
    assert(w & 0x1F == w % 32 && (w & 0x1F) & (0xFFFFu16 << 5usize) == 0 && (((w & 0x1F)
        >> 4usize) & 1 == 1 <==> w % 32 >= 16)) by (bit_vector);
    assert(w & 0x3F == w % 64 && (w & 0x3F) & (0xFFFFu16 << 6usize) == 0 && (((w & 0x3F)
        >> 5usize) & 1 == 1 <==> w % 64 >= 32)) by (bit_vector);
    assert(w & 0x1FF == w % 512 && (w & 0x1FF) & (0xFFFFu16 << 9usize) == 0 && (((w & 0x1FF)
        >> 8usize) & 1 == 1 <==> w % 512 >= 256)) by (bit_vector);
    assert(w & 0x7FF == w % 2048 && (w & 0x7FF) & (0xFFFFu16 << 11usize) == 0 && (((w & 0x7FF)
        >> 10usize) & 1 == 1 <==> w % 2048 >= 1024)) by (bit_vector);
    assert(1u32 << 5usize == 32 && 1u32 << 6usize == 64 && 1u32 << 9usize == 512 && 1u32
        << 11usize == 2048) by (bit_vector);
    lemma_sign_extend_value(w & 0x1F, 5);
    lemma_sign_extend_value(w & 0x3F, 6);
    lemma_sign_extend_value(w & 0x1FF, 9);
    lemma_sign_extend_value(w & 0x7FF, 11);
}

/// A word decodes to an instruction unless it is a TRAP whose vector names no
/// system call; the instruction is well formed and has the opcode that the
/// word's top four bits select.
pub proof fn lemma_decode_total(w: u16)
    ensures
        decode_spec(w) is None <==> field_opcode(w) == 15 && !(0x20 <= field_vector(w) <= 0x25),
        decode_spec(w) matches Some(i) ==> i.wf() && Opcode::of(field_opcode(w)) == Some(
            i.opcode(),
        ),
{
    lemma_field_ranges(w);
}

/// Reads the second operand of an ADD or AND word.
fn decode_operand(w: u16) -> (src: Operand)
    ensures
        src == operand_spec(w),
{
    if (w >> 5) & 0x1 == 1 {
        Operand::Imm(sign_extend(w & 0x1F, 5))
    } else {
        Operand::Reg(w & 0x7)
    }
}

/// Decodes an instruction word. The result is `None` exactly for a TRAP whose
/// vector, bits 7 to 0, is not one of 0x20 to 0x25.
pub fn decode(w: u16) -> (r: Option<Instr>)
    ensures
        r == decode_spec(w),
        r is None <==> field_opcode(w) == 15 && !(0x20 <= field_vector(w) <= 0x25),
        r matches Some(i) ==> i.wf(),
{
    proof {
        lemma_decode_total(w);
    }
    let dr: u16 = (w >> 9) & 0x7;
    let sr1: u16 = (w >> 6) & 0x7;
    match Opcode::from_u16(w >> 12) {
        Some(Opcode::Br) => Some(
            Instr::Br {
                n: (w >> 11) & 0x1 == 1,
                z: (w >> 10) & 0x1 == 1,
                p: (w >> 9) & 0x1 == 1,
                offset: sign_extend(w & 0x1FF, 9),
            },
        ),
        Some(Opcode::Add) => Some(Instr::Add { dr, sr1, src: decode_operand(w) }),
        Some(Opcode::Ld) => Some(Instr::Ld { dr, offset: sign_extend(w & 0x1FF, 9) }),
        Some(Opcode::St) => Some(Instr::St { sr: dr, offset: sign_extend(w & 0x1FF, 9) }),
        Some(Opcode::Jsr) => if (w >> 11) & 0x1 == 1 {
            Some(Instr::Jsr { offset: sign_extend(w & 0x7FF, 11) })
        } else {
            Some(Instr::Jsrr { base: sr1 })
        },
        Some(Opcode::And) => Some(Instr::And { dr, sr1, src: decode_operand(w) }),
        Some(Opcode::Ldr) => Some(Instr::Ldr { dr, base: sr1, offset: sign_extend(w & 0x3F, 6) }),
        Some(Opcode::Str) => Some(
            Instr::Str { sr: dr, base: sr1, offset: sign_extend(w & 0x3F, 6) },
        ),
        Some(Opcode::Rti) => Some(Instr::Rti),
        Some(Opcode::Not) => Some(Instr::Not { dr, sr: sr1 }),
        Some(Opcode::Ldi) => Some(Instr::Ldi { dr, offset: sign_extend(w & 0x1FF, 9) }),
        Some(Opcode::Sti) => Some(Instr::Sti { sr: dr, offset: sign_extend(w & 0x1FF, 9) }),
        Some(Opcode::Jmp) => Some(Instr::Jmp { base: sr1 }),
        Some(Opcode::Res) => Some(Instr::Res),
        Some(Opcode::Lea) => Some(Instr::Lea { dr, offset: sign_extend(w & 0x1FF, 9) }),
        Some(Opcode::Trap) => match TrapVector::from_u16(w & 0xFF) {
            Some(vector) => Some(Instr::Trap { vector }),
            None => None,
        },
        None => None,
    }
}

} // verus!

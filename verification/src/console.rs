//! The machine's side of the console system calls: what a host has to write
//! for OUT, PUTS and PUTSP, and where a character read for GETC or IN goes.
//! Reading and writing the console itself is the host's work.

use vstd::prelude::*;
use crate::machine::{wrap16, Machine, MachineState, MEM_SIZE};

verus! {

/// Bits 7 to 0 of a word.
pub open spec fn low_byte(w: u16) -> u8 {
    (w & 0xFF) as u8
}

/// Bits 15 to 8 of a word.
pub open spec fn high_byte(w: u16) -> u8 {
    (w >> 8) as u8
}

/// A word is its two bytes, and both are zero only in the zero word.
pub proof fn lemma_bytes_of_word(w: u16)
    ensures
        w == high_byte(w) * 256 + low_byte(w),
        low_byte(w) == w % 256,
        high_byte(w) == w / 256,
{
    assert(w & 0xFF == w % 256) by (bit_vector);
    assert(w >> 8 == w / 256) by (bit_vector);
}

impl MachineState {
    /// The word `i` places after `start`; addresses wrap at 2^16.
    pub open spec fn word_at(self, start: u16, i: int) -> u16 {
        self.mem[wrap16(start + i) as int]
    }

    /// Byte `j` of the packed string at `start`: each word holds two
    /// characters, the low byte first.
    pub open spec fn packed_byte(self, start: u16, j: int) -> u8 {
        if j % 2 == 0 {
            low_byte(self.word_at(start, j / 2))
        } else {
            high_byte(self.word_at(start, j / 2))
        }
    }

    /// `chars` is the string at `start`, one character to a word: the low
    /// bytes of the words from `start` up to the first zero word. Where memory
    /// holds no zero word the string is all of memory, read once.
    pub open spec fn is_string(self, start: u16, chars: Seq<u8>) -> bool {
        &&& chars.len() <= MEM_SIZE
        &&& forall|i: int|
            #![trigger self.word_at(start, i)]
            #![trigger chars[i]]
            0 <= i < chars.len() ==> self.word_at(start, i) != 0 && chars[i] == low_byte(
                self.word_at(start, i),
            )
        &&& chars.len() < MEM_SIZE ==> self.word_at(start, chars.len() as int) == 0
    }

    /// `chars` is the packed string at `start`: the bytes from `start` up to
    /// the first zero byte. Where memory holds no zero byte the string is all of
    /// memory, read once.
    pub open spec fn is_packed_string(self, start: u16, chars: Seq<u8>) -> bool {
        &&& chars.len() <= 2 * MEM_SIZE
        &&& forall|j: int|
            #![trigger self.packed_byte(start, j)]
            #![trigger chars[j]]
            0 <= j < chars.len() ==> chars[j] != 0 && chars[j] == self.packed_byte(start, j)
        &&& chars.len() < 2 * MEM_SIZE ==> self.packed_byte(start, chars.len() as int) == 0
    }
}

/// A state has one string at each address.
pub proof fn lemma_string_unique(s: MachineState, start: u16, a: Seq<u8>, b: Seq<u8>)
    requires
        s.is_string(start, a),
        s.is_string(start, b),
    ensures
        a == b,
{
    if a.len() < b.len() {
        assert(s.word_at(start, a.len() as int) != 0);
    } else if b.len() < a.len() {
        assert(s.word_at(start, b.len() as int) != 0);
    }
    assert(a =~= b);
}

/// A state has one packed string at each address.
pub proof fn lemma_packed_string_unique(s: MachineState, start: u16, a: Seq<u8>, b: Seq<u8>)
    requires
        s.is_packed_string(start, a),
        s.is_packed_string(start, b),
    ensures
        a == b,
{
    if a.len() < b.len() {
        assert(b[a.len() as int] != 0);
    } else if b.len() < a.len() {
        assert(a[b.len() as int] != 0);
    }
    assert(a =~= b);
}

impl Machine {
    /// Takes the character that the host read for GETC or IN: R0 holds it in
    /// its low byte, with the high byte clear. Nothing else changes.
    pub fn receive_char(&mut self, c: u8)
        ensures
            final(self)@ == old(self)@.with_reg(0, c as u16),
    {
        self.setr(0, c as u16);
    }

    /// The character that OUT writes: the low byte of R0.
    pub fn out_char(&self) -> (c: u8)
        ensures
            c == low_byte(self@.reg[0]),
    {
        let w: u16 = self.getr(0);
        assert(w & 0xFF < 256) by (bit_vector);
        (w & 0xFF) as u8
    }

    /// The characters that PUTS writes: the string that R0 points at, one
    /// character to a word, up to the first zero word.
    pub fn puts_chars(&self) -> (out: Vec<u8>)
        ensures
            self@.is_string(self@.reg[0], out@),
    {
        let start: u16 = self.getr(0);
        let mut out: Vec<u8> = Vec::new();
        let mut addr: u16 = start;
        let mut n: usize = 0;
        while n < MEM_SIZE
            invariant
                n <= MEM_SIZE,
                out@.len() == n,
                addr == wrap16(start + n),
                start == self@.reg[0],
                forall|i: int|
                    #![trigger self@.word_at(start, i)]
                    #![trigger out@[i]]
                    0 <= i < n ==> self@.word_at(start, i) != 0 && out@[i] == low_byte(
                        self@.word_at(start, i),
                    ),
            decreases MEM_SIZE - n,
        {
            let w: u16 = self.getm(addr);
            assert(w == self@.word_at(start, n as int));
            if w == 0 {
                return out;
            }
            assert(w & 0xFF < 256) by (bit_vector);
            out.push((w & 0xFF) as u8);
            addr = addr.wrapping_add(1);
            n = n + 1;
        }
        out
    }

    /// The characters that PUTSP writes: the string that R0 points at, two
    /// characters to a word with the low byte first, up to the first zero byte.
    pub fn putsp_chars(&self) -> (out: Vec<u8>)
        ensures
            self@.is_packed_string(self@.reg[0], out@),
    {
        let start: u16 = self.getr(0);
        let mut out: Vec<u8> = Vec::new();
        let mut addr: u16 = start;
        let mut n: usize = 0;
        while n < MEM_SIZE
            invariant
                n <= MEM_SIZE,
                out@.len() == 2 * n,
                addr == wrap16(start + n),
                start == self@.reg[0],
                forall|j: int|
                    #![trigger self@.packed_byte(start, j)]
                    #![trigger out@[j]]
                    0 <= j < 2 * n ==> out@[j] != 0 && out@[j] == self@.packed_byte(start, j),
            decreases MEM_SIZE - n,
        {
            let w: u16 = self.getm(addr);
            assert(w & 0xFF < 256) by (bit_vector);
            assert(w >> 8 < 256) by (bit_vector);
            let lo: u8 = (w & 0xFF) as u8;
            let hi: u8 = (w >> 8) as u8;
            assert(w == self@.word_at(start, n as int));
            if lo == 0 {
                return out;
            }
            out.push(lo);
            if hi == 0 {
                return out;
            }
            out.push(hi);
            addr = addr.wrapping_add(1);
            n = n + 1;
        }
        out
    }
}

} // verus!

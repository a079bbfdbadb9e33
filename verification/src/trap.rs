//! The trap routines.

use vstd::prelude::*;
use crate::error::VmError;
use crate::machine::{Supply, MEMORY_WORDS};
use crate::outcome::{result_view, Outcome};
use crate::semantics::{
    packed_bytes, packed_word, string_bytes, terminator, trap_step, GETC, HALT, IN, OUT, PUTS,
    PUTSP,
};
use crate::vm::Vm;
use crate::word::{high_byte_of, low_byte, low_byte_of};

verus! {

impl Vm {
    /// The characters of the string at `start`, one a word.
    pub fn string_at(&self, start: u16) -> (out: Vec<u8>)
        ensures
            out@ == string_bytes(self@.mem, start),
    {
        let mut out: Vec<u8> = Vec::new();
        let mut at: usize = start as usize;
        let ghost mem = self@.mem;
        proof {
            use_type_invariant(self);
        }
        while at < MEMORY_WORDS
            invariant
                start <= at <= MEMORY_WORDS,
                mem == self@.mem,
                mem.len() == MEMORY_WORDS,
                terminator(mem, at as int) == terminator(mem, start as int),
                out@ == Seq::new((at - start) as nat, |i: int| low_byte(mem[start + i])),
            decreases MEMORY_WORDS - at,
        {
            let word = self.peek(at as u16);
            if word == 0 {
                return out;
            }
            out.push(low_byte_of(word));
            at += 1;
        }
        Vec::new()
    }

    /// The characters of the packed string at `start`, two a word.
    pub fn packed_string_at(&self, start: u16) -> (out: Vec<u8>)
        ensures
            out@ == packed_bytes(self@.mem, start as int),
    {
        let mut out: Vec<u8> = Vec::new();
        let mut at: usize = start as usize;
        let ghost mem = self@.mem;
        proof {
            use_type_invariant(self);
        }
        while at < MEMORY_WORDS
            invariant
                start <= at <= MEMORY_WORDS,
                mem == self@.mem,
                mem.len() == MEMORY_WORDS,
                out@ + packed_bytes(mem, at as int) == packed_bytes(mem, start as int),
            decreases MEMORY_WORDS - at,
        {
            let word = self.peek(at as u16);
            let low = low_byte_of(word);
            if low == 0 {
                assert(out@ + Seq::<u8>::empty() =~= out@);
                return out;
            }
            let high = high_byte_of(word);
            let ghost before = out@;
            out.push(low);
            if high != 0 {
                out.push(high);
            }
            assert(out@ =~= before + packed_word(word));
            assert((before + packed_word(word)) + packed_bytes(mem, at + 1) =~= before + (
            packed_word(word) + packed_bytes(mem, at + 1)));
            at += 1;
        }
        assert(out@ + Seq::<u8>::empty() =~= out@);
        out
    }

    /// Runs the trap routine `vector`. R7 is expected to hold the return
    /// address already.
    pub fn trap(&mut self, vector: u16, supply: Supply) -> (r: Result<Outcome, VmError>)
        ensures
            final(self)@ == trap_step(old(self)@, vector, supply).next,
            result_view(r) == trap_step(old(self)@, vector, supply).result,
    {
        let r0 = self.reg(0);
        if vector == GETC {
            self.set_reg(0, supply.key as u16);
            self.set_cc(0);
            Ok(Outcome::silent())
        } else if vector == OUT {
            Ok(Outcome::shows_byte(low_byte_of(r0)))
        } else if vector == PUTS {
            Ok(Outcome::shows(self.string_at(r0)))
        } else if vector == IN {
            Ok(Outcome::shows_byte(supply.key))
        } else if vector == PUTSP {
            Ok(Outcome::shows(self.packed_string_at(r0)))
        } else if vector == HALT {
            Ok(Outcome::halts())
        } else {
            Err(VmError::InvalidTrap(vector))
        }
    }
}

} // verus!

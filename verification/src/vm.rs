//! The machine itself: registers, backing storage and the decoding of the
//! device registers on every read and write.

use vstd::prelude::*;
use crate::flag::Flag;
use crate::machine::{
    read_word, write_effect, Machine, Supply, DDR, DSR, KBDR, KBSR, MEMORY_WORDS, READY,
};
use crate::outcome::Outcome;
use crate::word::low_byte_of;

verus! {

/// A machine of 65536 words, eight registers, a program counter and a status
/// register.
pub struct Vm {
    memory: Vec<u16>,
    pc: u16,
    reg: [u16; 8],
    psr: u16,
}

impl View for Vm {
    type V = Machine;

    closed spec fn view(&self) -> Machine {
        Machine { mem: self.memory@, reg: self.reg@, pc: self.pc, psr: self.psr }
    }
}

impl Vm {
    /// Holds of every machine: it has all its storage and registers.
    #[verifier::type_invariant]
    pub open spec fn inv(&self) -> bool {
        self@.wf()
    }

    /// A machine with zeroed storage and registers, about to run at `pc` with
    /// `psr` in its status register.
    pub fn new(pc: u16, psr: u16) -> (vm: Vm)
        ensures
            vm@.wf(),
            vm@.pc == pc,
            vm@.psr == psr,
            forall|a: int| 0 <= a < MEMORY_WORDS ==> vm@.mem[a] == 0,
            forall|r: int| 0 <= r < 8 ==> vm@.reg[r] == 0,
    {
        Vm { memory: vec![0u16; MEMORY_WORDS], pc, reg: [0u16; 8], psr }
    }

    /// The program counter.
    pub fn pc(&self) -> (r: u16)
        ensures
            r == self@.pc,
    {
        self.pc
    }

    /// The status register.
    pub fn psr(&self) -> (r: u16)
        ensures
            r == self@.psr,
    {
        self.psr
    }

    /// The value of register `r`.
    pub fn reg(&self, r: usize) -> (val: u16)
        requires
            r < 8,
        ensures
            val == self@.reg[r as int],
    {
        self.reg[r]
    }

    /// The word stored at `addr`, with no device decoding.
    pub fn peek(&self, addr: u16) -> (val: u16)
        ensures
            val == self@.mem[addr as int],
    {
        proof {
            use_type_invariant(self);
        }
        self.memory[addr as usize]
    }

    /// Stores `val` at `addr`, with no device decoding.
    pub fn poke(&mut self, addr: u16, val: u16)
        ensures
            final(self)@ == (Machine { mem: old(self)@.mem.update(addr as int, val), ..old(self)@ }),
    {
        proof {
            use_type_invariant(&*self);
        }
        self.memory[addr as usize] = val;
    }

    /// Moves the program counter to `pc`.
    pub fn set_pc(&mut self, pc: u16)
        ensures
            final(self)@ == old(self)@.jump(pc),
    {
        proof {
            use_type_invariant(&*self);
        }
        self.pc = pc;
    }

    /// The word that a read of `addr` yields, given what the keyboard
    /// supplied.
    pub fn read_mem(&self, addr: u16, supply: Supply) -> (r: u16)
        ensures
            r == read_word(self@.mem, addr, supply),
    {
        proof {
            use_type_invariant(self);
        }
        if addr == KBSR {
            if supply.ready {
                READY
            } else {
                0
            }
        } else if addr == KBDR {
            if supply.ready {
                supply.key as u16
            } else {
                0
            }
        } else if addr == DSR {
            READY
        } else if addr == DDR {
            0
        } else {
            self.memory[addr as usize]
        }
    }

    /// Writes `val` to `addr`. A write to the display data register leaves
    /// the storage as it is and asks the host to show the low byte of `val`
    /// at once; a write to another device register does nothing.
    pub fn write_mem(&mut self, addr: u16, val: u16) -> (out: Outcome)
        ensures
            final(self)@ == old(self)@.store(addr, val),
            out@ == write_effect(addr, val),
    {
        proof {
            use_type_invariant(&*self);
        }
        if addr == DDR {
            Outcome::shows_byte(low_byte_of(val))
        } else if addr == KBSR || addr == KBDR || addr == DSR {
            Outcome::silent()
        } else {
            self.memory[addr as usize] = val;
            Outcome::silent()
        }
    }

    /// Sets the condition code from register `r`.
    pub fn set_cc(&mut self, r: usize)
        requires
            r < 8,
        ensures
            final(self)@ == old(self)@.with_cc(r as int),
    {
        proof {
            use_type_invariant(&*self);
        }
        self.psr = Flag::classify(self.reg[r]).bits();
    }

    /// Puts `val` in register `r`.
    pub fn set_reg(&mut self, r: usize, val: u16)
        requires
            r < 8,
        ensures
            final(self)@ == old(self)@.with_reg(r as int, val),
    {
        proof {
            use_type_invariant(&*self);
        }
        self.reg[r] = val;
    }
}

impl Default for Vm {
    /// A zeroed machine about to run at address 0, with no condition code set.
    fn default() -> (vm: Vm)
        ensures
            vm@.wf(),
            vm@.pc == 0,
            vm@.psr == 0,
            forall|a: int| 0 <= a < MEMORY_WORDS ==> vm@.mem[a] == 0,
            forall|r: int| 0 <= r < 8 ==> vm@.reg[r] == 0,
    {
        Vm::new(0, 0)
    }
}

} // verus!

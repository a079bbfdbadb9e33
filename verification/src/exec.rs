//! Fetch, decode, execute.

use vstd::prelude::*;
use crate::decode::{
    base_of, dr_of, has_immediate, has_offset, opcode_of, src2_of, vector_of, Opcode,
};
use crate::error::VmError;
use crate::machine::{write_effect, Supply, KBDR, KBSR};
use crate::outcome::{result_view, Outcome};
use crate::semantics::{
    base_target, instruction_step, machine_need, machine_prompt, machine_step, pc_target,
    prompt_text, read_need, second_operand, Need, GETC, IN,
};
use crate::vm::Vm;
use crate::word::{add_words, sign_ext};

verus! {

/// What the host is to do before the next instruction.
#[derive(Debug, PartialEq, Eq)]
pub struct Request {
    /// Bytes to show, and flush, before the keyboard is consulted.
    pub prompt: Vec<u8>,
    /// What to get from the keyboard.
    pub need: Need,
}

/// What a read of `addr` needs from the keyboard.
pub fn need_of_read(addr: u16) -> (r: Need)
    ensures
        r == read_need(addr),
{
    if addr == KBSR {
        Need::Status
    } else if addr == KBDR {
        Need::Data
    } else {
        Need::Nothing
    }
}

/// The prompt of the trap `IN`.
pub fn prompt() -> (r: Vec<u8>)
    ensures
        r@ == prompt_text(),
{
    let r: Vec<u8> = vec![
        0x45u8, 0x6e, 0x74, 0x65, 0x72, 0x20, 0x61, 0x20, 0x63, 0x68, 0x61, 0x72, 0x61, 0x63, 0x74,
        0x65, 0x72, 0x3a, 0x20,
    ];
    assert(r@ =~= prompt_text());
    r
}

impl Vm {
    fn pc_relative(&self, inst: u16) -> (r: u16)
        ensures
            r == pc_target(self@, inst),
    {
        add_words(self.pc(), sign_ext(inst, 9))
    }

    fn base_relative(&self, inst: u16) -> (r: u16)
        ensures
            r == base_target(self@, inst),
    {
        add_words(self.reg(base_of(inst)), sign_ext(inst, 6))
    }

    fn operand(&self, inst: u16) -> (r: u16)
        ensures
            r == second_operand(self@, inst),
    {
        if has_immediate(inst) {
            sign_ext(inst, 5)
        } else {
            self.reg(src2_of(inst))
        }
    }

    fn load_reg(&mut self, r: usize, val: u16)
        requires
            r < 8,
        ensures
            final(self)@ == old(self)@.load(r as int, val),
    {
        self.set_reg(r, val);
        self.set_cc(r);
    }

    fn store_from(&mut self, addr: u16, r: usize) -> (out: Outcome)
        requires
            r < 8,
        ensures
            final(self)@ == old(self)@.store(addr, old(self)@.reg[r as int]),
            out@ == write_effect(addr, old(self)@.reg[r as int]),
    {
        let val = self.reg(r);
        self.write_mem(addr, val)
    }

    /// Executes instruction `inst`. The program counter is expected to point
    /// behind it already.
    pub fn execute(&mut self, inst: u16, supply: Supply) -> (r: Result<Outcome, VmError>)
        ensures
            final(self)@ == instruction_step(old(self)@, inst, supply).next,
            result_view(r) == instruction_step(old(self)@, inst, supply).result,
    {
        let code = opcode_of(inst);
        let op = match Opcode::try_from(code) {
            Ok(op) => op,
            Err(_) => {
                return Err(VmError::InvalidOpcode(code));
            },
        };
        let dr = dr_of(inst);
        let base = base_of(inst);
        match op {
            Opcode::Br => {
                let mask: u16 = dr as u16;
                if mask & (self.psr() & 0b111) != 0 {
                    let target = self.pc_relative(inst);
                    self.set_pc(target);
                }
                Ok(Outcome::silent())
            },
            Opcode::Add => {
                let sum = add_words(self.reg(base), self.operand(inst));
                self.load_reg(dr, sum);
                Ok(Outcome::silent())
            },
            Opcode::Ld => {
                let val = self.read_mem(self.pc_relative(inst), supply);
                self.load_reg(dr, val);
                Ok(Outcome::silent())
            },
            Opcode::St => {
                let addr = self.pc_relative(inst);
                Ok(self.store_from(addr, dr))
            },
            Opcode::Jsr => {
                let back = self.pc();
                let target = if has_offset(inst) {
                    add_words(back, sign_ext(inst, 11))
                } else {
                    self.reg(base)
                };
                self.set_pc(target);
                self.set_reg(7, back);
                Ok(Outcome::silent())
            },
            Opcode::And => {
                let val = self.reg(base) & self.operand(inst);
                self.load_reg(dr, val);
                Ok(Outcome::silent())
            },
            Opcode::Ldr => {
                let val = self.read_mem(self.base_relative(inst), supply);
                self.load_reg(dr, val);
                Ok(Outcome::silent())
            },
            Opcode::Str => {
                let addr = self.base_relative(inst);
                Ok(self.store_from(addr, dr))
            },
            Opcode::Not => {
                let val = !self.reg(base);
                self.load_reg(dr, val);
                Ok(Outcome::silent())
            },
            Opcode::Ldi => {
                let addr = self.read_mem(self.pc_relative(inst), supply);
                let val = self.read_mem(addr, supply);
                self.load_reg(dr, val);
                Ok(Outcome::silent())
            },
            Opcode::Sti => {
                let addr = self.read_mem(self.pc_relative(inst), supply);
                Ok(self.store_from(addr, dr))
            },
            Opcode::Jmp => {
                let target = self.reg(base);
                self.set_pc(target);
                Ok(Outcome::silent())
            },
            Opcode::Lea => {
                let val = self.pc_relative(inst);
                self.load_reg(dr, val);
                Ok(Outcome::silent())
            },
            Opcode::Trap => {
                let back = self.pc();
                self.set_reg(7, back);
                self.trap(vector_of(inst), supply)
            },
            Opcode::Rti | Opcode::Reserved => Err(VmError::InvalidOpcode(code)),
        }
    }

    /// What the host is to do before the next turn: what to show first, and
    /// what to get from the keyboard. The machine is left as it is.
    pub fn demand(&self) -> (r: Request)
        ensures
            r.need == machine_need(self@),
            r.prompt@ == machine_prompt(self@),
    {
        let pc = self.pc();
        let fetch = need_of_read(pc);
        if fetch != Need::Nothing {
            return Request { prompt: Vec::new(), need: fetch };
        }
        let inst = self.read_mem(pc, Supply { ready: false, key: 0 });
        let next = add_words(pc, 1);
        let code = opcode_of(inst);
        let need = match Opcode::try_from(code) {
            Ok(Opcode::Ld) | Ok(Opcode::Sti) => need_of_read(add_words(next, sign_ext(inst, 9))),
            Ok(Opcode::Ldr) => need_of_read(
                add_words(self.reg(base_of(inst)), sign_ext(inst, 6)),
            ),
            Ok(Opcode::Ldi) => {
                let first = add_words(next, sign_ext(inst, 9));
                let direct = need_of_read(first);
                if direct != Need::Nothing {
                    direct
                } else {
                    need_of_read(self.read_mem(first, Supply { ready: false, key: 0 }))
                }
            },
            Ok(Opcode::Trap) => {
                let vector = vector_of(inst);
                if vector == IN {
                    return Request { prompt: prompt(), need: Need::Key };
                }
                if vector == GETC {
                    Need::Key
                } else {
                    Need::Nothing
                }
            },
            _ => Need::Nothing,
        };
        Request { prompt: Vec::new(), need }
    }

    /// One turn of the machine: fetches the word at the program counter,
    /// advances the counter, executes the word. `supply` is what the
    /// keyboard gave in answer to [`Vm::demand`].
    pub fn step(&mut self, supply: Supply) -> (r: Result<Outcome, VmError>)
        ensures
            final(self)@ == machine_step(old(self)@, supply).next,
            result_view(r) == machine_step(old(self)@, supply).result,
    {
        let pc = self.pc();
        let inst = self.read_mem(pc, supply);
        self.set_pc(add_words(pc, 1));
        self.execute(inst, supply)
    }
}

} // verus!

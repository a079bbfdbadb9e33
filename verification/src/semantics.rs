//! What one instruction does, as a function from a machine and the
//! keyboard's supply to the next machine and what the host is to do.

use vstd::prelude::*;
use crate::decode::{
    base_field, dr_field, immediate_mode, offset_mode, opcode_field, src2_field, vector_field,
    Opcode,
};
use crate::error::VmError;
use crate::machine::{read_word, write_effect, Machine, Supply, KBDR, KBSR};
use crate::outcome::{halts, shows, silent, Effect};
use crate::word::{high_byte, low_byte, sign_extend, word_add};

verus! {

/// Trap vector: read one key into R0.
pub const GETC: u16 = 0x20;

/// Trap vector: show the low byte of R0.
pub const OUT: u16 = 0x21;

/// Trap vector: show the string at R0, one character a word.
pub const PUTS: u16 = 0x22;

/// Trap vector: prompt for a key and echo it.
pub const IN: u16 = 0x23;

/// Trap vector: show the string at R0, two characters a word.
pub const PUTSP: u16 = 0x24;

/// Trap vector: stop.
pub const HALT: u16 = 0x25;

/// The next machine, and the instruction's effect or the fault that stopped
/// it.
pub struct Step {
    pub next: Machine,
    pub result: Result<Effect, VmError>,
}

/// What the next instruction needs from the keyboard.
#[derive(Clone, Copy, Debug, PartialEq, Eq, Structural)]
pub enum Need {
    /// Nothing: the keyboard is not consulted.
    Nothing,
    /// Whether a byte waits, without taking it.
    Status,
    /// Whether a byte waits, and that byte if one does.
    Data,
    /// One byte, waiting for it as long as it takes.
    Key,
}

/// A step that goes on silently with machine `next`.
pub open spec fn onward(next: Machine) -> Step {
    Step { next, result: Ok(silent()) }
}

/// The address that an instruction with a nine-bit offset names: so many
/// words from the program counter.
pub open spec fn pc_target(m: Machine, inst: u16) -> u16 {
    word_add(m.pc, sign_extend(inst, 9))
}

/// The address that an instruction with a base register and a six-bit offset
/// names.
pub open spec fn base_target(m: Machine, inst: u16) -> u16 {
    word_add(m.reg[base_field(inst)], sign_extend(inst, 6))
}

/// The second operand of an arithmetic instruction: the five-bit immediate
/// in immediate mode, else the second source register.
pub open spec fn second_operand(m: Machine, inst: u16) -> u16 {
    if immediate_mode(inst) {
        sign_extend(inst, 5)
    } else {
        m.reg[src2_field(inst)]
    }
}

/// Whether a branch is taken: its mask names the current condition code.
pub open spec fn branch_taken(m: Machine, inst: u16) -> bool {
    (dr_field(inst) as u16) & (m.psr & 0b111) != 0
}

/// Where a subroutine call goes.
pub open spec fn call_target(m: Machine, inst: u16) -> u16 {
    if offset_mode(inst) {
        word_add(m.pc, sign_extend(inst, 11))
    } else {
        m.reg[base_field(inst)]
    }
}

/// The address of the first zero word at or after `from`, or the size of the
/// storage if there is none.
pub open spec fn terminator(mem: Seq<u16>, from: int) -> int
    decreases mem.len() - from,
{
    if from >= mem.len() {
        mem.len() as int
    } else if mem[from] == 0 {
        from
    } else {
        terminator(mem, from + 1)
    }
}

/// The characters of the string at `start`, one a word, up to its zero word.
/// A string that no zero word ends before the storage does shows nothing.
pub open spec fn string_bytes(mem: Seq<u16>, start: u16) -> Seq<u8> {
    let end = terminator(mem, start as int);
    if end < mem.len() {
        Seq::new((end - start) as nat, |i: int| low_byte(mem[start + i]))
    } else {
        Seq::empty()
    }
}

/// The characters packed in one word: the low byte, then the high byte
/// unless it is zero.
pub open spec fn packed_word(word: u16) -> Seq<u8> {
    if high_byte(word) != 0 {
        seq![low_byte(word), high_byte(word)]
    } else {
        seq![low_byte(word)]
    }
}

/// The characters of the packed string at `from`: those of each word up to
/// the first whose low byte is zero, or to the end of the storage.
pub open spec fn packed_bytes(mem: Seq<u16>, from: int) -> Seq<u8>
    decreases mem.len() - from,
{
    if from >= mem.len() || low_byte(mem[from]) == 0 {
        Seq::empty()
    } else {
        packed_word(mem[from]) + packed_bytes(mem, from + 1)
    }
}

/// What the trap routine `vector` does to machine `m`, whose R7 already
/// holds the return address.
pub open spec fn trap_step(m: Machine, vector: u16, supply: Supply) -> Step {
    if vector == GETC {
        onward(m.load(0, supply.key as u16))
    } else if vector == OUT {
        Step { next: m, result: Ok(shows(seq![low_byte(m.reg[0])])) }
    } else if vector == PUTS {
        Step { next: m, result: Ok(shows(string_bytes(m.mem, m.reg[0]))) }
    } else if vector == IN {
        Step { next: m, result: Ok(shows(seq![supply.key])) }
    } else if vector == PUTSP {
        Step { next: m, result: Ok(shows(packed_bytes(m.mem, m.reg[0] as int))) }
    } else if vector == HALT {
        Step { next: m, result: Ok(halts()) }
    } else {
        Step { next: m, result: Err(VmError::InvalidTrap(vector)) }
    }
}

/// What instruction `inst` does to machine `m`, whose program counter
/// already points behind it.
pub open spec fn instruction_step(m: Machine, inst: u16, supply: Supply) -> Step {
    let dr = dr_field(inst);
    let base = base_field(inst);
    match Opcode::of(opcode_field(inst)) {
        Some(Opcode::Br) => onward(
            if branch_taken(m, inst) {
                m.jump(pc_target(m, inst))
            } else {
                m
            },
        ),
        Some(Opcode::Add) => onward(m.load(dr, word_add(m.reg[base], second_operand(m, inst)))),
        Some(Opcode::And) => onward(m.load(dr, m.reg[base] & second_operand(m, inst))),
        Some(Opcode::Not) => onward(m.load(dr, !m.reg[base])),
        Some(Opcode::Ld) => onward(m.load(dr, read_word(m.mem, pc_target(m, inst), supply))),
        Some(Opcode::Ldi) => onward(
            m.load(
                dr,
                read_word(m.mem, read_word(m.mem, pc_target(m, inst), supply), supply),
            ),
        ),
        Some(Opcode::Ldr) => onward(m.load(dr, read_word(m.mem, base_target(m, inst), supply))),
        Some(Opcode::Lea) => onward(m.load(dr, pc_target(m, inst))),
        Some(Opcode::St) => Step {
            next: m.store(pc_target(m, inst), m.reg[dr]),
            result: Ok(write_effect(pc_target(m, inst), m.reg[dr])),
        },
        Some(Opcode::Sti) => {
            let addr = read_word(m.mem, pc_target(m, inst), supply);
            Step { next: m.store(addr, m.reg[dr]), result: Ok(write_effect(addr, m.reg[dr])) }
        },
        Some(Opcode::Str) => Step {
            next: m.store(base_target(m, inst), m.reg[dr]),
            result: Ok(write_effect(base_target(m, inst), m.reg[dr])),
        },
        Some(Opcode::Jmp) => onward(m.jump(m.reg[base])),
        Some(Opcode::Jsr) => onward(m.with_reg(7, m.pc).jump(call_target(m, inst))),
        Some(Opcode::Trap) => trap_step(m.with_reg(7, m.pc), vector_field(inst), supply),
        Some(Opcode::Rti) | Some(Opcode::Reserved) | None => Step {
            next: m,
            result: Err(VmError::InvalidOpcode(opcode_field(inst))),
        },
    }
}

/// One turn of the machine: fetch the word at the program counter, advance
/// the counter by one, execute the word.
pub open spec fn machine_step(m: Machine, supply: Supply) -> Step {
    instruction_step(m.jump(word_add(m.pc, 1)), read_word(m.mem, m.pc, supply), supply)
}

/// What a read of `addr` needs from the keyboard.
pub open spec fn read_need(addr: u16) -> Need {
    if addr == KBSR {
        Need::Status
    } else if addr == KBDR {
        Need::Data
    } else {
        Need::Nothing
    }
}

/// What instruction `inst` needs from the keyboard on machine `m`, whose
/// program counter already points behind it.
pub open spec fn instruction_need(m: Machine, inst: u16) -> Need {
    match Opcode::of(opcode_field(inst)) {
        Some(Opcode::Ld) | Some(Opcode::Sti) => read_need(pc_target(m, inst)),
        Some(Opcode::Ldr) => read_need(base_target(m, inst)),
        Some(Opcode::Ldi) => {
            let first = pc_target(m, inst);
            if read_need(first) != Need::Nothing {
                read_need(first)
            } else {
                read_need(read_word(m.mem, first, Supply { ready: false, key: 0 }))
            }
        },
        Some(Opcode::Trap) => if vector_field(inst) == GETC || vector_field(inst) == IN {
            Need::Key
        } else {
            Need::Nothing
        },
        _ => Need::Nothing,
    }
}

/// What the next turn of machine `m` needs from the keyboard.
pub open spec fn machine_need(m: Machine) -> Need {
    if read_need(m.pc) != Need::Nothing {
        read_need(m.pc)
    } else {
        instruction_need(
            m.jump(word_add(m.pc, 1)),
            read_word(m.mem, m.pc, Supply { ready: false, key: 0 }),
        )
    }
}

/// The text shown before a key is taken for the trap `IN`: "Enter a
/// character: ".
pub open spec fn prompt_text() -> Seq<u8> {
    seq![
        0x45u8, 0x6e, 0x74, 0x65, 0x72, 0x20, 0x61, 0x20, 0x63, 0x68, 0x61, 0x72, 0x61, 0x63, 0x74,
        0x65, 0x72, 0x3a, 0x20,
    ]
}

/// What the host is to show before it serves the next turn of machine `m`:
/// the prompt if that turn is the trap `IN`, else nothing.
pub open spec fn machine_prompt(m: Machine) -> Seq<u8> {
    let inst = read_word(m.mem, m.pc, Supply { ready: false, key: 0 });
    if read_need(m.pc) == Need::Nothing && Opcode::of(opcode_field(inst)) == Some(Opcode::Trap)
        && vector_field(inst) == IN {
        prompt_text()
    } else {
        Seq::empty()
    }
}

/// Whether two supplies agree in all that `need` asks for.
pub open spec fn same_for(need: Need, a: Supply, b: Supply) -> bool {
    match need {
        Need::Nothing => true,
        Need::Status => a.ready == b.ready,
        Need::Data => a.ready == b.ready && (a.ready ==> a.key == b.key),
        Need::Key => a.key == b.key,
    }
}

} // verus!

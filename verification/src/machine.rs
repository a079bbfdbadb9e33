//! The mathematical model of the machine: its state, what the keyboard
//! supplies, and how the four device registers decode.

use vstd::prelude::*;
use crate::flag::Flag;
use crate::outcome::{shows, silent, Effect};
use crate::word::low_byte;

verus! {

/// Number of words in the address space.
pub const MEMORY_WORDS: usize = 0x1_0000;

/// Number of general registers.
pub const REGISTERS: usize = 8;

/// Keyboard status register.
pub const KBSR: u16 = 0xFE00;

/// Keyboard data register.
pub const KBDR: u16 = 0xFE02;

/// Display status register.
pub const DSR: u16 = 0xFE04;

/// Display data register.
pub const DDR: u16 = 0xFE06;

/// What a status register holds when its device is ready.
pub const READY: u16 = 0x80;

/// The state of a machine as plain values.
pub struct Machine {
    /// Backing storage, one word per address.
    pub mem: Seq<u16>,
    /// The general registers.
    pub reg: Seq<u16>,
    /// Address of the next instruction.
    pub pc: u16,
    /// The status register; its lowest three bits are the condition code.
    pub psr: u16,
}

impl Machine {
    /// Every address has a word and every register selector a register.
    pub open spec fn wf(self) -> bool {
        self.mem.len() == MEMORY_WORDS && self.reg.len() == REGISTERS
    }

    /// This machine with `value` in register `r`.
    pub open spec fn with_reg(self, r: int, value: u16) -> Machine {
        Machine { reg: self.reg.update(r, value), ..self }
    }

    /// This machine with the condition code set from register `r`.
    pub open spec fn with_cc(self, r: int) -> Machine {
        Machine { psr: Flag::of(self.reg[r]).mask(), ..self }
    }

    /// This machine after `value` was loaded into register `r`: the register
    /// holds it and the condition code tells its sign.
    pub open spec fn load(self, r: int, value: u16) -> Machine {
        self.with_reg(r, value).with_cc(r)
    }

    /// This machine with the program counter at `pc`.
    pub open spec fn jump(self, pc: u16) -> Machine {
        Machine { pc, ..self }
    }

    /// This machine after a write of `value` to `addr`.
    pub open spec fn store(self, addr: u16, value: u16) -> Machine {
        Machine { mem: store_word(self.mem, addr, value), ..self }
    }
}

/// What the keyboard provided for one instruction: whether a byte was
/// waiting, and the byte that was read.
#[derive(Clone, Copy, Debug, PartialEq, Eq, Structural)]
pub struct Supply {
    pub ready: bool,
    pub key: u8,
}

/// Whether `addr` is one of the four device registers.
pub open spec fn is_device(addr: u16) -> bool {
    addr == KBSR || addr == KBDR || addr == DSR || addr == DDR
}

/// The word that a read of `addr` yields. The keyboard status tells whether a
/// byte waits; the keyboard data register yields that byte, or zero when none
/// waits; the display is always ready and its data register reads as zero.
pub open spec fn read_word(mem: Seq<u16>, addr: u16, supply: Supply) -> u16 {
    if addr == KBSR {
        if supply.ready {
            READY
        } else {
            0
        }
    } else if addr == KBDR {
        if supply.ready {
            supply.key as u16
        } else {
            0
        }
    } else if addr == DSR {
        READY
    } else if addr == DDR {
        0
    } else {
        mem[addr as int]
    }
}

/// Backing storage after a write of `value` to `addr`: device registers keep
/// it untouched.
pub open spec fn store_word(mem: Seq<u16>, addr: u16, value: u16) -> Seq<u16> {
    if is_device(addr) {
        mem
    } else {
        mem.update(addr as int, value)
    }
}

/// What a write of `value` to `addr` asks of the host: to show the low byte
/// and flush at once if `addr` is the display data register, else nothing.
pub open spec fn write_effect(addr: u16, value: u16) -> Effect {
    if addr == DDR {
        shows(seq![low_byte(value)])
    } else {
        silent()
    }
}

} // verus!

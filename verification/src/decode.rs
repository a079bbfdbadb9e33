//! The fields of an instruction word.
//!
//! ```text
//!  15..12   11..9    8..6    5     4..0
//!  opcode   dr/sr    base    mode  imm5 / sr2
//! ```

use vstd::prelude::*;

verus! {

/// The operation that the top four bits of an instruction select.
#[derive(Clone, Copy, Debug, PartialEq, Eq, Structural)]
pub enum Opcode {
    Br,
    Add,
    Ld,
    St,
    Jsr,
    And,
    Ldr,
    Str,
    Rti,
    Not,
    Ldi,
    Sti,
    Jmp,
    Reserved,
    Lea,
    Trap,
}

/// A number that is no operation code.
#[derive(Clone, Copy, Debug, PartialEq, Eq, Structural)]
pub struct OpcodeConvertErr;

impl Opcode {
    /// The operation with a given code, if the code has four bits.
    pub open spec fn of(code: u16) -> Option<Opcode> {
        if code == 0 {
            Some(Opcode::Br)
        } else if code == 1 {
            Some(Opcode::Add)
        } else if code == 2 {
            Some(Opcode::Ld)
        } else if code == 3 {
            Some(Opcode::St)
        } else if code == 4 {
            Some(Opcode::Jsr)
        } else if code == 5 {
            Some(Opcode::And)
        } else if code == 6 {
            Some(Opcode::Ldr)
        } else if code == 7 {
            Some(Opcode::Str)
        } else if code == 8 {
            Some(Opcode::Rti)
        } else if code == 9 {
            Some(Opcode::Not)
        } else if code == 10 {
            Some(Opcode::Ldi)
        } else if code == 11 {
            Some(Opcode::Sti)
        } else if code == 12 {
            Some(Opcode::Jmp)
        } else if code == 13 {
            Some(Opcode::Reserved)
        } else if code == 14 {
            Some(Opcode::Lea)
        } else if code == 15 {
            Some(Opcode::Trap)
        } else {
            None
        }
    }

    /// The code of this operation.
    pub open spec fn code(self) -> u16 {
        match self {
            Opcode::Br => 0,
            Opcode::Add => 1,
            Opcode::Ld => 2,
            Opcode::St => 3,
            Opcode::Jsr => 4,
            Opcode::And => 5,
            Opcode::Ldr => 6,
            Opcode::Str => 7,
            Opcode::Rti => 8,
            Opcode::Not => 9,
            Opcode::Ldi => 10,
            Opcode::Sti => 11,
            Opcode::Jmp => 12,
            Opcode::Reserved => 13,
            Opcode::Lea => 14,
            Opcode::Trap => 15,
        }
    }

    /// Whether executing this operation writes a general register and so
    /// sets the condition code.
    pub open spec fn writes_register(self) -> bool {
        self == Opcode::Add || self == Opcode::And || self == Opcode::Not || self == Opcode::Ld
            || self == Opcode::Ldi || self == Opcode::Ldr || self == Opcode::Lea
    }

    /// Whether this operation is left unimplemented.
    pub open spec fn is_reserved(self) -> bool {
        self == Opcode::Rti || self == Opcode::Reserved
    }

    /// The operation with code `val`; an error if `val` has more than four
    /// bits.
    pub fn try_from(val: u16) -> (r: Result<Opcode, OpcodeConvertErr>)
        ensures
            r.is_ok() <==> val <= 15,
            r.ok() == Opcode::of(val),
    {
        match val {
            0 => Ok(Opcode::Br),
            1 => Ok(Opcode::Add),
            2 => Ok(Opcode::Ld),
            3 => Ok(Opcode::St),
            4 => Ok(Opcode::Jsr),
            5 => Ok(Opcode::And),
            6 => Ok(Opcode::Ldr),
            7 => Ok(Opcode::Str),
            8 => Ok(Opcode::Rti),
            9 => Ok(Opcode::Not),
            10 => Ok(Opcode::Ldi),
            11 => Ok(Opcode::Sti),
            12 => Ok(Opcode::Jmp),
            13 => Ok(Opcode::Reserved),
            14 => Ok(Opcode::Lea),
            15 => Ok(Opcode::Trap),
            _ => Err(OpcodeConvertErr),
        }
    }
}

/// Bits 15 to 12: the operation code.
pub open spec fn opcode_field(inst: u16) -> u16 {
    inst / 0x1000
}

/// Bits 11 to 9: the destination or source register, or a branch's condition
/// mask.
pub open spec fn dr_field(inst: u16) -> int {
    (inst as int / 0x200) % 8
}

/// Bits 8 to 6: the first source or base register.
pub open spec fn base_field(inst: u16) -> int {
    (inst as int / 0x40) % 8
}

/// Bits 2 to 0: the second source register.
pub open spec fn src2_field(inst: u16) -> int {
    inst as int % 8
}

/// Bit 5: whether an arithmetic instruction takes its second operand from the
/// instruction itself.
pub open spec fn immediate_mode(inst: u16) -> bool {
    (inst as int / 0x20) % 2 == 1
}

/// Bit 11: whether a subroutine call gives its target as an offset.
pub open spec fn offset_mode(inst: u16) -> bool {
    (inst as int / 0x800) % 2 == 1
}

/// Bits 7 to 0: the trap vector.
pub open spec fn vector_field(inst: u16) -> u16 {
    inst % 0x100
}

/// The operation code of an instruction.
pub fn opcode_of(inst: u16) -> (r: u16)
    ensures
        r == opcode_field(inst),
        r <= 15,
{
    let r: u16 = inst >> 12;
    assert(r == inst / 0x1000 && r <= 15) by (bit_vector)
        requires
            r == inst >> 12,
    ;
    r
}

/// The register, or condition mask, in bits 11 to 9.
pub fn dr_of(inst: u16) -> (r: usize)
    ensures
        r == dr_field(inst),
        r < 8,
{
    let r: u16 = inst >> 9 & 0b111;
    assert(r == (inst / 0x200) % 8) by (bit_vector)
        requires
            r == inst >> 9 & 0b111,
    ;
    r as usize
}

/// The register in bits 8 to 6.
pub fn base_of(inst: u16) -> (r: usize)
    ensures
        r == base_field(inst),
        r < 8,
{
    let r: u16 = inst >> 6 & 0b111;
    assert(r == (inst / 0x40) % 8) by (bit_vector)
        requires
            r == inst >> 6 & 0b111,
    ;
    r as usize
}

/// The register in bits 2 to 0.
pub fn src2_of(inst: u16) -> (r: usize)
    ensures
        r == src2_field(inst),
        r < 8,
{
    let r: u16 = inst & 0b111;
    assert(r == inst % 8) by (bit_vector)
        requires
            r == inst & 0b111,
    ;
    r as usize
}

/// Whether bit 5 is set.
pub fn has_immediate(inst: u16) -> (r: bool)
    ensures
        r == immediate_mode(inst),
{
    assert((inst & (1u16 << 5) != 0) <==> (inst / 0x20) % 2 == 1) by (bit_vector);
    inst & (1 << 5) != 0
}

/// Whether bit 11 is set.
pub fn has_offset(inst: u16) -> (r: bool)
    ensures
        r == offset_mode(inst),
{
    assert((inst & (1u16 << 11) != 0) <==> (inst / 0x800) % 2 == 1) by (bit_vector);
    inst & (1 << 11) != 0
}

/// The trap vector of an instruction.
pub fn vector_of(inst: u16) -> (r: u16)
    ensures
        r == vector_field(inst),
{
    assert(inst & 0xFF == inst % 0x100) by (bit_vector);
    inst & 0xFF
}

} // verus!

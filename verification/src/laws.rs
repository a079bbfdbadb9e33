//! Laws of the machine, each proved from the definitions of its model.

use vstd::prelude::*;
use vstd::arithmetic::div_mod::{lemma_mod_multiples_vanish, lemma_small_mod};
use vstd::arithmetic::power2::{lemma2_to64, pow2};
use crate::decode::{
    base_field, dr_field, immediate_mode, opcode_field, src2_field, vector_field, Opcode,
};
use crate::error::VmError;
use crate::flag::Flag;
use crate::loader::{image_len, image_origin, image_word, loaded, offset_from};
use crate::machine::{read_word, Machine, Supply, KBDR, KBSR, MEMORY_WORDS};
use crate::run::{run_trace, served, taken, turn_of, Stop};
use crate::outcome::Effect;
use crate::semantics::{
    instruction_step, machine_need, machine_step, same_for, string_bytes, terminator, Need, GETC,
    HALT,
};
use crate::word::{
    field_span, low_byte, low_field, sign_extend, signed_field, signed_value, to_word, word_add,
};

verus! {

/// A field of `bits` bits takes 2 to the power `bits` values.
pub proof fn lemma_span_is_power_of_two(bits: u16)
    requires
        1 <= bits <= 16,
    ensures
        field_span(bits) == pow2(bits as nat),
{
    lemma2_to64();
}

/// Sign extension keeps the field and its value: the extended word, read as
/// a sixteen-bit two's-complement number, is the field read as a
/// two's-complement number of its own width, and the lowest `bits` bits of
/// the extended word are those of the field.
pub proof fn lemma_sign_extension_keeps_value(val: u16, bits: u16)
    requires
        1 <= bits <= 16,
    ensures
        signed_value(sign_extend(val, bits)) == signed_field(val, bits),
        low_field(sign_extend(val, bits), bits) == low_field(val, bits),
        -field_span(bits) <= 2 * signed_field(val, bits) < field_span(bits),
{
    lemma_sign_extension_by_top_bit(val, bits);
    let span = field_span(bits);
    let low = low_field(val, bits);
    let times: int = 0x1_0000int / span;
    assert(span * times == 0x1_0000);
    if 2 * low >= span {
        assert(span * (times - 1) + low == low + 0x1_0000 - span) by (nonlinear_arith)
            requires
                span * times == 0x1_0000,
        ;
        lemma_mod_multiples_vanish(times - 1, low, span);
        lemma_small_mod(low as nat, span as nat);
    }
}

/// Sign extension changes nothing in a field whose top bit is clear, and
/// sets every higher bit of one whose top bit is set.
pub proof fn lemma_sign_extension_by_top_bit(val: u16, bits: u16)
    requires
        1 <= bits <= 16,
    ensures
        2 * low_field(val, bits) < field_span(bits) ==> sign_extend(val, bits) == low_field(
            val,
            bits,
        ),
        2 * low_field(val, bits) >= field_span(bits) ==> sign_extend(val, bits) == low_field(
            val,
            bits,
        ) + 0x1_0000 - field_span(bits),
{
}

/// Adding a sign-extended field to a word adds the field's signed value,
/// modulo 2^16.
pub proof fn lemma_adding_extension_adds_value(a: u16, val: u16, bits: u16)
    requires
        1 <= bits <= 16,
    ensures
        word_add(a, sign_extend(val, bits)) == to_word(a + signed_field(val, bits)),
{
    lemma_sign_extension_by_top_bit(val, bits);
}

/// A written value sets exactly one flag: zero for 0, negative for a word
/// with its top bit set, positive for any other.
pub proof fn lemma_one_flag_per_value(word: u16)
    ensures
        Flag::of(word) == Flag::Zero <==> word == 0,
        Flag::of(word) == Flag::Neg <==> word >= 0x8000,
        Flag::of(word) == Flag::Pos <==> 0 < word < 0x8000,
        Flag::of(word).mask() == 1 || Flag::of(word).mask() == 2 || Flag::of(word).mask() == 4,
{
}

/// After an instruction that writes a register, the condition code is the
/// one flag that tells the sign of the value now in that register.
pub proof fn lemma_register_write_sets_flag(m: Machine, inst: u16, supply: Supply)
    requires
        m.wf(),
        Opcode::of(opcode_field(inst)) matches Some(op) && op.writes_register(),
    ensures
        ({
            let next = instruction_step(m, inst, supply).next;
            &&& next.psr == Flag::of(next.reg[dr_field(inst)]).mask()
            &&& (next.psr == 1 || next.psr == 2 || next.psr == 4)
        }),
{
}

/// An instruction that stores, branches, jumps or calls leaves the condition
/// code as it was.
pub proof fn lemma_other_instructions_keep_flag(m: Machine, inst: u16, supply: Supply)
    requires
        m.wf(),
        Opcode::of(opcode_field(inst)) matches Some(op) && (op == Opcode::St || op == Opcode::Sti
            || op == Opcode::Str || op == Opcode::Br || op == Opcode::Jmp || op == Opcode::Jsr),
    ensures
        instruction_step(m, inst, supply).next.psr == m.psr,
{
}

/// An instruction faults in two cases and no other: its operation is left
/// unimplemented, or it is a trap whose vector names none of the six
/// routines. The fault carries the operation code, or the vector.
pub proof fn lemma_faults_exactly(m: Machine, inst: u16, supply: Supply)
    requires
        m.wf(),
    ensures
        ({
            let result = instruction_step(m, inst, supply).result;
            let op = Opcode::of(opcode_field(inst));
            let vector = vector_field(inst);
            &&& op is Some
            &&& op->0.is_reserved() <==> result == Err::<Effect, VmError>(
                VmError::InvalidOpcode(opcode_field(inst)),
            )
            &&& op == Some(Opcode::Trap) && !(GETC <= vector <= HALT) <==> result == Err::<
                Effect,
                VmError,
            >(VmError::InvalidTrap(vector))
            &&& result is Err <==> op->0.is_reserved() || (op == Some(Opcode::Trap) && !(GETC
                <= vector <= HALT))
        }),
{
}

/// An instruction that faults writes no storage, no condition code and no
/// register but, for a trap, the return address.
pub proof fn lemma_fault_writes_nothing(m: Machine, inst: u16, supply: Supply)
    requires
        m.wf(),
        instruction_step(m, inst, supply).result is Err,
    ensures
        ({
            let step = instruction_step(m, inst, supply);
            &&& step.next.mem == m.mem
            &&& step.next.psr == m.psr
            &&& step.next.pc == m.pc
            &&& forall|r: int| 0 <= r < 7 ==> step.next.reg[r] == m.reg[r]
            &&& step.result is Err && step.result->Err_0 is InvalidOpcode ==> step.next == m
        }),
{
}

/// A machine with exactly one flag set has exactly one flag set after any
/// turn.
pub proof fn lemma_step_keeps_one_flag(m: Machine, supply: Supply)
    requires
        m.wf(),
        m.psr == 1 || m.psr == 2 || m.psr == 4,
    ensures
        ({
            let next = machine_step(m, supply).next;
            next.psr == 1 || next.psr == 2 || next.psr == 4
        }),
{
}

/// Addition takes its second operand from the instruction when the mode bit
/// is set, and from the second source register when it is clear; the sum
/// wraps.
pub proof fn lemma_add_by_mode(m: Machine, inst: u16, supply: Supply)
    requires
        m.wf(),
        Opcode::of(opcode_field(inst)) == Some(Opcode::Add),
    ensures
        ({
            let next = instruction_step(m, inst, supply).next;
            let first = m.reg[base_field(inst)];
            &&& immediate_mode(inst) ==> next.reg[dr_field(inst)] == to_word(
                first + signed_field(inst, 5),
            )
            &&& !immediate_mode(inst) ==> next.reg[dr_field(inst)] == to_word(
                first + m.reg[src2_field(inst)],
            )
            &&& forall|r: int| 0 <= r < 8 && r != dr_field(inst) ==> next.reg[r] == m.reg[r]
            &&& next.mem == m.mem
            &&& next.pc == m.pc
        }),
{
    lemma_adding_extension_adds_value(m.reg[base_field(inst)], inst, 5);
}

/// Bitwise conjunction takes its second operand from the instruction when
/// the mode bit is set, and from the second source register when it is
/// clear.
pub proof fn lemma_and_by_mode(m: Machine, inst: u16, supply: Supply)
    requires
        m.wf(),
        Opcode::of(opcode_field(inst)) == Some(Opcode::And),
    ensures
        ({
            let next = instruction_step(m, inst, supply).next;
            let first = m.reg[base_field(inst)];
            &&& immediate_mode(inst) ==> next.reg[dr_field(inst)] == first & sign_extend(inst, 5)
            &&& !immediate_mode(inst) ==> next.reg[dr_field(inst)] == first
                & m.reg[src2_field(inst)]
            &&& forall|r: int| 0 <= r < 8 && r != dr_field(inst) ==> next.reg[r] == m.reg[r]
            &&& next.mem == m.mem
            &&& next.pc == m.pc
        }),
{
}

/// The keyboard status is nonzero exactly when a byte waits; the data
/// register then yields that byte, and yields zero when none waits.
pub proof fn lemma_keyboard_status_then_data(mem: Seq<u16>, supply: Supply)
    ensures
        read_word(mem, KBSR, supply) != 0 <==> supply.ready,
        supply.ready ==> read_word(mem, KBDR, supply) == supply.key,
        !supply.ready ==> read_word(mem, KBDR, supply) == 0,
{
}

/// A keyboard with keys waiting serves them in order and one at a time: its
/// status tells whether one waits, a read of its data takes the first if one
/// waits and none otherwise, and a key that is waited for when none is left
/// reads as zero.
pub proof fn lemma_keyboard_serves_what_waits(keys: Seq<u8>)
    ensures
        served(Need::Status, keys).ready <==> keys.len() > 0,
        served(Need::Data, keys).ready <==> keys.len() > 0,
        keys.len() > 0 ==> served(Need::Data, keys).key == keys[0] && served(Need::Key, keys).key
            == keys[0],
        keys.len() == 0 ==> served(Need::Key, keys).key == 0,
        taken(Need::Nothing, keys) == 0,
        taken(Need::Status, keys) == 0,
        taken(Need::Data, keys) == taken(Need::Key, keys),
        taken(Need::Data, keys) == (if keys.len() > 0 {
            1nat
        } else {
            0nat
        }),
{
}

/// A turn of the machine depends on the keyboard only in what it asked for.
pub proof fn lemma_step_uses_only_what_it_needs(m: Machine, a: Supply, b: Supply)
    requires
        m.wf(),
        same_for(machine_need(m), a, b),
    ensures
        machine_step(m, a) == machine_step(m, b),
{
    let none = Supply { ready: false, key: 0 };
    let next = m.jump(word_add(m.pc, 1));
    if m.pc == KBSR || m.pc == KBDR {
        let inst = read_word(m.mem, m.pc, a);
        assert(inst == read_word(m.mem, m.pc, b));
        assert(inst < 0x100);
        assert(opcode_field(inst) == 0);
        assert(dr_field(inst) == 0);
        let low = m.psr & 0b111;
        assert(0u16 & low == 0) by (bit_vector);
    } else {
        let inst = read_word(m.mem, m.pc, none);
        assert(inst == read_word(m.mem, m.pc, a));
        assert(inst == read_word(m.mem, m.pc, b));
    }
}

/// A turn of the machine leaves it whole.
pub proof fn lemma_step_keeps_machine_whole(m: Machine, supply: Supply)
    requires
        m.wf(),
    ensures
        machine_step(m, supply).next.wf(),
{
}

/// Each operation has a code of four bits that names it and no other.
pub proof fn lemma_opcode_codes(op: Opcode, code: u16)
    ensures
        op.code() <= 15,
        Opcode::of(op.code()) == Some(op),
        Opcode::of(code) == Some(op) ==> code == op.code(),
        Opcode::of(code) is None <==> code > 15,
{
}

/// A loaded image can be read back: its `i`-th word stands `i` addresses
/// behind the origin, going round the address space, and every address that
/// the image does not reach keeps its word.
pub proof fn lemma_loaded_image_reads_back(m: Machine, image: Seq<u8>, i: int)
    requires
        m.wf(),
        image.len() >= 2,
        image_len(image) <= MEMORY_WORDS,
    ensures
        loaded(m, image).wf(),
        loaded(m, image).pc == image_origin(image),
        loaded(m, image).reg == m.reg,
        loaded(m, image).psr == m.psr,
        0 <= i < image_len(image) ==> loaded(m, image).mem[(image_origin(image) + i)
            % 0x1_0000] == image_word(image, i),
        0 <= i < MEMORY_WORDS && offset_from(image_origin(image), i) >= image_len(image)
            ==> loaded(m, image).mem[i] == m.mem[i],
{
    if 0 <= i < image_len(image) {
        let a = (image_origin(image) + i) % 0x1_0000;
        assert(offset_from(image_origin(image), a) == i);
    }
}

/// No word between `from` and the terminator found from there is zero, and
/// the terminator, if it lies in the storage, is.
pub proof fn lemma_terminator_is_first_zero(mem: Seq<u16>, from: int)
    requires
        0 <= from <= mem.len(),
    ensures
        from <= terminator(mem, from) <= mem.len(),
        forall|i: int| from <= i < terminator(mem, from) ==> mem[i] != 0,
        terminator(mem, from) < mem.len() ==> mem[terminator(mem, from)] == 0,
    decreases mem.len() - from,
{
    if from < mem.len() && mem[from] != 0 {
        lemma_terminator_is_first_zero(mem, from + 1);
    }
}

/// A string is shown up to its zero word and no further: if the first zero
/// word at or after `start` stands at `end`, the string has one character
/// for each word before `end`, the low byte of that word.
pub proof fn lemma_string_stops_at_zero(mem: Seq<u16>, start: u16, end: int)
    requires
        start <= end < mem.len(),
        mem[end] == 0,
        forall|i: int| start <= i < end ==> mem[i] != 0,
    ensures
        string_bytes(mem, start).len() == end - start,
        forall|i: int| 0 <= i < end - start ==> string_bytes(mem, start)[i] == low_byte(
            mem[start + i],
        ),
{
    lemma_terminator_is_first_zero(mem, start as int);
    let t = terminator(mem, start as int);
    if t < end {
        assert(mem[t] == 0);
    }
}

/// A run takes no more turns than its limit and no more keys than wait; it
/// takes at most one key a turn; it ends for want of turns only at the limit,
/// and otherwise with a turn.
pub proof fn lemma_run_is_bounded(m: Machine, keys: Seq<u8>, limit: nat)
    ensures
        run_trace(m, keys, limit).turns <= limit,
        run_trace(m, keys, limit).keys_taken <= run_trace(m, keys, limit).turns,
        run_trace(m, keys, limit).keys_taken <= keys.len(),
        run_trace(m, keys, limit).stop == Stop::Exhausted ==> run_trace(m, keys, limit).turns
            == limit,
        run_trace(m, keys, limit).stop != Stop::Exhausted ==> run_trace(m, keys, limit).turns
            >= 1,
    decreases limit,
{
    if limit > 0 {
        let turn = turn_of(m, keys);
        if turn.stop is None {
            lemma_run_is_bounded(turn.next, keys.skip(turn.took as int), (limit - 1) as nat);
        }
    }
}

/// A run that halted or faulted is over: a higher limit changes nothing in
/// it, so no instruction is executed after the one that stopped it.
pub proof fn lemma_run_stops_for_good(m: Machine, keys: Seq<u8>, limit: nat, more: nat)
    requires
        run_trace(m, keys, limit).stop != Stop::Exhausted,
        limit <= more,
    ensures
        run_trace(m, keys, more) == run_trace(m, keys, limit),
    decreases limit,
{
    if limit > 0 {
        let turn = turn_of(m, keys);
        if turn.stop is None {
            lemma_run_stops_for_good(
                turn.next,
                keys.skip(turn.took as int),
                (limit - 1) as nat,
                (more - 1) as nat,
            );
        }
    }
}

/// A run leaves the machine whole.
pub proof fn lemma_run_keeps_machine_whole(m: Machine, keys: Seq<u8>, limit: nat)
    requires
        m.wf(),
    ensures
        run_trace(m, keys, limit).last.wf(),
    decreases limit,
{
    if limit > 0 {
        let turn = turn_of(m, keys);
        lemma_step_keeps_machine_whole(m, served(machine_need(m), keys));
        if turn.stop is None {
            lemma_run_keeps_machine_whole(turn.next, keys.skip(turn.took as int), (limit - 1) as nat);
        }
    }
}

} // verus!

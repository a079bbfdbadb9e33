use lc3_vm::{Flag, Outcome, RunState, Supply, Vm, VmError};

const IDLE: Supply = Supply { ready: false, key: 0 };

fn silent() -> Result<Outcome, VmError> {
    Ok(Outcome { state: RunState::Running, output: vec![], flush: false })
}

fn shows(bytes: &[u8]) -> Result<Outcome, VmError> {
    Ok(Outcome { state: RunState::Running, output: bytes.to_vec(), flush: true })
}

fn machine(words: &[u16]) -> Vm {
    let mut vm = Vm::new(0x3000, Flag::Zero.bits());
    for (i, w) in words.iter().enumerate() {
        vm.poke(0x3000 + i as u16, *w);
    }
    vm
}

fn regs(dr: u16, base: u16) -> u16 {
    dr << 9 | base << 6
}

fn add_imm(dr: u16, sr1: u16, imm: i16) -> u16 {
    0x1000 | regs(dr, sr1) | 0x20 | (imm as u16 & 0x1F)
}

fn add_reg(dr: u16, sr1: u16, sr2: u16) -> u16 {
    0x1000 | regs(dr, sr1) | sr2
}

fn and_imm(dr: u16, sr1: u16, imm: i16) -> u16 {
    0x5000 | regs(dr, sr1) | 0x20 | (imm as u16 & 0x1F)
}

fn and_reg(dr: u16, sr1: u16, sr2: u16) -> u16 {
    0x5000 | regs(dr, sr1) | sr2
}

fn with_offset9(op: u16, r: u16, offset: i16) -> u16 {
    op | r << 9 | (offset as u16 & 0x1FF)
}

fn with_offset6(op: u16, r: u16, base: u16, offset: i16) -> u16 {
    op | regs(r, base) | (offset as u16 & 0x3F)
}

#[test]
fn encodings_match_the_instruction_layout() {
    assert_eq!(and_imm(0, 0, 0), 0x5020);
    assert_eq!(add_imm(0, 0, 5), 0x1025);
    assert_eq!(add_imm(1, 0, -3), 0x123D);
    assert_eq!(add_reg(2, 3, 4), 0x14C4);
    assert_eq!(with_offset9(0x2000, 1, -1), 0x23FF);
    assert_eq!(with_offset6(0x6000, 1, 2, -1), 0x62BF);
}

#[test]
fn add_with_an_immediate() {
    let mut vm = machine(&[add_imm(0, 0, 5), add_imm(1, 0, -3), add_imm(2, 1, -16), add_imm(3, 3, 15)]);
    assert_eq!(vm.step(IDLE), silent());
    assert_eq!(vm.reg(0), 5);
    assert_eq!(vm.psr(), Flag::Pos.bits());
    assert_eq!(vm.pc(), 0x3001);
    assert_eq!(vm.step(IDLE), silent());
    assert_eq!(vm.reg(1), 2);
    assert_eq!(vm.reg(0), 5);
    assert_eq!(vm.step(IDLE), silent());
    assert_eq!(vm.reg(2), 0xFFF2);
    assert_eq!(vm.psr(), Flag::Neg.bits());
    assert_eq!(vm.step(IDLE), silent());
    assert_eq!(vm.reg(3), 15);
    assert_eq!(vm.pc(), 0x3004);
}

#[test]
fn add_with_a_register() {
    let mut vm = machine(&[add_reg(2, 0, 1), add_reg(3, 2, 2), add_reg(4, 5, 6)]);
    vm.set_reg(0, 0x1234);
    vm.set_reg(1, 0x0101);
    vm.set_reg(5, 0xFFFF);
    vm.set_reg(6, 0x0001);
    assert_eq!(vm.step(IDLE), silent());
    assert_eq!(vm.reg(2), 0x1335);
    assert_eq!(vm.psr(), Flag::Pos.bits());
    assert_eq!(vm.step(IDLE), silent());
    assert_eq!(vm.reg(3), 0x266A);
    assert_eq!(vm.step(IDLE), silent());
    assert_eq!(vm.reg(4), 0);
    assert_eq!(vm.psr(), Flag::Zero.bits());
    assert_eq!(vm.reg(0), 0x1234);
    assert_eq!(vm.reg(1), 0x0101);
}

#[test]
fn add_register_mode_does_not_read_the_immediate() {
    // Bits 4 and 3 are set, bit 5 is clear: the operand is R5, not 29 or -3.
    let inst = 0x1000 | regs(0, 1) | 0b11101;
    let mut vm = machine(&[inst]);
    vm.set_reg(1, 100);
    vm.set_reg(5, 7);
    assert_eq!(vm.step(IDLE), silent());
    assert_eq!(vm.reg(0), 107);
}

#[test]
fn add_wraps() {
    let mut vm = machine(&[add_imm(0, 0, 1), add_reg(1, 1, 1)]);
    vm.set_reg(0, 0xFFFF);
    vm.set_reg(1, 0x8000);
    assert_eq!(vm.step(IDLE), silent());
    assert_eq!(vm.reg(0), 0);
    assert_eq!(vm.psr(), Flag::Zero.bits());
    assert_eq!(vm.step(IDLE), silent());
    assert_eq!(vm.reg(1), 0);
}

#[test]
fn and_with_an_immediate() {
    let mut vm = machine(&[and_imm(0, 1, 0x0F), and_imm(2, 1, -1), and_imm(3, 1, 0), and_imm(4, 1, -16)]);
    vm.set_reg(1, 0xABCD);
    assert_eq!(vm.step(IDLE), silent());
    assert_eq!(vm.reg(0), 0x000D);
    assert_eq!(vm.psr(), Flag::Pos.bits());
    assert_eq!(vm.step(IDLE), silent());
    assert_eq!(vm.reg(2), 0xABCD);
    assert_eq!(vm.psr(), Flag::Neg.bits());
    assert_eq!(vm.step(IDLE), silent());
    assert_eq!(vm.reg(3), 0);
    assert_eq!(vm.psr(), Flag::Zero.bits());
    assert_eq!(vm.step(IDLE), silent());
    assert_eq!(vm.reg(4), 0xABC0);
}

#[test]
fn and_with_a_register() {
    let mut vm = machine(&[and_reg(0, 1, 2), and_reg(3, 1, 3)]);
    vm.set_reg(1, 0xFF0F);
    vm.set_reg(2, 0x0FF1);
    assert_eq!(vm.step(IDLE), silent());
    assert_eq!(vm.reg(0), 0x0F01);
    assert_eq!(vm.psr(), Flag::Pos.bits());
    assert_eq!(vm.step(IDLE), silent());
    assert_eq!(vm.reg(3), 0);
    assert_eq!(vm.psr(), Flag::Zero.bits());
}

#[test]
fn not_complements() {
    let mut vm = machine(&[0x9000 | regs(0, 1) | 0x3F, 0x9000 | regs(2, 2) | 0x3F]);
    vm.set_reg(1, 0x0F0F);
    vm.set_reg(2, 0xFFFF);
    assert_eq!(vm.step(IDLE), silent());
    assert_eq!(vm.reg(0), 0xF0F0);
    assert_eq!(vm.reg(1), 0x0F0F);
    assert_eq!(vm.psr(), Flag::Neg.bits());
    assert_eq!(vm.step(IDLE), silent());
    assert_eq!(vm.reg(2), 0);
    assert_eq!(vm.psr(), Flag::Zero.bits());
}

#[test]
fn branch_is_taken_when_the_mask_names_the_flag() {
    for (flag, mask) in [(Flag::Pos, 0b001u16), (Flag::Zero, 0b010), (Flag::Neg, 0b100)] {
        let mut vm = Vm::new(0x3000, flag.bits());
        vm.poke(0x3000, with_offset9(0, mask, 0x10));
        assert_eq!(vm.step(IDLE), silent());
        assert_eq!(vm.pc(), 0x3011);
        assert_eq!(vm.psr(), flag.bits());

        let mut vm = Vm::new(0x3000, flag.bits());
        vm.poke(0x3000, with_offset9(0, 0b111, -2));
        assert_eq!(vm.step(IDLE), silent());
        assert_eq!(vm.pc(), 0x2FFF);
    }
}

#[test]
fn branch_falls_through_when_the_mask_misses_the_flag() {
    for (flag, mask) in [(Flag::Pos, 0b110u16), (Flag::Zero, 0b101), (Flag::Neg, 0b011)] {
        let mut vm = Vm::new(0x3000, flag.bits());
        vm.poke(0x3000, with_offset9(0, mask, 0x10));
        assert_eq!(vm.step(IDLE), silent());
        assert_eq!(vm.pc(), 0x3001);
    }
    let mut vm = Vm::new(0x3000, Flag::Zero.bits());
    vm.poke(0x3000, with_offset9(0, 0, 0x10));
    assert_eq!(vm.step(IDLE), silent());
    assert_eq!(vm.pc(), 0x3001);
}

#[test]
fn branch_with_no_flag_set_is_never_taken() {
    let mut vm = Vm::new(0x3000, 0);
    vm.poke(0x3000, with_offset9(0, 0b111, 0x10));
    assert_eq!(vm.step(IDLE), silent());
    assert_eq!(vm.pc(), 0x3001);
}

#[test]
fn branch_reads_only_the_low_three_status_bits() {
    let mut vm = Vm::new(0x3000, 0xFFF8);
    vm.poke(0x3000, with_offset9(0, 0b111, 0x10));
    assert_eq!(vm.step(IDLE), silent());
    assert_eq!(vm.pc(), 0x3001);
    let mut vm = Vm::new(0x3000, 0xFFF9);
    vm.poke(0x3000, with_offset9(0, 0b001, 0x10));
    assert_eq!(vm.step(IDLE), silent());
    assert_eq!(vm.pc(), 0x3011);
}

#[test]
fn load_from_a_pc_relative_address() {
    let mut vm = machine(&[with_offset9(0x2000, 3, 2), with_offset9(0x2000, 4, -2), 0, 0x8001]);
    assert_eq!(vm.step(IDLE), silent());
    assert_eq!(vm.reg(3), 0x8001);
    assert_eq!(vm.psr(), Flag::Neg.bits());
    assert_eq!(vm.step(IDLE), silent());
    assert_eq!(vm.reg(4), with_offset9(0x2000, 3, 2));
    assert_eq!(vm.psr(), Flag::Pos.bits());
}

#[test]
fn load_indirect() {
    let mut vm = machine(&[with_offset9(0xA000, 1, 1), 0, 0x4000]);
    vm.poke(0x4000, 0x00FF);
    assert_eq!(vm.step(IDLE), silent());
    assert_eq!(vm.reg(1), 0x00FF);
    assert_eq!(vm.psr(), Flag::Pos.bits());
    assert_eq!(vm.pc(), 0x3001);
}

#[test]
fn load_from_a_base_register() {
    let mut vm = machine(&[with_offset6(0x6000, 1, 2, 3), with_offset6(0x6000, 3, 2, -1)]);
    vm.set_reg(2, 0x4000);
    vm.poke(0x4003, 0x1234);
    vm.poke(0x3FFF, 0x8000);
    assert_eq!(vm.step(IDLE), silent());
    assert_eq!(vm.reg(1), 0x1234);
    assert_eq!(vm.step(IDLE), silent());
    assert_eq!(vm.reg(3), 0x8000);
    assert_eq!(vm.psr(), Flag::Neg.bits());
}

#[test]
fn load_effective_address() {
    let mut vm = machine(&[with_offset9(0xE000, 0, 0x20), with_offset9(0xE000, 1, -1)]);
    assert_eq!(vm.step(IDLE), silent());
    assert_eq!(vm.reg(0), 0x3021);
    assert_eq!(vm.psr(), Flag::Pos.bits());
    assert_eq!(vm.step(IDLE), silent());
    assert_eq!(vm.reg(1), 0x3001);
}

#[test]
fn load_effective_address_sets_the_flag_of_the_address() {
    let mut vm = Vm::new(0x8000, Flag::Zero.bits());
    vm.poke(0x8000, with_offset9(0xE000, 0, 0));
    assert_eq!(vm.step(IDLE), silent());
    assert_eq!(vm.reg(0), 0x8001);
    assert_eq!(vm.psr(), Flag::Neg.bits());
}

#[test]
fn store_to_a_pc_relative_address() {
    let mut vm = machine(&[with_offset9(0x3000, 2, 0x10)]);
    vm.set_reg(2, 0xCAFE);
    assert_eq!(vm.step(IDLE), silent());
    assert_eq!(vm.peek(0x3011), 0xCAFE);
    assert_eq!(vm.psr(), Flag::Zero.bits());
    assert_eq!(vm.reg(2), 0xCAFE);
}

#[test]
fn store_indirect() {
    let mut vm = machine(&[with_offset9(0xB000, 2, 1), 0, 0x5000]);
    vm.set_reg(2, 0xBEEF);
    assert_eq!(vm.step(IDLE), silent());
    assert_eq!(vm.peek(0x5000), 0xBEEF);
    assert_eq!(vm.peek(0x3002), 0x5000);
    assert_eq!(vm.psr(), Flag::Zero.bits());
}

#[test]
fn store_to_a_base_register() {
    let mut vm = machine(&[with_offset6(0x7000, 1, 2, -32), with_offset6(0x7000, 1, 2, 31)]);
    vm.set_reg(1, 0x0042);
    vm.set_reg(2, 0x4000);
    assert_eq!(vm.step(IDLE), silent());
    assert_eq!(vm.peek(0x3FE0), 0x0042);
    assert_eq!(vm.step(IDLE), silent());
    assert_eq!(vm.peek(0x401F), 0x0042);
    assert_eq!(vm.psr(), Flag::Zero.bits());
}

#[test]
fn store_to_the_display_shows_a_byte() {
    let mut vm = machine(&[with_offset6(0x7000, 1, 2, 0)]);
    vm.set_reg(1, 0x0141);
    vm.set_reg(2, 0xFE06);
    assert_eq!(vm.step(IDLE), shows(b"A"));
    assert_eq!(vm.peek(0xFE06), 0);
}

#[test]
fn store_to_a_status_register_does_nothing() {
    let mut vm = machine(&[with_offset6(0x7000, 1, 2, 0), with_offset6(0x7000, 1, 2, 2), with_offset6(0x7000, 1, 2, 4)]);
    vm.set_reg(1, 0x0141);
    vm.set_reg(2, 0xFE00);
    for _ in 0..3 {
        assert_eq!(vm.step(IDLE), silent());
    }
    assert_eq!(vm.peek(0xFE00), 0);
    assert_eq!(vm.peek(0xFE02), 0);
    assert_eq!(vm.peek(0xFE04), 0);
}

#[test]
fn jump_goes_to_the_register() {
    let mut vm = machine(&[0xC000 | regs(0, 3)]);
    vm.set_reg(3, 0x1234);
    assert_eq!(vm.step(IDLE), silent());
    assert_eq!(vm.pc(), 0x1234);
    assert_eq!(vm.reg(7), 0);
    assert_eq!(vm.psr(), Flag::Zero.bits());
}

#[test]
fn call_by_offset_keeps_the_return_address() {
    let mut vm = machine(&[0x4800 | 0x0100, 0x4800 | 0x07FF]);
    assert_eq!(vm.step(IDLE), silent());
    assert_eq!(vm.pc(), 0x3101);
    assert_eq!(vm.reg(7), 0x3001);
    vm.set_pc(0x3001);
    assert_eq!(vm.step(IDLE), silent());
    assert_eq!(vm.pc(), 0x3001);
    assert_eq!(vm.reg(7), 0x3002);
    assert_eq!(vm.psr(), Flag::Zero.bits());
}

#[test]
fn call_by_register_keeps_the_return_address() {
    let mut vm = machine(&[0x4000 | regs(0, 2)]);
    vm.set_reg(2, 0x5000);
    assert_eq!(vm.step(IDLE), silent());
    assert_eq!(vm.pc(), 0x5000);
    assert_eq!(vm.reg(7), 0x3001);
}

#[test]
fn call_through_r7_goes_to_its_old_value() {
    let mut vm = machine(&[0x4000 | regs(0, 7)]);
    vm.set_reg(7, 0x5000);
    assert_eq!(vm.step(IDLE), silent());
    assert_eq!(vm.pc(), 0x5000);
    assert_eq!(vm.reg(7), 0x3001);
}

#[test]
fn reserved_opcodes_are_faults() {
    let mut vm = machine(&[0x8000]);
    assert_eq!(vm.step(IDLE), Err(VmError::InvalidOpcode(8)));
    let mut vm = machine(&[0xD123]);
    vm.set_reg(0, 9);
    assert_eq!(vm.step(IDLE), Err(VmError::InvalidOpcode(13)));
    assert_eq!(vm.reg(0), 9);
    assert_eq!(vm.psr(), Flag::Zero.bits());
    assert_eq!(vm.pc(), 0x3001);
}

#[test]
fn the_program_counter_wraps() {
    let mut vm = Vm::new(0xFFFF, Flag::Zero.bits());
    vm.poke(0xFFFF, add_imm(0, 0, 1));
    assert_eq!(vm.step(IDLE), silent());
    assert_eq!(vm.pc(), 0);
    assert_eq!(vm.reg(0), 1);
}

#[test]
fn pc_relative_addresses_wrap() {
    let mut vm = Vm::new(0xFFFF, Flag::Zero.bits());
    vm.poke(0xFFFF, with_offset9(0x2000, 0, 1));
    vm.poke(0x0001, 0x0777);
    assert_eq!(vm.step(IDLE), silent());
    assert_eq!(vm.reg(0), 0x0777);
    let mut vm = Vm::new(0, Flag::Zero.bits());
    vm.poke(0, with_offset9(0x2000, 0, -2));
    vm.poke(0xFFFF, 0x0888);
    assert_eq!(vm.step(IDLE), silent());
    assert_eq!(vm.reg(0), 0x0888);
}

#[test]
fn load_from_the_keyboard_status() {
    let inst = with_offset6(0x6000, 0, 1, 0);
    let mut vm = machine(&[inst, inst]);
    vm.set_reg(1, 0xFE00);
    assert_eq!(vm.step(Supply { ready: true, key: b'q' }), silent());
    assert_eq!(vm.reg(0), 0x80);
    assert_eq!(vm.psr(), Flag::Pos.bits());
    assert_eq!(vm.step(Supply { ready: false, key: b'q' }), silent());
    assert_eq!(vm.reg(0), 0);
    assert_eq!(vm.psr(), Flag::Zero.bits());
}

#[test]
fn load_from_the_keyboard_data() {
    let inst = with_offset6(0x6000, 0, 1, 2);
    let mut vm = machine(&[inst, inst]);
    vm.set_reg(1, 0xFE00);
    assert_eq!(vm.step(Supply { ready: true, key: b'q' }), silent());
    assert_eq!(vm.reg(0), b'q' as u16);
    assert_eq!(vm.step(Supply { ready: false, key: b'q' }), silent());
    assert_eq!(vm.reg(0), 0);
}

#[test]
fn load_indirect_through_the_keyboard_data() {
    let mut vm = machine(&[with_offset9(0xA000, 0, 1), 0, 0xFE02]);
    vm.poke(0x0041, 0x1234);
    assert_eq!(vm.step(Supply { ready: true, key: 0x41 }), silent());
    assert_eq!(vm.reg(0), 0x0041);
    let mut vm = Vm::new(0xFE01, Flag::Zero.bits());
    vm.poke(0xFE01, with_offset9(0xA000, 0, 0));
    vm.poke(0x0041, 0x1234);
    assert_eq!(vm.step(Supply { ready: true, key: 0x41 }), silent());
    assert_eq!(vm.reg(0), 0x1234);
}

#[test]
fn fetch_from_a_device_register() {
    let mut vm = Vm::new(0xFE00, Flag::Pos.bits());
    vm.poke(0xFE00, add_imm(0, 0, 1));
    assert_eq!(vm.step(Supply { ready: true, key: 0xFF }), silent());
    assert_eq!(vm.pc(), 0xFE01);
    assert_eq!(vm.reg(0), 0);
    let mut vm = Vm::new(0xFE04, Flag::Pos.bits());
    vm.poke(0xFE04, add_imm(0, 0, 1));
    assert_eq!(vm.step(IDLE), silent());
    assert_eq!(vm.pc(), 0xFE05);
    assert_eq!(vm.reg(0), 0);
}

#[test]
fn execute_takes_the_instruction_as_given() {
    let mut vm = Vm::new(0x3000, Flag::Zero.bits());
    assert_eq!(vm.execute(add_imm(0, 0, 7), IDLE), silent());
    assert_eq!(vm.reg(0), 7);
    assert_eq!(vm.pc(), 0x3000);
    assert_eq!(vm.execute(with_offset9(0xE000, 1, 1), IDLE), silent());
    assert_eq!(vm.reg(1), 0x3001);
}

#[test]
fn register_writes_set_exactly_one_flag() {
    let values = [0u16, 1, 0x7FFF, 0x8000, 0xFFFF];
    for v in values {
        let mut vm = machine(&[add_imm(0, 1, 0), and_imm(2, 1, -1), with_offset9(0x2000, 3, 1), 0, v]);
        vm.set_reg(1, v);
        vm.poke(0x3003, v);
        let expected = Flag::classify(v).bits();
        assert_eq!(vm.step(IDLE), silent());
        assert_eq!(vm.psr(), expected);
        assert_eq!(vm.step(IDLE), silent());
        assert_eq!(vm.psr(), expected);
        vm.set_reg(3, 1);
        vm.set_cc(3);
        assert_eq!(vm.step(IDLE), silent());
        assert_eq!(vm.reg(3), v);
        assert_eq!(vm.psr(), expected);
    }
}

use lc3_vm::{Flag, Supply, Vm, VmError};

fn image(origin: u16, words: &[u16]) -> Vec<u8> {
    let mut bytes = Vec::new();
    bytes.extend_from_slice(&origin.to_be_bytes());
    for w in words {
        bytes.extend_from_slice(&w.to_be_bytes());
    }
    bytes
}

#[test]
fn a_new_machine_is_zeroed() {
    let vm = Vm::new(0x3000, Flag::Zero.bits());
    assert_eq!(vm.pc(), 0x3000);
    assert_eq!(vm.psr(), 2);
    for r in 0..8 {
        assert_eq!(vm.reg(r), 0);
    }
    for a in 0..=u16::MAX {
        assert_eq!(vm.peek(a), 0);
    }
}

#[test]
fn the_default_machine_starts_at_zero() {
    let vm = Vm::default();
    assert_eq!(vm.pc(), 0);
    assert_eq!(vm.psr(), 0);
    assert_eq!(vm.reg(7), 0);
    assert_eq!(vm.peek(0xFFFF), 0);
}

#[test]
fn loader_round_trip() {
    let mut vm = Vm::new(0, Flag::Zero.bits());
    let bytes = image(0x3000, &[0x1001, 0x1002]);
    assert_eq!(bytes, vec![0x30, 0x00, 0x10, 0x01, 0x10, 0x02]);
    assert_eq!(vm.read_image(&bytes), Ok(()));
    assert_eq!(vm.peek(0x3000), 0x1001);
    assert_eq!(vm.peek(0x3001), 0x1002);
    assert_eq!(vm.pc(), 0x3000);
    assert_eq!(vm.peek(0x2FFF), 0);
    assert_eq!(vm.peek(0x3002), 0);
    assert_eq!(vm.psr(), 2);
}

#[test]
fn loader_reads_big_endian() {
    let mut vm = Vm::default();
    assert_eq!(vm.read_image(&[0x12, 0x34, 0xAB, 0xCD]), Ok(()));
    assert_eq!(vm.pc(), 0x1234);
    assert_eq!(vm.peek(0x1234), 0xABCD);
}

#[test]
fn loader_boundary() {
    let mut vm = Vm::new(0x1111, Flag::Zero.bits());
    vm.poke(0x4000, 0xBEEF);
    let words = vec![0x7777u16; 65537];
    let bytes = image(0x3000, &words);
    assert_eq!(vm.read_image(&bytes), Err(VmError::ImageTooLarge));
    for a in 0..=u16::MAX {
        let expected = if a == 0x4000 { 0xBEEF } else { 0 };
        assert_eq!(vm.peek(a), expected);
    }
    assert_eq!(vm.pc(), 0x3000);
}

#[test]
fn loader_takes_a_full_address_space() {
    let mut vm = Vm::default();
    let words: Vec<u16> = (0..=u16::MAX).collect();
    let bytes = image(0, &words);
    assert_eq!(vm.read_image(&bytes), Ok(()));
    for a in 0..=u16::MAX {
        assert_eq!(vm.peek(a), a);
    }
}

#[test]
fn loader_goes_round_the_address_space() {
    let mut vm = Vm::default();
    let bytes = image(0xFFFF, &[0xAAAA, 0xBBBB, 0xCCCC]);
    assert_eq!(vm.read_image(&bytes), Ok(()));
    assert_eq!(vm.peek(0xFFFF), 0xAAAA);
    assert_eq!(vm.peek(0x0000), 0xBBBB);
    assert_eq!(vm.peek(0x0001), 0xCCCC);
    assert_eq!(vm.peek(0x0002), 0);
    assert_eq!(vm.peek(0xFFFE), 0);
    assert_eq!(vm.pc(), 0xFFFF);
}

#[test]
fn loader_leaves_out_a_last_odd_byte() {
    let mut vm = Vm::default();
    assert_eq!(vm.read_image(&[0x30, 0x00, 0x10, 0x01, 0x99]), Ok(()));
    assert_eq!(vm.peek(0x3000), 0x1001);
    assert_eq!(vm.peek(0x3001), 0);
}

#[test]
fn loader_takes_an_image_without_words() {
    let mut vm = Vm::default();
    vm.poke(0x3000, 7);
    assert_eq!(vm.read_image(&[0x30, 0x00]), Ok(()));
    assert_eq!(vm.pc(), 0x3000);
    assert_eq!(vm.peek(0x3000), 7);
}

#[test]
fn loader_keeps_registers_and_condition_code() {
    let mut vm = Vm::new(0, Flag::Neg.bits());
    vm.set_reg(3, 0x1234);
    assert_eq!(vm.read_image(&image(0x3000, &[1, 2, 3])), Ok(()));
    assert_eq!(vm.reg(3), 0x1234);
    assert_eq!(vm.psr(), 4);
}

#[test]
fn loader_writes_behind_the_device_registers() {
    let mut vm = Vm::default();
    assert_eq!(vm.read_image(&image(0xFE00, &[0x1111])), Ok(()));
    assert_eq!(vm.peek(0xFE00), 0x1111);
    assert_eq!(vm.read_mem(0xFE00, Supply { ready: false, key: 0 }), 0);
}

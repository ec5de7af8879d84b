use cpu_core::cpu::CPU;
use cpu_core::flags::{CARRY, DECIMAL, INTERRUPT, NEGATIVE, OVERFLOW, ZERO};
use cpu_core::opcode::{Fault, Opcode};

#[test]
fn flag_bits_have_their_positions() {
    assert_eq!(CARRY, 1 << 0);
    assert_eq!(ZERO, 1 << 1);
    assert_eq!(INTERRUPT, 1 << 2);
    assert_eq!(DECIMAL, 1 << 3);
    assert_eq!(OVERFLOW, 1 << 6);
    assert_eq!(NEGATIVE, 1 << 7);
}

#[test]
fn set_zero_bit_sets_on_zero() {
    let mut cpu = CPU::new();
    cpu.set_zero_bit(0);
    assert_eq!(cpu.status, 0b0000_0010);
    assert!(cpu.zero_flag());
    cpu.set_zero_bit(0);
    assert_eq!(cpu.status, 0b0000_0010);
}

#[test]
fn set_zero_bit_clears_on_nonzero() {
    for value in 1..=255u8 {
        let mut cpu = CPU::new();
        cpu.status = 0b1111_1111;
        cpu.set_zero_bit(value);
        assert_eq!(cpu.status, 0b1111_1101);
        assert!(!cpu.zero_flag());
    }
}

#[test]
fn set_zero_bit_touches_one_bit_only() {
    for status in 0..=255u8 {
        let mut cpu = CPU { register_a: 3, register_x: 4, status, program_counter: 5 };
        cpu.set_zero_bit(0);
        assert_eq!(cpu, CPU { register_a: 3, register_x: 4, status: status | 0b0000_0010, program_counter: 5 });
        cpu.set_zero_bit(9);
        assert_eq!(cpu, CPU { register_a: 3, register_x: 4, status: status & 0b1111_1101, program_counter: 5 });
    }
}

#[test]
fn set_neg_bit_follows_bit_seven() {
    for value in 0..=255u8 {
        let mut cpu = CPU::new();
        cpu.status = 0b0101_0101;
        cpu.set_neg_bit(value);
        if value >= 0x80 {
            assert_eq!(cpu.status, 0b1101_0101);
            assert!(cpu.negative_flag());
        } else {
            assert_eq!(cpu.status, 0b0101_0101);
            assert!(!cpu.negative_flag());
        }
    }
}

#[test]
fn set_neg_bit_clears_a_set_flag() {
    let mut cpu = CPU { register_a: 3, register_x: 4, status: 0b1111_1111, program_counter: 5 };
    cpu.set_neg_bit(0x7f);
    assert_eq!(cpu, CPU { register_a: 3, register_x: 4, status: 0b0111_1111, program_counter: 5 });
    cpu.set_neg_bit(0x80);
    assert_eq!(cpu, CPU { register_a: 3, register_x: 4, status: 0b1111_1111, program_counter: 5 });
}

#[test]
fn set_zero_and_neg_bits_sets_both_from_one_value() {
    let mut cpu = CPU::new();
    cpu.status = 0b0100_1101;

    cpu.set_zero_and_neg_bits(0x00);
    assert_eq!(cpu.status, 0b0100_1111);

    cpu.set_zero_and_neg_bits(0x01);
    assert_eq!(cpu.status, 0b0100_1101);

    cpu.set_zero_and_neg_bits(0xff);
    assert_eq!(cpu.status, 0b1100_1101);

    cpu.set_zero_and_neg_bits(0x00);
    assert_eq!(cpu.status, 0b0100_1111);

    assert_eq!(cpu.register_a, 0);
    assert_eq!(cpu.register_x, 0);
    assert_eq!(cpu.program_counter, 0);
}

#[test]
fn flag_accessors_read_their_bits() {
    let mut cpu = CPU::new();
    cpu.status = 0b0111_1101;
    assert!(!cpu.zero_flag());
    assert!(!cpu.negative_flag());
    cpu.status = 0b0000_0010;
    assert!(cpu.zero_flag());
    assert!(!cpu.negative_flag());
    cpu.status = 0b1000_0000;
    assert!(!cpu.zero_flag());
    assert!(cpu.negative_flag());
}

#[test]
fn decode_knows_four_opcodes() {
    assert_eq!(Opcode::decode(0xa9), Ok(Opcode::LoadAccumulator));
    assert_eq!(Opcode::decode(0x00), Ok(Opcode::Halt));
    assert_eq!(Opcode::decode(0xaa), Ok(Opcode::TransferAccumulatorToIndex));
    assert_eq!(Opcode::decode(0xe8), Ok(Opcode::IncrementIndex));
}

#[test]
fn decode_rejects_every_other_byte() {
    for byte in 0..=255u8 {
        if byte != 0xa9 && byte != 0x00 && byte != 0xaa && byte != 0xe8 {
            assert_eq!(Opcode::decode(byte), Err(Fault::UnimplementedOpcode { opcode: byte }));
        }
    }
}

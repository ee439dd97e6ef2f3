use i4004::cpu::{Snapshot, CPU};
use i4004::hardware::Hardware;
use i4004::model::Fault;

fn processor(program: &[u8]) -> CPU {
    CPU::new(Hardware::new(program.to_vec()))
}

fn in_range(s: &Snapshot) -> bool {
    s.accumulator <= 15
        && s.index_registers.iter().all(|r| *r <= 15)
        && s.program_counter <= 4095
        && s.stack.len() <= 3
        && s.stack.iter().all(|a| *a <= 4095)
        && s.command_control_register <= 7
        && s.ram_address_register_0 <= 15
        && s.ram_address_register_1 <= 15
}

/// A program store filled by a fixed recurrence, so that every opcode occurs.
fn mixed_program(seed: u32) -> Vec<u8> {
    let mut state = seed;
    let mut program = Vec::with_capacity(4096);
    for _ in 0..4096 {
        state = state.wrapping_mul(1_103_515_245).wrapping_add(12_345);
        program.push((state >> 16) as u8);
    }
    program
}

#[test]
fn registers_stay_in_range_whatever_runs() {
    for seed in 1..40u32 {
        let mut cpu = processor(&mixed_program(seed));
        cpu.set_test(seed % 2 == 0);
        for _ in 0..2000 {
            match cpu.run_instruction() {
                Ok(()) => assert!(in_range(&cpu.snapshot())),
                Err(Fault::UnknownOpcode { opr, opa, program_counter }) => {
                    assert_eq!(opr, 0xF);
                    assert!(opa == 0xE || opa == 0xF);
                    assert_eq!(program_counter, cpu.snapshot().program_counter);
                    assert!(in_range(&cpu.snapshot()));
                    break;
                },
                Err(Fault::StackUnderflow { program_counter }) => {
                    assert_eq!(program_counter, cpu.snapshot().program_counter);
                    assert!(cpu.snapshot().stack.is_empty());
                    break;
                },
            }
        }
    }
}

#[test]
fn nop_program_only_moves_the_program_counter() {
    for n in [0u64, 1, 7, 4095, 4096, 4097, 5000, 10_000] {
        let mut cpu = processor(&[0x00, 0x01, 0x0F]);
        assert_eq!(cpu.run(n), Ok(()));
        let s = cpu.snapshot();
        assert_eq!(s.program_counter as u64, n % 4096);
        assert_eq!(s.accumulator, 0);
        assert!(!s.carry);
        assert!(s.stack.is_empty());
        assert_eq!(s.index_registers, [0u8; 16]);
        assert_eq!(s.command_control_register, 0);
        assert_eq!(s.ram_address_register_0, 0);
        assert_eq!(s.ram_address_register_1, 0);
    }
}

#[test]
fn ldm_xch_ld_leaves_the_value_in_both() {
    for r in 0..16u8 {
        for v in 0..16u8 {
            let mut cpu = processor(&[0xD0 | v, 0xB0 | r, 0xA0 | r]);
            assert_eq!(cpu.run(3), Ok(()));
            let s = cpu.snapshot();
            assert_eq!(s.accumulator, v);
            assert_eq!(s.index_registers[r as usize], v);
            for other in 0..16usize {
                if other != r as usize {
                    assert_eq!(s.index_registers[other], 0);
                }
            }
        }
    }
}

#[test]
fn cma_twice_is_the_identity() {
    for v in 0..16u8 {
        let mut cpu = processor(&[0xD0 | v, 0xF4, 0xF4]);
        assert_eq!(cpu.run(3), Ok(()));
        assert_eq!(cpu.snapshot().accumulator, v);
    }
}

#[test]
fn cmc_twice_is_the_identity() {
    let mut cpu = processor(&[0xF3, 0xF3]);
    assert_eq!(cpu.run(2), Ok(()));
    assert!(!cpu.snapshot().carry);
    let mut cpu = processor(&[0xFA, 0xF3, 0xF3]);
    assert_eq!(cpu.run(3), Ok(()));
    assert!(cpu.snapshot().carry);
}

#[test]
fn rotations_undo_each_other() {
    for v in 0..16u8 {
        for carry in [0xF1u8, 0xFA] {
            // CLC or STC; LDM v; RAL; RAR
            let mut cpu = processor(&[carry, 0xD0 | v, 0xF5, 0xF6]);
            assert_eq!(cpu.run(4), Ok(()));
            assert_eq!(cpu.snapshot().accumulator, v);
            assert_eq!(cpu.snapshot().carry, carry == 0xFA);
            // CLC or STC; LDM v; RAR; RAL
            let mut cpu = processor(&[carry, 0xD0 | v, 0xF6, 0xF5]);
            assert_eq!(cpu.run(4), Ok(()));
            assert_eq!(cpu.snapshot().accumulator, v);
            assert_eq!(cpu.snapshot().carry, carry == 0xFA);
        }
    }
}

#[test]
fn five_rotations_come_round() {
    for v in 0..16u8 {
        for carry in [0xF1u8, 0xFA] {
            for rotate in [0xF5u8, 0xF6] {
                let mut cpu =
                    processor(&[carry, 0xD0 | v, rotate, rotate, rotate, rotate, rotate]);
                assert_eq!(cpu.run(7), Ok(()));
                assert_eq!(cpu.snapshot().accumulator, v);
                assert_eq!(cpu.snapshot().carry, carry == 0xFA);
            }
        }
    }
}

#[test]
fn four_rotations_do_not_come_round() {
    // LDM 1; RAL four times: the bit sits in the carry
    let mut cpu = processor(&[0xD1, 0xF5, 0xF5, 0xF5, 0xF5]);
    assert_eq!(cpu.run(5), Ok(()));
    assert_eq!(cpu.snapshot().accumulator, 0);
    assert!(cpu.snapshot().carry);
}

#[test]
fn stack_keeps_the_three_newest_return_addresses() {
    // JMS 0x010 at 0x000, JMS 0x020 at 0x010, JMS 0x030 at 0x020,
    // JMS 0x040 at 0x030, JMS 0x050 at 0x040
    let mut program = vec![0u8; 0x60];
    for k in 0..5usize {
        program[k * 0x10] = 0x50;
        program[k * 0x10 + 1] = ((k + 1) * 0x10) as u8;
    }
    program[0x50] = 0xC1; // BBL 1
    program[0x42] = 0xC2; // BBL 2
    program[0x32] = 0xC3; // BBL 3
    program[0x22] = 0xC4; // BBL 4
    let mut cpu = processor(&program);

    let kept: [&[u16]; 5] = [
        &[0x002],
        &[0x012, 0x002],
        &[0x022, 0x012, 0x002],
        &[0x032, 0x022, 0x012],
        &[0x042, 0x032, 0x022],
    ];
    for k in 0..5 {
        assert_eq!(cpu.run_instruction(), Ok(()));
        assert_eq!(cpu.snapshot().stack, kept[k].to_vec());
    }
    assert_eq!(cpu.snapshot().program_counter, 0x050);

    // three returns work, newest first; the fourth finds nothing
    assert_eq!(cpu.run_instruction(), Ok(()));
    assert_eq!(cpu.snapshot().program_counter, 0x042);
    assert_eq!(cpu.run_instruction(), Ok(()));
    assert_eq!(cpu.snapshot().program_counter, 0x032);
    assert_eq!(cpu.run_instruction(), Ok(()));
    assert_eq!(cpu.snapshot().program_counter, 0x022);
    assert_eq!(cpu.snapshot().accumulator, 3);
    assert_eq!(cpu.run_instruction(), Err(Fault::StackUnderflow { program_counter: 0x022 }));
}

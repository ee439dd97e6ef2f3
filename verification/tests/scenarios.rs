use i4004::cpu::CPU;
use i4004::hardware::Hardware;

fn machine(program: &[u8]) -> CPU {
    CPU::new(Hardware::new(program.to_vec()))
}

fn steps(cpu: &mut CPU, n: usize) {
    for _ in 0..n {
        assert_eq!(cpu.run_instruction(), Ok(()));
    }
}

#[test]
fn ldm_then_xch() {
    // LDM 5; XCH R3
    let mut cpu = machine(&[0xD5, 0xB3]);
    steps(&mut cpu, 2);
    let s = cpu.snapshot();
    assert_eq!(s.accumulator, 0);
    assert_eq!(s.index_registers[3], 5);
    assert_eq!(s.program_counter, 2);
}

#[test]
fn add_with_carry_out() {
    // ADD R2 at 0; behind it what brings the registers to their starting
    // values and jumps back: LDM 9; XCH R2; LDM 8; CLC; JUN 0x000
    let mut cpu = machine(&[0x82, 0xD9, 0xB2, 0xD8, 0xF1, 0x40, 0x00]);
    steps(&mut cpu, 6);
    let before = cpu.snapshot();
    assert_eq!(before.accumulator, 0x8);
    assert!(!before.carry);
    assert_eq!(before.index_registers[2], 0x9);
    assert_eq!(before.program_counter, 0);

    steps(&mut cpu, 1);
    let after = cpu.snapshot();
    assert_eq!(after.accumulator, 0x1);
    assert!(after.carry);
    assert_eq!(after.program_counter, 1);
    assert_eq!(after.index_registers[2], 0x9);
}

#[test]
fn sub_with_carry_clear_borrows() {
    // SUB R4 at 0; LDM 5; XCH R4; LDM 3; CLC; JUN 0x000
    let mut cpu = machine(&[0x94, 0xD5, 0xB4, 0xD3, 0xF1, 0x40, 0x00]);
    steps(&mut cpu, 6);
    let before = cpu.snapshot();
    assert_eq!(before.accumulator, 0x3);
    assert!(!before.carry);
    assert_eq!(before.index_registers[4], 0x5);
    assert_eq!(before.program_counter, 0);

    // 3 + (15 - 5) + 1 = 14
    steps(&mut cpu, 1);
    let after = cpu.snapshot();
    assert_eq!(after.accumulator, 0xE);
    assert!(!after.carry);
    assert_eq!(after.program_counter, 1);
}

#[test]
fn sub_with_carry_set_takes_one_more() {
    // SUB R4 at 0; LDM 5; XCH R4; LDM 3; STC; JUN 0x000
    let mut cpu = machine(&[0x94, 0xD5, 0xB4, 0xD3, 0xFA, 0x40, 0x00]);
    steps(&mut cpu, 6);
    let before = cpu.snapshot();
    assert_eq!(before.accumulator, 0x3);
    assert!(before.carry);
    assert_eq!(before.index_registers[4], 0x5);
    assert_eq!(before.program_counter, 0);

    // 3 + (15 - 5) + 0 = 13
    steps(&mut cpu, 1);
    let after = cpu.snapshot();
    assert_eq!(after.accumulator, 0xD);
    assert!(!after.carry);
    assert_eq!(after.program_counter, 1);
}

#[test]
fn jms_bbl_round_trip() {
    let mut program = vec![0u8; 0x101];
    program[0] = 0x51; // JMS 0x100
    program[1] = 0x00;
    program[0x100] = 0xC7; // BBL 7
    let mut cpu = machine(&program);

    steps(&mut cpu, 1);
    let s = cpu.snapshot();
    assert_eq!(s.program_counter, 0x100);
    assert_eq!(s.stack, vec![0x002]);

    steps(&mut cpu, 1);
    let s = cpu.snapshot();
    assert_eq!(s.accumulator, 7);
    assert_eq!(s.program_counter, 0x002);
    assert!(s.stack.is_empty());
}

#[test]
fn isz_loop() {
    // ISZ R1, 0x00 at address 0. From power-on the loop itself counts R1 up:
    // after fourteen passes R1 holds 0xE and the program counter is back at 0.
    let mut cpu = machine(&[0x71, 0x00]);
    steps(&mut cpu, 14);
    let s = cpu.snapshot();
    assert_eq!(s.index_registers[1], 0xE);
    assert_eq!(s.program_counter, 0x000);

    steps(&mut cpu, 1);
    let s = cpu.snapshot();
    assert_eq!(s.index_registers[1], 0xF);
    assert_eq!(s.program_counter, 0x000);

    steps(&mut cpu, 1);
    let s = cpu.snapshot();
    assert_eq!(s.index_registers[1], 0x0);
    assert_eq!(s.program_counter, 0x002);
}

#[test]
fn src_wrm_rdm() {
    // FIM R2R3, 0x05; LDM 10; SRC R2R3; WRM; CLB; RDM
    let mut cpu = machine(&[0x22, 0x05, 0xDA, 0x23, 0xE0, 0xF0, 0xE9]);
    steps(&mut cpu, 2);
    let s = cpu.snapshot();
    assert_eq!(s.index_registers[2], 0x0);
    assert_eq!(s.index_registers[3], 0x5);
    assert_eq!(s.accumulator, 0xA);

    steps(&mut cpu, 1);
    let s = cpu.snapshot();
    assert_eq!(s.ram_address_register_0, 0x0);
    assert_eq!(s.ram_address_register_1, 0x5);

    steps(&mut cpu, 2);
    assert_eq!(cpu.snapshot().accumulator, 0);
    steps(&mut cpu, 1);
    assert_eq!(cpu.snapshot().accumulator, 0xA);
    assert_eq!(cpu.hardware().ram_read_char(0, 0, 5), 0xA);
    assert_eq!(cpu.hardware().ram_read_char(0, 0, 4), 0);
}

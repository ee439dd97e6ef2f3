use i4004::hardware::Hardware;
use i4004::ram::Ram;
use i4004::rom::Rom;

#[test]
fn rom_image_is_zero_filled() {
    let rom = Rom::new(vec![0xD5, 0xB3]);
    assert_eq!(rom.read_word(0), 0xD5);
    assert_eq!(rom.read_word(1), 0xB3);
    assert_eq!(rom.read_word(2), 0);
    assert_eq!(rom.read_word(4095), 0);
}

#[test]
fn rom_takes_a_full_image() {
    let mut image = vec![0u8; 4096];
    image[4095] = 0x7E;
    let rom = Rom::new(image);
    assert_eq!(rom.read_word(4095), 0x7E);
    assert_eq!(rom.read_word(4094), 0);
}

#[test]
fn rom_takes_an_empty_image() {
    let rom = Rom::new(Vec::new());
    assert_eq!(rom.read_word(0), 0);
}

#[test]
fn rom_ports_start_clear_and_latch_four_bits() {
    let mut rom = Rom::new(vec![1, 2, 3]);
    for chip in 0..16 {
        assert_eq!(rom.read_port(chip), 0);
    }
    rom.write_port(15, 0xB7);
    rom.write_port(0, 0x0C);
    assert_eq!(rom.read_port(15), 0x7);
    assert_eq!(rom.read_port(0), 0xC);
    assert_eq!(rom.read_port(1), 0);
    assert_eq!(rom.read_word(0), 1);
}

#[test]
fn ram_starts_cleared() {
    let ram = Ram::new();
    for chip in 0..32 {
        assert_eq!(ram.read_output(chip), 0);
        for register in 0..4 {
            for character in 0..16 {
                assert_eq!(ram.read_char(chip, register, character), 0);
            }
            for status in 0..4 {
                assert_eq!(ram.read_status(chip, register, status), 0);
            }
        }
    }
}

#[test]
fn ram_write_masks_to_four_bits() {
    let mut ram = Ram::new();
    ram.write_char(0, 0, 5, 0x3A);
    assert_eq!(ram.read_char(0, 0, 5), 0xA);
    ram.write_status(0, 0, 2, 0xF1);
    assert_eq!(ram.read_status(0, 0, 2), 0x1);
    ram.write_output(0, 0x29);
    assert_eq!(ram.read_output(0), 0x9);
}

#[test]
fn ram_cells_are_independent() {
    let mut ram = Ram::new();
    ram.write_char(31, 3, 15, 0xF);
    ram.write_char(31, 3, 14, 0x1);
    ram.write_char(30, 3, 15, 0x2);
    ram.write_char(31, 2, 15, 0x3);
    ram.write_status(31, 3, 3, 0x4);
    ram.write_output(31, 0x5);
    assert_eq!(ram.read_char(31, 3, 15), 0xF);
    assert_eq!(ram.read_char(31, 3, 14), 0x1);
    assert_eq!(ram.read_char(30, 3, 15), 0x2);
    assert_eq!(ram.read_char(31, 2, 15), 0x3);
    assert_eq!(ram.read_status(31, 3, 3), 0x4);
    assert_eq!(ram.read_output(31), 0x5);
    assert_eq!(ram.read_char(0, 0, 0), 0);
    assert_eq!(ram.read_status(31, 3, 2), 0);
    assert_eq!(ram.read_output(30), 0);
}

#[test]
fn hardware_forwards_to_both_stores() {
    let mut hardware = Hardware::new(vec![0x11, 0x22]);
    assert_eq!(hardware.rom_read_byte(0), 0x11);
    assert_eq!(hardware.rom_read_byte(1), 0x22);
    assert_eq!(hardware.rom_read_byte(2), 0);

    hardware.ram_write_char(7, 1, 9, 0x6);
    hardware.ram_write_status(7, 1, 0, 0x7);
    hardware.ram_write_output(7, 0x8);
    hardware.rom_write_port(3, 0x9);
    assert_eq!(hardware.ram_read_char(7, 1, 9), 0x6);
    assert_eq!(hardware.ram_read_status(7, 1, 0), 0x7);
    assert_eq!(hardware.ram_read_output(7), 0x8);
    assert_eq!(hardware.rom_read_port(3), 0x9);
    assert_eq!(hardware.ram_read_char(6, 1, 9), 0);
    assert_eq!(hardware.rom_read_port(2), 0);
}

#[test]
fn hardware_masks_what_it_stores() {
    let mut hardware = Hardware::new(Vec::new());
    hardware.ram_write_char(0, 0, 0, 0xFF);
    hardware.ram_write_status(0, 0, 0, 0x10);
    hardware.ram_write_output(0, 0x1E);
    hardware.rom_write_port(0, 0xA5);
    assert_eq!(hardware.ram_read_char(0, 0, 0), 0xF);
    assert_eq!(hardware.ram_read_status(0, 0, 0), 0x0);
    assert_eq!(hardware.ram_read_output(0), 0xE);
    assert_eq!(hardware.rom_read_port(0), 0x5);
}

#[test]
fn hardware_ram_clear_keeps_the_program_store() {
    let mut hardware = Hardware::new(vec![0xAB]);
    hardware.ram_write_char(1, 2, 3, 0x4);
    hardware.ram_write_status(1, 2, 3, 0x5);
    hardware.ram_write_output(1, 0x6);
    hardware.rom_write_port(1, 0x7);
    hardware.ram_clear();
    assert_eq!(hardware.ram_read_char(1, 2, 3), 0);
    assert_eq!(hardware.ram_read_status(1, 2, 3), 0);
    assert_eq!(hardware.ram_read_output(1), 0);
    assert_eq!(hardware.rom_read_port(1), 0x7);
    assert_eq!(hardware.rom_read_byte(0), 0xAB);
}

//! The single point of contact between the processor and its memory chips.
//!
//! The facade owns the program store and the data store and forwards each
//! request to the one it concerns. All thirty-two data chips and all sixteen
//! program-store latches are backed.

use vstd::prelude::*;
use crate::ram::{Ram, RamView, MAIN_MEM_SIZE, RAM_CHIPS, RAM_REGISTERS, STATUS_MEM_SIZE};
use crate::rom::{Rom, RomView, ROM_CHIPS, ROM_SIZE};

verus! {

/// What the memory chips hold.
#[verifier::ext_equal]
pub struct HardwareView {
    pub rom: RomView,
    pub ram: RamView,
}

impl HardwareView {
    /// Both stores are complete and hold four-bit values where four bits are stored.
    pub open spec fn wf(self) -> bool {
        self.rom.wf() && self.ram.wf()
    }

    /// The chips as they stand after loading `image`: data store and latches clear.
    pub open spec fn load(image: Seq<u8>) -> HardwareView {
        HardwareView { rom: RomView::load(image), ram: RamView::cleared() }
    }
}

/// The memory chips behind one interface.
#[derive(Debug)]
pub struct Hardware {
    rom: Rom,
    ram: Ram,
}

impl View for Hardware {
    type V = HardwareView;

    closed spec fn view(&self) -> HardwareView {
        HardwareView { rom: self.rom@, ram: self.ram@ }
    }
}

impl Hardware {
    /// The representation invariant of both stores.
    pub open spec fn wf(&self) -> bool {
        self@.wf()
    }

    /// Chips holding the program `rom`, of at most 4096 bytes, and a cleared data store.
    pub fn new(rom: Vec<u8>) -> (hardware: Hardware)
        requires
            rom.len() <= ROM_SIZE,
        ensures
            hardware.wf(),
            hardware@ == HardwareView::load(rom@),
    {
        Hardware { rom: Rom::new(rom), ram: Ram::new() }
    }

    /// The program word at `address`.
    pub fn rom_read_byte(&self, address: u16) -> (word: u8)
        requires
            address < ROM_SIZE,
        ensures
            word == self@.rom.words[address as int],
    {
        self.rom.read_word(address)
    }

    /// The value that the program-store latch of `chip` holds.
    pub fn rom_read_port(&self, chip: u8) -> (value: u8)
        requires
            self.wf(),
            chip < ROM_CHIPS,
        ensures
            value == self@.rom.ports[chip as int],
            value < 16,
    {
        self.rom.read_port(chip)
    }

    /// Stores the low four bits of `value` in the program-store latch of `chip`.
    pub fn rom_write_port(&mut self, chip: u8, value: u8)
        requires
            old(self).wf(),
            chip < ROM_CHIPS,
        ensures
            final(self).wf(),
            final(self)@ == (HardwareView {
                rom: old(self)@.rom.write_port(chip as int, value),
                ..old(self)@
            }),
    {
        self.rom.write_port(chip, value);
    }

    /// The main character at `character` in `register` of data chip `chip`.
    pub fn ram_read_char(&self, chip: u8, register: u8, character: u8) -> (value: u8)
        requires
            self.wf(),
            chip < RAM_CHIPS,
            register < RAM_REGISTERS,
            character < MAIN_MEM_SIZE,
        ensures
            value == self@.ram.main[chip as int][register as int][character as int],
            value < 16,
    {
        self.ram.read_char(chip, register, character)
    }

    /// Stores the low four bits of `value` in a main character of data chip `chip`.
    pub fn ram_write_char(&mut self, chip: u8, register: u8, character: u8, value: u8)
        requires
            old(self).wf(),
            chip < RAM_CHIPS,
            register < RAM_REGISTERS,
            character < MAIN_MEM_SIZE,
        ensures
            final(self).wf(),
            final(self)@ == (HardwareView {
                ram: old(self)@.ram.write_char(
                    chip as int,
                    register as int,
                    character as int,
                    value,
                ),
                ..old(self)@
            }),
    {
        self.ram.write_char(chip, register, character, value)
    }

    /// The status character `status` in `register` of data chip `chip`.
    pub fn ram_read_status(&self, chip: u8, register: u8, status: u8) -> (value: u8)
        requires
            self.wf(),
            chip < RAM_CHIPS,
            register < RAM_REGISTERS,
            status < STATUS_MEM_SIZE,
        ensures
            value == self@.ram.status[chip as int][register as int][status as int],
            value < 16,
    {
        self.ram.read_status(chip, register, status)
    }

    /// Stores the low four bits of `value` in a status character of data chip `chip`.
    pub fn ram_write_status(&mut self, chip: u8, register: u8, status: u8, value: u8)
        requires
            old(self).wf(),
            chip < RAM_CHIPS,
            register < RAM_REGISTERS,
            status < STATUS_MEM_SIZE,
        ensures
            final(self).wf(),
            final(self)@ == (HardwareView {
                ram: old(self)@.ram.write_status(
                    chip as int,
                    register as int,
                    status as int,
                    value,
                ),
                ..old(self)@
            }),
    {
        self.ram.write_status(chip, register, status, value)
    }

    /// Latches the low four bits of `value` on the output of data chip `chip`.
    pub fn ram_write_output(&mut self, chip: u8, value: u8)
        requires
            old(self).wf(),
            chip < RAM_CHIPS,
        ensures
            final(self).wf(),
            final(self)@ == (HardwareView {
                ram: old(self)@.ram.write_output(chip as int, value),
                ..old(self)@
            }),
    {
        self.ram.write_output(chip, value);
    }

    /// The value latched on the output of data chip `chip`.
    pub fn ram_read_output(&self, chip: u8) -> (value: u8)
        requires
            self.wf(),
            chip < RAM_CHIPS,
        ensures
            value == self@.ram.output[chip as int],
            value < 16,
    {
        self.ram.read_output(chip)
    }

    /// Zeroes the data store; the program store and its latches stay.
    pub fn ram_clear(&mut self)
        requires
            old(self).wf(),
        ensures
            final(self).wf(),
            final(self)@ == (HardwareView { ram: RamView::cleared(), ..old(self)@ }),
    {
        self.ram = Ram::new();
    }
}

} // verus!

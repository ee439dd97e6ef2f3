//! Data storage: eight banks of four chips; each chip has four registers of
//! sixteen main and four status characters, and one four-bit output latch.
//! Every chip is backed.

use vstd::prelude::*;
use crate::nibble::lemma_byte_halves;

verus! {

/// Number of chips: eight banks of four.
pub const RAM_CHIPS: usize = 32;

/// Registers on each chip.
pub const RAM_REGISTERS: usize = 4;

/// Main characters in each register.
pub const MAIN_MEM_SIZE: usize = 16;

/// Status characters in each register.
pub const STATUS_MEM_SIZE: usize = 4;

/// What the data store holds, indexed `[chip][register][character]` for the
/// main and status characters and `[chip]` for the output latches.
#[verifier::ext_equal]
pub struct RamView {
    pub main: Seq<Seq<Seq<u8>>>,
    pub status: Seq<Seq<Seq<u8>>>,
    pub output: Seq<u8>,
}

impl RamView {
    /// Every cell exists and holds a four-bit value.
    pub open spec fn wf(self) -> bool {
        &&& self.main.len() == RAM_CHIPS
        &&& self.status.len() == RAM_CHIPS
        &&& self.output.len() == RAM_CHIPS
        &&& forall|chip: int| 0 <= chip < RAM_CHIPS ==> #[trigger] self.output[chip] < 16
        &&& forall|chip: int|
            0 <= chip < RAM_CHIPS ==> (#[trigger] self.main[chip]).len() == RAM_REGISTERS
        &&& forall|chip: int|
            0 <= chip < RAM_CHIPS ==> (#[trigger] self.status[chip]).len() == RAM_REGISTERS
        &&& forall|chip: int, register: int|
            0 <= chip < RAM_CHIPS && 0 <= register < RAM_REGISTERS ==> (
            #[trigger] self.main[chip][register]).len() == MAIN_MEM_SIZE
        &&& forall|chip: int, register: int|
            0 <= chip < RAM_CHIPS && 0 <= register < RAM_REGISTERS ==> (
            #[trigger] self.status[chip][register]).len() == STATUS_MEM_SIZE
        &&& forall|chip: int, register: int, character: int|
            0 <= chip < RAM_CHIPS && 0 <= register < RAM_REGISTERS && 0 <= character
                < MAIN_MEM_SIZE ==> #[trigger] self.main[chip][register][character] < 16
        &&& forall|chip: int, register: int, character: int|
            0 <= chip < RAM_CHIPS && 0 <= register < RAM_REGISTERS && 0 <= character
                < STATUS_MEM_SIZE ==> #[trigger] self.status[chip][register][character] < 16
    }

    /// The store with every cell and latch zero.
    pub open spec fn cleared() -> RamView {
        RamView {
            main: Seq::new(
                RAM_CHIPS as nat,
                |chip: int|
                    Seq::new(
                        RAM_REGISTERS as nat,
                        |register: int| Seq::new(MAIN_MEM_SIZE as nat, |character: int| 0u8),
                    ),
            ),
            status: Seq::new(
                RAM_CHIPS as nat,
                |chip: int|
                    Seq::new(
                        RAM_REGISTERS as nat,
                        |register: int| Seq::new(STATUS_MEM_SIZE as nat, |character: int| 0u8),
                    ),
            ),
            output: Seq::new(RAM_CHIPS as nat, |chip: int| 0u8),
        }
    }

    /// The store after writing the low four bits of `value` to a main character.
    pub open spec fn write_char(self, chip: int, register: int, character: int, value: u8)
        -> RamView {
        RamView {
            main: self.main.update(
                chip,
                self.main[chip].update(
                    register,
                    self.main[chip][register].update(character, value % 16),
                ),
            ),
            ..self
        }
    }

    /// The store after writing the low four bits of `value` to a status character.
    pub open spec fn write_status(self, chip: int, register: int, status: int, value: u8)
        -> RamView {
        RamView {
            status: self.status.update(
                chip,
                self.status[chip].update(
                    register,
                    self.status[chip][register].update(status, value % 16),
                ),
            ),
            ..self
        }
    }

    /// The store after latching the low four bits of `value` on a chip's output.
    pub open spec fn write_output(self, chip: int, value: u8) -> RamView {
        RamView { output: self.output.update(chip, value % 16), ..self }
    }
}

#[derive(Copy, Clone, Debug)]
struct Register {
    main: [u8; MAIN_MEM_SIZE],
    status: [u8; STATUS_MEM_SIZE],
}

#[derive(Copy, Clone, Debug)]
struct Chip {
    registers: [Register; RAM_REGISTERS],
    output: u8,
}

/// The data store.
#[derive(Debug)]
pub struct Ram {
    chips: [Chip; RAM_CHIPS],
}

impl View for Ram {
    type V = RamView;

    closed spec fn view(&self) -> RamView {
        RamView {
            main: Seq::new(
                RAM_CHIPS as nat,
                |chip: int|
                    Seq::new(
                        RAM_REGISTERS as nat,
                        |register: int| self.chips[chip].registers[register].main@,
                    ),
            ),
            status: Seq::new(
                RAM_CHIPS as nat,
                |chip: int|
                    Seq::new(
                        RAM_REGISTERS as nat,
                        |register: int| self.chips[chip].registers[register].status@,
                    ),
            ),
            output: Seq::new(RAM_CHIPS as nat, |chip: int| self.chips[chip].output),
        }
    }
}

impl Ram {
    /// The representation invariant: every cell holds a four-bit value.
    pub open spec fn wf(&self) -> bool {
        self@.wf()
    }

    /// A store with every cell and latch zero.
    pub fn new() -> (ram: Ram)
        ensures
            ram.wf(),
            ram@ == RamView::cleared(),
    {
        let ram = Ram {
            chips: [Chip {
                registers: [Register {
                    main: [0; MAIN_MEM_SIZE],
                    status: [0; STATUS_MEM_SIZE],
                }; RAM_REGISTERS],
                output: 0,
            }; RAM_CHIPS],
        };
        assert(ram@ =~~= RamView::cleared());
        ram
    }

    /// The main character at `character` in `register` of `chip`.
    pub fn read_char(&self, chip: u8, register: u8, character: u8) -> (value: u8)
        requires
            self.wf(),
            chip < RAM_CHIPS,
            register < RAM_REGISTERS,
            character < MAIN_MEM_SIZE,
        ensures
            value == self@.main[chip as int][register as int][character as int],
            value < 16,
    {
        self.chips[chip as usize].registers[register as usize].main[character as usize]
    }

    /// Stores the low four bits of `value` in a main character.
    pub fn write_char(&mut self, chip: u8, register: u8, character: u8, value: u8)
        requires
            old(self).wf(),
            chip < RAM_CHIPS,
            register < RAM_REGISTERS,
            character < MAIN_MEM_SIZE,
        ensures
            final(self).wf(),
            final(self)@ == old(self)@.write_char(
                chip as int,
                register as int,
                character as int,
                value,
            ),
    {
        proof {
            lemma_byte_halves(value);
        }
        self.chips[chip as usize].registers[register as usize].main[character as usize] = value
            & 0b1111;
        assert(self@ =~~= old(self)@.write_char(
            chip as int,
            register as int,
            character as int,
            value,
        ));
    }

    /// The status character `status` in `register` of `chip`.
    pub fn read_status(&self, chip: u8, register: u8, status: u8) -> (value: u8)
        requires
            self.wf(),
            chip < RAM_CHIPS,
            register < RAM_REGISTERS,
            status < STATUS_MEM_SIZE,
        ensures
            value == self@.status[chip as int][register as int][status as int],
            value < 16,
    {
        self.chips[chip as usize].registers[register as usize].status[status as usize]
    }

    /// Stores the low four bits of `value` in a status character.
    pub fn write_status(&mut self, chip: u8, register: u8, status: u8, value: u8)
        requires
            old(self).wf(),
            chip < RAM_CHIPS,
            register < RAM_REGISTERS,
            status < STATUS_MEM_SIZE,
        ensures
            final(self).wf(),
            final(self)@ == old(self)@.write_status(
                chip as int,
                register as int,
                status as int,
                value,
            ),
    {
        proof {
            lemma_byte_halves(value);
        }
        self.chips[chip as usize].registers[register as usize].status[status as usize] = value
            & 0b1111;
        assert(self@ =~~= old(self)@.write_status(
            chip as int,
            register as int,
            status as int,
            value,
        ));
    }

    /// The value latched on the output of `chip`.
    pub fn read_output(&self, chip: u8) -> (value: u8)
        requires
            self.wf(),
            chip < RAM_CHIPS,
        ensures
            value == self@.output[chip as int],
            value < 16,
    {
        assert(self@.output[chip as int] < 16);
        self.chips[chip as usize].output
    }

    /// Latches the low four bits of `value` on the output of `chip`.
    pub fn write_output(&mut self, chip: u8, value: u8)
        requires
            old(self).wf(),
            chip < RAM_CHIPS,
        ensures
            final(self).wf(),
            final(self)@ == old(self)@.write_output(chip as int, value),
    {
        proof {
            lemma_byte_halves(value);
        }
        self.chips[chip as usize].output = value & 0b1111;
        assert(self@ =~~= old(self)@.write_output(chip as int, value));
    }
}

} // verus!

//! Program storage: 4096 eight-bit words and one four-bit I/O latch per chip.

use vstd::prelude::*;
use crate::nibble::lemma_byte_halves;

verus! {

/// Number of program words the processor can address.
pub const ROM_SIZE: usize = 4096;

/// Number of 256-word chips, each with its own I/O latch.
pub const ROM_CHIPS: usize = 16;

/// What a program store holds: its words and the latched value of each port.
#[verifier::ext_equal]
pub struct RomView {
    pub words: Seq<u8>,
    pub ports: Seq<u8>,
}

impl RomView {
    /// Every address has a word, every chip a latch, and latches are four bits wide.
    pub open spec fn wf(self) -> bool {
        &&& self.words.len() == ROM_SIZE
        &&& self.ports.len() == ROM_CHIPS
        &&& forall|chip: int| 0 <= chip < ROM_CHIPS ==> #[trigger] self.ports[chip] < 16
    }

    /// The store loaded from `image` at address 0, zero-filled behind it, all latches clear.
    pub open spec fn load(image: Seq<u8>) -> RomView {
        RomView {
            words: Seq::new(
                ROM_SIZE as nat,
                |address: int| if address < image.len() { image[address] } else { 0u8 },
            ),
            ports: Seq::new(ROM_CHIPS as nat, |chip: int| 0u8),
        }
    }

    /// The store after latching the low four bits of `value` on `chip`.
    pub open spec fn write_port(self, chip: int, value: u8) -> RomView {
        RomView { ports: self.ports.update(chip, value % 16), ..self }
    }
}

/// The program store.
#[derive(Debug)]
pub struct Rom {
    words: [u8; ROM_SIZE],
    ports: [u8; ROM_CHIPS],
}

impl View for Rom {
    type V = RomView;

    closed spec fn view(&self) -> RomView {
        RomView { words: self.words@, ports: self.ports@ }
    }
}

impl Rom {
    /// The representation invariant: every latch holds a four-bit value.
    pub open spec fn wf(&self) -> bool {
        self@.wf()
    }

    /// Builds the store from a program image of at most 4096 bytes.
    pub fn new(rom: Vec<u8>) -> (r: Rom)
        requires
            rom.len() <= ROM_SIZE,
        ensures
            r.wf(),
            r@ == RomView::load(rom@),
    {
        let mut r = Rom { words: [0; ROM_SIZE], ports: [0; ROM_CHIPS] };
        let mut x: usize = 0;
        while x < rom.len()
            invariant
                x <= rom.len() <= ROM_SIZE,
                forall|i: int| 0 <= i < x ==> r.words[i] == rom[i],
                forall|i: int| x <= i < ROM_SIZE ==> r.words[i] == 0,
                forall|i: int| 0 <= i < ROM_CHIPS ==> r.ports[i] == 0,
            decreases rom.len() - x,
        {
            r.words[x] = rom[x];
            x += 1;
        }
        r
    }

    /// The word stored at `address`.
    pub fn read_word(&self, address: u16) -> (word: u8)
        requires
            address < ROM_SIZE,
        ensures
            word == self@.words[address as int],
    {
        self.words[address as usize]
    }

    /// The value that the I/O latch of `chip` holds.
    pub fn read_port(&self, chip: u8) -> (value: u8)
        requires
            self.wf(),
            chip < ROM_CHIPS,
        ensures
            value == self@.ports[chip as int],
            value < 16,
    {
        self.ports[chip as usize]
    }

    /// Stores the low four bits of `value` in the I/O latch of `chip`.
    pub fn write_port(&mut self, chip: u8, value: u8)
        requires
            old(self).wf(),
            chip < ROM_CHIPS,
        ensures
            final(self).wf(),
            final(self)@ == old(self)@.write_port(chip as int, value),
    {
        proof {
            lemma_byte_halves(value);
        }
        self.ports[chip as usize] = value & 0b1111;
    }
}

} // verus!

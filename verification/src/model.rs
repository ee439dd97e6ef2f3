//! The machine as a mathematical object: its state, the effect of every
//! instruction on it, and what one step and a run of steps compute.
//!
//! Instruction effects are stated on the state as it stands once the
//! instruction's first word has been fetched and the program counter moved
//! past it; two-word instructions read their second word from there.

use vstd::prelude::*;
use crate::hardware::HardwareView;
use crate::nibble::{bit, high, low, pair_even, pair_odd};
use crate::ram::RamView;

verus! {

/// Number of index registers.
pub const NUM_INDEX_REGISTERS: usize = 16;

/// Number of return addresses the processor keeps.
pub const NUM_STACK_REGISTERS: usize = 3;

/// Why an instruction could not be executed.
#[derive(Clone, Copy, Debug, PartialEq, Eq, Structural)]
pub enum Fault {
    /// The word fetched at `program_counter` encodes no instruction.
    UnknownOpcode { opr: u8, opa: u8, program_counter: u16 },
    /// The instruction at `program_counter` returns from a subroutine, and no
    /// return address is kept.
    StackUnderflow { program_counter: u16 },
}

/// Everything the machine holds between two instructions.
#[verifier::ext_equal]
pub struct State {
    /// The four-bit working register.
    pub accumulator: u8,
    /// The carry, borrow and rotate flag.
    pub carry: bool,
    /// The address of the next word to fetch.
    pub program_counter: u16,
    /// The kept return addresses, newest first.
    pub stack: Seq<u16>,
    /// The sixteen four-bit index registers.
    pub index_registers: Seq<u8>,
    /// The three-bit register that selects the bank of data chips.
    pub command_control_register: u8,
    /// The latch whose upper two bits name a chip and whose lower two bits name a register.
    pub ram_address_register_0: u8,
    /// The latch that names a main character.
    pub ram_address_register_1: u8,
    /// The level of the external test line.
    pub test: bool,
    /// The memory chips.
    pub hardware: HardwareView,
}

/// The address `page * 256 + upper * 16 + lower`.
pub open spec fn address(page: int, upper: int, lower: int) -> u16 {
    (page * 256 + upper * 16 + lower) as u16
}

/// The kept return addresses after `address` is pushed: it comes first, and
/// of the older ones only as many stay as fit.
pub open spec fn pushed(stack: Seq<u16>, address: u16) -> Seq<u16> {
    if stack.len() >= NUM_STACK_REGISTERS {
        seq![address] + stack.take(NUM_STACK_REGISTERS - 1)
    } else {
        seq![address] + stack
    }
}

impl State {
    /// Every register holds a value of its width and the stack is within its depth.
    pub open spec fn wf(self) -> bool {
        &&& self.accumulator < 16
        &&& self.program_counter < 4096
        &&& self.stack.len() <= NUM_STACK_REGISTERS
        &&& forall|i: int| 0 <= i < self.stack.len() ==> #[trigger] self.stack[i] < 4096
        &&& self.index_registers.len() == NUM_INDEX_REGISTERS
        &&& forall|i: int|
            0 <= i < NUM_INDEX_REGISTERS ==> #[trigger] self.index_registers[i] < 16
        &&& self.command_control_register < 8
        &&& self.ram_address_register_0 < 16
        &&& self.ram_address_register_1 < 16
        &&& self.hardware.wf()
    }

    /// The state at power-on: every register zero, no return address kept,
    /// the test line low.
    pub open spec fn power_on(hardware: HardwareView) -> State {
        State {
            accumulator: 0,
            carry: false,
            program_counter: 0,
            stack: Seq::empty(),
            index_registers: Seq::new(NUM_INDEX_REGISTERS as nat, |i: int| 0u8),
            command_control_register: 0,
            ram_address_register_0: 0,
            ram_address_register_1: 0,
            test: false,
            hardware,
        }
    }

    /// The state after a reset: registers and data store zero, the program
    /// store with its latches and the test line as they were.
    pub open spec fn reset(self) -> State {
        State {
            test: self.test,
            ..State::power_on(HardwareView { ram: RamView::cleared(), ..self.hardware })
        }
    }

    /// The word at the program counter.
    pub open spec fn word(self) -> u8 {
        self.hardware.rom.words[self.program_counter as int]
    }

    /// The state with the program counter moved to the next word, around the
    /// end of the program store.
    pub open spec fn advance(self) -> State {
        State { program_counter: ((self.program_counter + 1) % 4096) as u16, ..self }
    }

    /// The address in the page of the program counter that `upper` and `lower` name.
    pub open spec fn in_page(self, upper: u8, lower: u8) -> u16 {
        address(self.program_counter as int / 256, upper as int, lower as int)
    }

    /// The state with index register `r` holding `value`.
    pub open spec fn with_register(self, r: int, value: u8) -> State {
        State { index_registers: self.index_registers.update(r, value), ..self }
    }

    /// The state with the accumulator holding the low four bits of `sum` and
    /// the carry holding its fifth bit.
    pub open spec fn with_sum(self, sum: int) -> State {
        State { accumulator: (sum % 16) as u8, carry: sum >= 16, ..self }
    }

    /// 1 if the carry is set, 0 otherwise.
    pub open spec fn carry_in(self) -> int {
        if self.carry {
            1
        } else {
            0
        }
    }

    /// 1 if the carry is clear, 0 otherwise.
    pub open spec fn borrow_in(self) -> int {
        if self.carry {
            0
        } else {
            1
        }
    }

    /// The data chip that the bank register and the address latch select.
    pub open spec fn ram_chip(self) -> int {
        self.command_control_register * 4 + self.ram_address_register_0 / 4
    }

    /// The register on that chip that the address latch selects.
    pub open spec fn ram_register(self) -> int {
        self.ram_address_register_0 as int % 4
    }

    /// The program-store chip whose latch the address latch selects.
    pub open spec fn rom_chip(self) -> int {
        self.ram_address_register_0 as int / 4
    }

    /// The main character that the latches select.
    pub open spec fn ram_char(self) -> u8 {
        self.hardware.ram.main[self.ram_chip()][self.ram_register()][self.ram_address_register_1 as int]
    }

    /// Status character `n` of the register that the latches select.
    pub open spec fn ram_status(self, n: u8) -> u8 {
        self.hardware.ram.status[self.ram_chip()][self.ram_register()][n as int]
    }

    /// The state with the data store replaced.
    pub open spec fn with_ram(self, ram: RamView) -> State {
        State { hardware: HardwareView { ram, ..self.hardware }, ..self }
    }

    /// Whether JCN with condition nibble `opa` jumps: bit 2 tests for a zero
    /// accumulator, bit 1 for a set carry, bit 0 for the test line; bit 3
    /// inverts the outcome.
    pub open spec fn jcn_taken(self, opa: u8) -> bool {
        let condition = (bit(opa, 2) && self.accumulator == 0) || (bit(opa, 1) && self.carry) || (
        bit(opa, 0) && self.test);
        condition != bit(opa, 3)
    }

    /// JCN: jump within the page of the following instruction if the condition holds.
    pub open spec fn opr_jcn(self, opa: u8) -> State {
        let next = self.advance();
        if self.jcn_taken(opa) {
            State { program_counter: next.in_page(high(self.word()), low(self.word())), ..next }
        } else {
            next
        }
    }

    /// FIM: load the second word into the register pair, upper nibble first.
    pub open spec fn opr_fim(self, opa: u8) -> State {
        self.advance().with_register(opa as int, high(self.word())).with_register(
            opa + 1,
            low(self.word()),
        )
    }

    /// SRC: send the register pair to the address latches.
    pub open spec fn opr_src(self, opa: u8) -> State {
        State {
            ram_address_register_0: self.index_registers[pair_even(opa)],
            ram_address_register_1: self.index_registers[pair_odd(opa)],
            ..self
        }
    }

    /// The address that FIN reads: in the page of the following instruction,
    /// at the offset held in the first register pair.
    pub open spec fn fin_address(self) -> u16 {
        self.in_page(self.index_registers[0], self.index_registers[1])
    }

    /// FIN: load the word at the address held in the first register pair into
    /// the register pair, upper nibble first.
    pub open spec fn opr_fin(self, opa: u8) -> State {
        let word = self.hardware.rom.words[self.fin_address() as int];
        self.with_register(opa as int, high(word)).with_register(opa + 1, low(word))
    }

    /// JIN: jump within the page to the offset held in the register pair.
    pub open spec fn opr_jin(self, opa: u8) -> State {
        State {
            program_counter: self.in_page(
                self.index_registers[pair_even(opa)],
                self.index_registers[pair_odd(opa)],
            ),
            ..self
        }
    }

    /// JUN: jump to the twelve-bit address made of `opa` and the second word.
    pub open spec fn opr_jun(self, opa: u8) -> State {
        State {
            program_counter: address(
                opa as int,
                high(self.word()) as int,
                low(self.word()) as int,
            ),
            ..self
        }
    }

    /// JMS: push the address of the following instruction, then jump as JUN does.
    pub open spec fn opr_jms(self, opa: u8) -> State {
        State {
            program_counter: address(
                opa as int,
                high(self.word()) as int,
                low(self.word()) as int,
            ),
            stack: pushed(self.stack, self.advance().program_counter),
            ..self
        }
    }

    /// INC: add one to the register, around sixteen.
    pub open spec fn opr_inc(self, opa: u8) -> State {
        self.with_register(opa as int, ((self.index_registers[opa as int] + 1) % 16) as u8)
    }

    /// ISZ: add one to the register, around sixteen; unless it reached zero,
    /// jump within the page of the following instruction.
    pub open spec fn opr_isz(self, opa: u8) -> State {
        let next = self.advance().opr_inc(opa);
        if next.index_registers[opa as int] != 0 {
            State { program_counter: next.in_page(high(self.word()), low(self.word())), ..next }
        } else {
            next
        }
    }

    /// ADD: add the register and the carry to the accumulator.
    pub open spec fn opr_add(self, opa: u8) -> State {
        self.with_sum(self.accumulator + self.index_registers[opa as int] + self.carry_in())
    }

    /// SUB: add the complement of the register and of the carry to the accumulator.
    pub open spec fn opr_sub(self, opa: u8) -> State {
        self.with_sum(
            self.accumulator + (15 - self.index_registers[opa as int]) + self.borrow_in(),
        )
    }

    /// LD: copy the register to the accumulator.
    pub open spec fn opr_ld(self, opa: u8) -> State {
        State { accumulator: self.index_registers[opa as int], ..self }
    }

    /// XCH: exchange the register and the accumulator.
    pub open spec fn opr_xch(self, opa: u8) -> State {
        State { accumulator: self.index_registers[opa as int], ..self }.with_register(
            opa as int,
            self.accumulator,
        )
    }

    /// BBL: return to the newest kept address and load `opa`.
    pub open spec fn opr_bbl(self, opa: u8) -> State {
        State {
            program_counter: self.stack[0],
            stack: self.stack.skip(1),
            accumulator: opa,
            ..self
        }
    }

    /// LDM: load `opa`.
    pub open spec fn opr_ldm(self, opa: u8) -> State {
        State { accumulator: opa, ..self }
    }

    /// WRM: write the accumulator to the selected main character.
    pub open spec fn opa_wrm(self) -> State {
        self.with_ram(
            self.hardware.ram.write_char(
                self.ram_chip(),
                self.ram_register(),
                self.ram_address_register_1 as int,
                self.accumulator,
            ),
        )
    }

    /// WMP: write the accumulator to the output latch of the selected chip.
    pub open spec fn opa_wmp(self) -> State {
        self.with_ram(self.hardware.ram.write_output(self.ram_chip(), self.accumulator))
    }

    /// The state with `value` written to the latch of the selected program-store chip.
    pub open spec fn with_port(self, value: u8) -> State {
        State {
            hardware: HardwareView {
                rom: self.hardware.rom.write_port(self.rom_chip(), value),
                ..self.hardware
            },
            ..self
        }
    }

    /// WRR: write the accumulator to the latch of the selected program-store chip.
    pub open spec fn opa_wrr(self) -> State {
        self.with_port(self.accumulator)
    }

    /// WR0 to WR3: write the accumulator to status character `n` of the selected register.
    pub open spec fn opa_wrn(self, n: u8) -> State {
        self.with_ram(
            self.hardware.ram.write_status(
                self.ram_chip(),
                self.ram_register(),
                n as int,
                self.accumulator,
            ),
        )
    }

    /// SBM: add the complement of the selected main character and of the
    /// carry to the accumulator.
    pub open spec fn opa_sbm(self) -> State {
        self.with_sum(self.accumulator + (15 - self.ram_char()) + self.borrow_in())
    }

    /// RDM: load the selected main character.
    pub open spec fn opa_rdm(self) -> State {
        State { accumulator: self.ram_char(), ..self }
    }

    /// RDR: load the latch of the selected program-store chip.
    pub open spec fn opa_rdr(self) -> State {
        State { accumulator: self.hardware.rom.ports[self.rom_chip()], ..self }
    }

    /// ADM: add the selected main character and the carry to the accumulator.
    pub open spec fn opa_adm(self) -> State {
        self.with_sum(self.accumulator + self.ram_char() + self.carry_in())
    }

    /// RD0 to RD3: load status character `n` of the selected register.
    pub open spec fn opa_rdn(self, n: u8) -> State {
        State { accumulator: self.ram_status(n), ..self }
    }

    /// CLB: clear accumulator and carry.
    pub open spec fn opa_clb(self) -> State {
        State { accumulator: 0, carry: false, ..self }
    }

    /// CLC: clear the carry.
    pub open spec fn opa_clc(self) -> State {
        State { carry: false, ..self }
    }

    /// IAC: add one to the accumulator.
    pub open spec fn opa_iac(self) -> State {
        self.with_sum(self.accumulator + 1)
    }

    /// CMC: complement the carry.
    pub open spec fn opa_cmc(self) -> State {
        State { carry: !self.carry, ..self }
    }

    /// CMA: complement the accumulator.
    pub open spec fn opa_cma(self) -> State {
        State { accumulator: (15 - self.accumulator) as u8, ..self }
    }

    /// RAL: rotate accumulator and carry one bit to the left.
    pub open spec fn opa_ral(self) -> State {
        self.with_sum(self.accumulator * 2 + self.carry_in())
    }

    /// RAR: rotate accumulator and carry one bit to the right.
    pub open spec fn opa_rar(self) -> State {
        State {
            accumulator: (self.accumulator / 2 + 8 * self.carry_in()) as u8,
            carry: self.accumulator % 2 == 1,
            ..self
        }
    }

    /// TCC: load the carry, then clear it.
    pub open spec fn opa_tcc(self) -> State {
        State { accumulator: self.carry_in() as u8, carry: false, ..self }
    }

    /// DAC: subtract one from the accumulator; the carry is clear exactly on a borrow.
    pub open spec fn opa_dac(self) -> State {
        self.with_sum(self.accumulator + 15)
    }

    /// TCS: load 10 if the carry is set and 9 otherwise, then clear the carry.
    pub open spec fn opa_tcs(self) -> State {
        State { accumulator: (9 + self.carry_in()) as u8, carry: false, ..self }
    }

    /// STC: set the carry.
    pub open spec fn opa_stc(self) -> State {
        State { carry: true, ..self }
    }

    /// DAA: if the carry is set or the accumulator exceeds 9, add 6 to the
    /// accumulator and set the carry on overflow.
    pub open spec fn opa_daa(self) -> State {
        if self.carry || self.accumulator > 9 {
            State {
                accumulator: ((self.accumulator + 6) % 16) as u8,
                carry: self.carry || self.accumulator + 6 >= 16,
                ..self
            }
        } else {
            self
        }
    }

    /// KBP: turn a one-of-four code into the number of its bit, counted from
    /// 1; zero stays zero and any other value gives 15.
    pub open spec fn opa_kbp(self) -> State {
        State {
            accumulator: match self.accumulator {
                0 => 0,
                1 => 1,
                2 => 2,
                4 => 3,
                8 => 4,
                _ => 15,
            },
            ..self
        }
    }

    /// DCL: load the bank register from the low three bits of the accumulator.
    pub open spec fn opa_dcl(self) -> State {
        State { command_control_register: self.accumulator % 8, ..self }
    }

    /// The effect of the input, output and data-store instruction `opa`.
    pub open spec fn io_group(self, opa: u8) -> State {
        match opa {
            0x0 => self.opa_wrm(),
            0x1 => self.opa_wmp(),
            0x2 => self.opa_wrr(),
            0x3 => self,
            0x4 => self.opa_wrn(0),
            0x5 => self.opa_wrn(1),
            0x6 => self.opa_wrn(2),
            0x7 => self.opa_wrn(3),
            0x8 => self.opa_sbm(),
            0x9 => self.opa_rdm(),
            0xa => self.opa_rdr(),
            0xb => self.opa_adm(),
            0xc => self.opa_rdn(0),
            0xd => self.opa_rdn(1),
            0xe => self.opa_rdn(2),
            _ => self.opa_rdn(3),
        }
    }

    /// The effect of the accumulator instruction `opa`, which is at most 13.
    pub open spec fn accumulator_group(self, opa: u8) -> State {
        match opa {
            0x0 => self.opa_clb(),
            0x1 => self.opa_clc(),
            0x2 => self.opa_iac(),
            0x3 => self.opa_cmc(),
            0x4 => self.opa_cma(),
            0x5 => self.opa_ral(),
            0x6 => self.opa_rar(),
            0x7 => self.opa_tcc(),
            0x8 => self.opa_dac(),
            0x9 => self.opa_tcs(),
            0xa => self.opa_stc(),
            0xb => self.opa_daa(),
            0xc => self.opa_kbp(),
            _ => self.opa_dcl(),
        }
    }

    /// The effect of the instruction with nibbles `opr` and `opa` on the
    /// state that its fetch left.
    pub open spec fn execute(self, opr: u8, opa: u8) -> State {
        match opr {
            0x0 => self,
            0x1 => self.opr_jcn(opa),
            0x2 => if opa % 2 == 0 {
                self.opr_fim(opa)
            } else {
                self.opr_src(opa)
            },
            0x3 => if opa % 2 == 0 {
                self.opr_fin(opa)
            } else {
                self.opr_jin(opa)
            },
            0x4 => self.opr_jun(opa),
            0x5 => self.opr_jms(opa),
            0x6 => self.opr_inc(opa),
            0x7 => self.opr_isz(opa),
            0x8 => self.opr_add(opa),
            0x9 => self.opr_sub(opa),
            0xa => self.opr_ld(opa),
            0xb => self.opr_xch(opa),
            0xc => self.opr_bbl(opa),
            0xd => self.opr_ldm(opa),
            0xe => self.io_group(opa),
            _ => self.accumulator_group(opa),
        }
    }

    /// Why the instruction at the program counter cannot be executed, if it cannot.
    pub open spec fn fault(self) -> Option<Fault> {
        let opr = high(self.word());
        let opa = low(self.word());
        if opr == 0xf && opa > 0xd {
            Some(Fault::UnknownOpcode { opr, opa, program_counter: self.program_counter })
        } else if opr == 0xc && self.stack.len() == 0 {
            Some(Fault::StackUnderflow { program_counter: self.program_counter })
        } else {
            None
        }
    }

    /// One instruction: the state it leaves, or the fault that stopped it.
    pub open spec fn step(self) -> Result<State, Fault> {
        match self.fault() {
            Some(fault) => Err(fault),
            None => Ok(self.advance().execute(high(self.word()), low(self.word()))),
        }
    }

    /// Up to `n` instructions, stopping before the first that faults: the
    /// state reached, and the fault if there was one.
    pub open spec fn run(self, n: nat) -> (State, Option<Fault>)
        decreases n,
    {
        if n == 0 {
            (self, None)
        } else {
            match self.step() {
                Ok(next) => next.run((n - 1) as nat),
                Err(fault) => (self, Some(fault)),
            }
        }
    }
}

} // verus!

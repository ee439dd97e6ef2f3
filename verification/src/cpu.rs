//! The processor: fetch, decode and execute, one instruction at a time.
//!
//! Every instruction is specified by the function of the same name on
//! `State`. Input and output reach data chip `bank * 4 + chip`, where the
//! bank is the command-control register and the chip the upper two bits of
//! the first address latch; the latch of the program store is chosen by those
//! two bits alone. An instruction that faults changes nothing.

use std::collections::VecDeque;
use vstd::prelude::*;
use crate::hardware::Hardware;
use crate::model::{address, pushed, Fault, State, NUM_INDEX_REGISTERS, NUM_STACK_REGISTERS};
use crate::nibble::{
    high, lemma_address, lemma_bits, lemma_byte_halves, lemma_complement, lemma_latch_fields,
    lemma_low_three, lemma_page_number, lemma_pair_members, lemma_rotate, lemma_wrap, low, split,
};

verus! {

/// The processor with the memory chips it drives.
#[derive(Debug)]
pub struct CPU {
    accumulator: u8,
    carry: bool,
    program_counter: u16,
    program_counter_stack: VecDeque<u16>,
    index_registers: [u8; NUM_INDEX_REGISTERS],
    // selects the bank of data chips
    command_control_register: u8,
    // select chip, register and character for input and output
    ram_address_register_0: u8,
    ram_address_register_1: u8,
    test_signal: bool,
    hardware: Hardware,
}

/// The programmer-visible registers at one moment.
#[derive(Debug)]
pub struct Snapshot {
    pub accumulator: u8,
    pub carry: bool,
    pub program_counter: u16,
    /// The kept return addresses, newest first.
    pub stack: Vec<u16>,
    pub index_registers: [u8; NUM_INDEX_REGISTERS],
    pub command_control_register: u8,
    pub ram_address_register_0: u8,
    pub ram_address_register_1: u8,
}

impl View for CPU {
    type V = State;

    closed spec fn view(&self) -> State {
        State {
            accumulator: self.accumulator,
            carry: self.carry,
            program_counter: self.program_counter,
            stack: self.program_counter_stack@,
            index_registers: self.index_registers@,
            command_control_register: self.command_control_register,
            ram_address_register_0: self.ram_address_register_0,
            ram_address_register_1: self.ram_address_register_1,
            test: self.test_signal,
            hardware: self.hardware@,
        }
    }
}

/// The twelve-bit address made of a page number and the two halves of an offset.
fn join(page: u8, upper: u8, lower: u8) -> (target: u16)
    requires
        page < 16,
        upper < 16,
        lower < 16,
    ensures
        target == address(page as int, upper as int, lower as int),
        target < 4096,
{
    proof {
        lemma_address(page, upper, lower);
    }
    ((page as u16) << 8) | ((upper as u16) << 4) | (lower as u16)
}

impl CPU {
    /// The representation invariant: every register holds a value of its
    /// width, at most three return addresses are kept, and the chips are sound.
    pub open spec fn wf(&self) -> bool {
        self@.wf()
    }

    /// A processor at power-on, attached to `hardware`.
    pub fn new(hardware: Hardware) -> (cpu: CPU)
        requires
            hardware.wf(),
        ensures
            cpu.wf(),
            cpu@ == State::power_on(hardware@),
    {
        CPU {
            accumulator: 0,
            carry: false,
            program_counter: 0,
            program_counter_stack: VecDeque::with_capacity(NUM_STACK_REGISTERS),
            index_registers: [0; NUM_INDEX_REGISTERS],
            command_control_register: 0,
            ram_address_register_0: 0,
            ram_address_register_1: 0,
            test_signal: false,
            hardware: hardware,
        }
    }

    /// Zeroes every register and the data store; the program store, its
    /// latches and the test line stay as they are.
    pub fn reset(&mut self)
        requires
            old(self).wf(),
        ensures
            final(self).wf(),
            final(self)@ == old(self)@.reset(),
    {
        self.accumulator = 0;
        self.carry = false;
        self.program_counter = 0;
        self.program_counter_stack.clear();
        self.index_registers = [0; NUM_INDEX_REGISTERS];
        self.command_control_register = 0;
        self.ram_address_register_0 = 0;
        self.ram_address_register_1 = 0;
        self.hardware.ram_clear();
    }

    /// Sets the level of the external test line, which JCN can test.
    pub fn set_test(&mut self, level: bool)
        ensures
            final(self)@ == (State { test: level, ..old(self)@ }),
            old(self).wf() ==> final(self).wf(),
    {
        self.test_signal = level;
    }

    /// The memory chips.
    pub fn hardware(&self) -> (hardware: &Hardware)
        ensures
            hardware@ == self@.hardware,
    {
        &self.hardware
    }

    /// A copy of the programmer-visible registers.
    pub fn snapshot(&self) -> (snapshot: Snapshot)
        ensures
            snapshot.accumulator == self@.accumulator,
            snapshot.carry == self@.carry,
            snapshot.program_counter == self@.program_counter,
            snapshot.stack@ == self@.stack,
            snapshot.index_registers@ == self@.index_registers,
            snapshot.command_control_register == self@.command_control_register,
            snapshot.ram_address_register_0 == self@.ram_address_register_0,
            snapshot.ram_address_register_1 == self@.ram_address_register_1,
    {
        let mut stack: Vec<u16> = Vec::new();
        let mut i: usize = 0;
        while i < self.program_counter_stack.len()
            invariant
                i <= self.program_counter_stack@.len(),
                stack@ == self.program_counter_stack@.take(i as int),
            decreases self.program_counter_stack@.len() - i,
        {
            stack.push(self.program_counter_stack[i]);
            i += 1;
        }
        Snapshot {
            accumulator: self.accumulator,
            carry: self.carry,
            program_counter: self.program_counter,
            stack,
            index_registers: self.index_registers,
            command_control_register: self.command_control_register,
            ram_address_register_0: self.ram_address_register_0,
            ram_address_register_1: self.ram_address_register_1,
        }
    }

    /// Executes up to `limit` instructions and stops before the first that
    /// faults; the processor then stands where that instruction found it.
    pub fn run(&mut self, limit: u64) -> (result: Result<(), Fault>)
        requires
            old(self).wf(),
        ensures
            final(self).wf(),
            final(self)@ == old(self)@.run(limit as nat).0,
            match old(self)@.run(limit as nat).1 {
                Some(fault) => result == Err::<(), Fault>(fault),
                None => result is Ok,
            },
    {
        let mut executed: u64 = 0;
        while executed < limit
            invariant
                executed <= limit,
                self.wf(),
                self@.run((limit - executed) as nat) == old(self)@.run(limit as nat),
            decreases limit - executed,
        {
            match self.run_instruction() {
                Ok(()) => {},
                Err(fault) => {
                    return Err(fault);
                },
            }
            executed += 1;
        }
        Ok(())
    }

    /// Executes the instruction at the program counter. A word that encodes
    /// no instruction, or a return with no return address kept, is a fault
    /// and leaves the processor untouched.
    pub fn run_instruction(&mut self) -> (result: Result<(), Fault>)
        requires
            old(self).wf(),
        ensures
            final(self).wf(),
            match old(self)@.step() {
                Ok(next) => result is Ok && final(self)@ == next,
                Err(fault) => result == Err::<(), Fault>(fault) && final(self)@ == old(self)@,
            },
    {
        let program_counter: u16 = self.program_counter;
        let (opr, opa): (u8, u8) = self.rom_read_word();
        proof {
            lemma_bits(opa);
        }

        match opr {
            0x0 => {},
            0x1 => self.opr_jcn(opa),
            0x2 => match opa & 0b0001 {
                0 => self.opr_fim(opa),
                _ => self.opr_src(opa),
            },
            0x3 => match opa & 0b0001 {
                0 => self.opr_fin(opa),
                _ => self.opr_jin(opa),
            },
            0x4 => self.opr_jun(opa),
            0x5 => self.opr_jms(opa),
            0x6 => self.opr_inc(opa),
            0x7 => self.opr_isz(opa),
            0x8 => self.opr_add(opa),
            0x9 => self.opr_sub(opa),
            0xa => self.opr_ld(opa),
            0xb => self.opr_xch(opa),
            0xc => {
                if self.program_counter_stack.len() == 0 {
                    self.program_counter = program_counter;
                    return Err(Fault::StackUnderflow { program_counter });
                }
                self.opr_bbl(opa)
            },
            0xd => self.opr_ldm(opa),
            0xe => match opa {
                0x0 => self.opa_wrm(),
                0x1 => self.opa_wmp(),
                0x2 => self.opa_wrr(),
                0x3 => {},
                0x4 => self.opa_wrn(0),
                0x5 => self.opa_wrn(1),
                0x6 => self.opa_wrn(2),
                0x7 => self.opa_wrn(3),
                0x8 => self.opa_sbm(),
                0x9 => self.opa_rdm(),
                0xa => self.opa_rdr(),
                0xb => self.opa_adm(),
                0xc => self.opa_rdn(0),
                0xd => self.opa_rdn(1),
                0xe => self.opa_rdn(2),
                _ => self.opa_rdn(3),
            },
            _ => match opa {
                0x0 => self.opa_clb(),
                0x1 => self.opa_clc(),
                0x2 => self.opa_iac(),
                0x3 => self.opa_cmc(),
                0x4 => self.opa_cma(),
                0x5 => self.opa_ral(),
                0x6 => self.opa_rar(),
                0x7 => self.opa_tcc(),
                0x8 => self.opa_dac(),
                0x9 => self.opa_tcs(),
                0xa => self.opa_stc(),
                0xb => self.opa_daa(),
                0xc => self.opa_kbp(),
                0xd => self.opa_dcl(),
                _ => {
                    self.program_counter = program_counter;
                    return Err(Fault::UnknownOpcode { opr, opa, program_counter });
                },
            },
        }
        Ok(())
    }

    /// The number of the data chip that the bank register and the address latch select.
    fn ram_chip(&self) -> (chip: u8)
        requires
            self.wf(),
        ensures
            chip == self@.ram_chip(),
            chip < 32,
    {
        proof {
            lemma_latch_fields(self.ram_address_register_0);
        }
        self.command_control_register * 4 + (self.ram_address_register_0 >> 2)
    }

    fn ram_read_char(&self) -> (value: u8)
        requires
            self.wf(),
        ensures
            value == self@.ram_char(),
            value < 16,
    {
        proof {
            lemma_latch_fields(self.ram_address_register_0);
        }
        let chip: u8 = self.ram_chip();
        let register: u8 = self.ram_address_register_0 & 0b0011;
        let character: u8 = self.ram_address_register_1;

        self.hardware.ram_read_char(chip, register, character)
    }

    fn ram_write_char(&mut self, value: u8)
        requires
            old(self).wf(),
        ensures
            final(self).wf(),
            final(self)@ == old(self)@.with_ram(
                old(self)@.hardware.ram.write_char(
                    old(self)@.ram_chip(),
                    old(self)@.ram_register(),
                    old(self)@.ram_address_register_1 as int,
                    value,
                ),
            ),
    {
        proof {
            lemma_latch_fields(self.ram_address_register_0);
        }
        let chip: u8 = self.ram_chip();
        let register: u8 = self.ram_address_register_0 & 0b0011;
        let character: u8 = self.ram_address_register_1;

        self.hardware.ram_write_char(chip, register, character, value)
    }

    fn ram_read_status(&self, status: u8) -> (value: u8)
        requires
            self.wf(),
            status < 4,
        ensures
            value == self@.ram_status(status),
            value < 16,
    {
        proof {
            lemma_latch_fields(self.ram_address_register_0);
        }
        let chip: u8 = self.ram_chip();
        let register: u8 = self.ram_address_register_0 & 0b0011;
        self.hardware.ram_read_status(chip, register, status)
    }

    fn ram_write_status(&mut self, status: u8, value: u8)
        requires
            old(self).wf(),
            status < 4,
        ensures
            final(self).wf(),
            final(self)@ == old(self)@.with_ram(
                old(self)@.hardware.ram.write_status(
                    old(self)@.ram_chip(),
                    old(self)@.ram_register(),
                    status as int,
                    value,
                ),
            ),
    {
        proof {
            lemma_latch_fields(self.ram_address_register_0);
        }
        let chip: u8 = self.ram_chip();
        let register: u8 = self.ram_address_register_0 & 0b0011;
        self.hardware.ram_write_status(chip, register, status, value)
    }

    fn ram_write_output(&mut self, value: u8)
        requires
            old(self).wf(),
        ensures
            final(self).wf(),
            final(self)@ == old(self)@.with_ram(
                old(self)@.hardware.ram.write_output(old(self)@.ram_chip(), value),
            ),
    {
        let chip: u8 = self.ram_chip();
        self.hardware.ram_write_output(chip, value);
    }

    /// Fetches the word at the program counter, moves the program counter
    /// past it and hands back the word's two halves.
    fn rom_read_word(&mut self) -> (halves: (u8, u8))
        requires
            old(self).wf(),
        ensures
            final(self).wf(),
            final(self)@ == old(self)@.advance(),
            halves.0 == high(old(self)@.word()),
            halves.1 == low(old(self)@.word()),
            halves.0 < 16,
            halves.1 < 16,
    {
        let word: u8 = self.hardware.rom_read_byte(self.program_counter);
        let next: u16 = self.program_counter + 1;
        proof {
            lemma_wrap(next);
        }
        self.program_counter = next & 0xFFF;
        split(word)
    }

    fn rom_read_port(&self) -> (value: u8)
        requires
            self.wf(),
        ensures
            value == self@.hardware.rom.ports[self@.rom_chip()],
            value < 16,
    {
        proof {
            lemma_latch_fields(self.ram_address_register_0);
        }
        let chip: u8 = self.ram_address_register_0 >> 2;
        self.hardware.rom_read_port(chip)
    }

    fn rom_write_port(&mut self, value: u8)
        requires
            old(self).wf(),
        ensures
            final(self).wf(),
            final(self)@ == old(self)@.with_port(value),
    {
        proof {
            lemma_latch_fields(self.ram_address_register_0);
        }
        let chip: u8 = self.ram_address_register_0 >> 2;
        self.hardware.rom_write_port(chip, value);
    }

    /// Keeps the program counter as the newest return address; with three
    /// kept already, the oldest is lost.
    fn program_counter_stack_push(&mut self)
        requires
            old(self).wf(),
        ensures
            final(self).wf(),
            final(self)@ == (State {
                stack: pushed(old(self)@.stack, old(self)@.program_counter),
                ..old(self)@
            }),
    {
        if self.program_counter_stack.len() == NUM_STACK_REGISTERS {
            self.program_counter_stack.pop_back();
        }
        self.program_counter_stack.push_front(self.program_counter);
    }

    /// Moves the newest return address to the program counter.
    fn program_counter_stack_pop(&mut self)
        requires
            old(self).wf(),
            old(self)@.stack.len() > 0,
        ensures
            final(self).wf(),
            final(self)@ == (State {
                program_counter: old(self)@.stack[0],
                stack: old(self)@.stack.skip(1),
                ..old(self)@
            }),
    {
        match self.program_counter_stack.pop_front() {
            Some(x) => {
                self.program_counter = x;
            },
            None => {},
        }
    }

    /// The address in the page of the program counter that `upper` and `lower` name.
    fn page_address(&self, upper: u8, lower: u8) -> (target: u16)
        requires
            self.wf(),
            upper < 16,
            lower < 16,
        ensures
            target == self@.in_page(upper, lower),
            target < 4096,
    {
        proof {
            lemma_page_number(self.program_counter);
        }
        let ph: u8 = (self.program_counter >> 8) as u8;
        join(ph, upper, lower)
    }

    // ========================= instructions with an operand nibble =========================

    fn opr_jcn(&mut self, opa: u8)
        requires
            old(self).wf(),
            opa < 16,
        ensures
            final(self).wf(),
            final(self)@ == old(self)@.opr_jcn(opa),
    {
        let (a2, a1): (u8, u8) = self.rom_read_word();

        proof {
            lemma_bits(opa);
        }
        let invert_cond: bool = opa & 0b1000 == 0b1000;
        let accumulator_cond: bool = (self.accumulator == 0) && (opa & 0b0100 == 0b0100);
        let carry_cond: bool = (self.carry) && (opa & 0b0010 == 0b0010);
        let test_signal_cond: bool = (self.test_signal) && (opa & 0b0001 == 0b0001);

        let cond: bool = accumulator_cond || carry_cond || test_signal_cond;

        if (!invert_cond && cond) || (invert_cond && !cond) {
            self.program_counter = self.page_address(a2, a1);
        }
    }

    fn opr_src(&mut self, opa: u8)
        requires
            old(self).wf(),
            opa < 16,
        ensures
            final(self).wf(),
            final(self)@ == old(self)@.opr_src(opa),
    {
        proof {
            lemma_pair_members(opa);
        }
        self.ram_address_register_0 = self.index_registers[(opa & 0b1110) as usize];
        self.ram_address_register_1 = self.index_registers[(opa | 0b0001) as usize];
    }

    fn opr_fin(&mut self, opa: u8)
        requires
            old(self).wf(),
            opa < 16,
            opa % 2 == 0,
        ensures
            final(self).wf(),
            final(self)@ == old(self)@.opr_fin(opa),
    {
        let source: u16 = self.page_address(self.index_registers[0], self.index_registers[1]);
        let (d2, d1): (u8, u8) = split(self.hardware.rom_read_byte(source));
        proof {
            lemma_byte_halves(self@.hardware.rom.words[source as int]);
        }
        self.index_registers[opa as usize] = d2;
        self.index_registers[(opa + 1) as usize] = d1;
    }

    fn opr_jin(&mut self, opa: u8)
        requires
            old(self).wf(),
            opa < 16,
        ensures
            final(self).wf(),
            final(self)@ == old(self)@.opr_jin(opa),
    {
        proof {
            lemma_pair_members(opa);
        }
        let pm: u8 = self.index_registers[(opa & 0b1110) as usize];
        let pl: u8 = self.index_registers[(opa | 0b0001) as usize];
        self.program_counter = self.page_address(pm, pl);
    }

    fn opr_jun(&mut self, opa: u8)
        requires
            old(self).wf(),
            opa < 16,
        ensures
            final(self).wf(),
            final(self)@ == old(self)@.opr_jun(opa),
    {
        let (a2, a1): (u8, u8) = self.rom_read_word();
        self.program_counter = join(opa, a2, a1);
    }

    fn opr_jms(&mut self, opa: u8)
        requires
            old(self).wf(),
            opa < 16,
        ensures
            final(self).wf(),
            final(self)@ == old(self)@.opr_jms(opa),
    {
        let (a2, a1): (u8, u8) = self.rom_read_word();
        self.program_counter_stack_push();
        self.program_counter = join(opa, a2, a1);
    }

    fn opr_isz(&mut self, opa: u8)
        requires
            old(self).wf(),
            opa < 16,
        ensures
            final(self).wf(),
            final(self)@ == old(self)@.opr_isz(opa),
    {
        let (a2, a1): (u8, u8) = self.rom_read_word();
        self.index_registers[opa as usize] = (self.index_registers[opa as usize] + 1) % 16;

        if self.index_registers[opa as usize] != 0 {
            self.program_counter = self.page_address(a2, a1);
        }
    }

    fn opr_fim(&mut self, opa: u8)
        requires
            old(self).wf(),
            opa < 16,
            opa % 2 == 0,
        ensures
            final(self).wf(),
            final(self)@ == old(self)@.opr_fim(opa),
    {
        let (d2, d1): (u8, u8) = self.rom_read_word();
        self.index_registers[opa as usize] = d2;
        self.index_registers[(opa + 1) as usize] = d1;
    }

    fn opr_add(&mut self, opa: u8)
        requires
            old(self).wf(),
            opa < 16,
        ensures
            final(self).wf(),
            final(self)@ == old(self)@.opr_add(opa),
    {
        let mut sum: u8 = self.index_registers[opa as usize] + self.accumulator;
        if self.carry {
            sum += 1;
        }
        self.set_sum(sum);
    }

    fn opr_sub(&mut self, opa: u8)
        requires
            old(self).wf(),
            opa < 16,
        ensures
            final(self).wf(),
            final(self)@ == old(self)@.opr_sub(opa),
    {
        proof {
            lemma_complement(self.index_registers[opa as int]);
        }
        let mut sum: u8 = self.accumulator + (!self.index_registers[opa as usize] & 0b1111);
        if !self.carry {
            sum += 1;
        }
        self.set_sum(sum);
    }

    fn opr_inc(&mut self, opa: u8)
        requires
            old(self).wf(),
            opa < 16,
        ensures
            final(self).wf(),
            final(self)@ == old(self)@.opr_inc(opa),
    {
        self.index_registers[opa as usize] = (self.index_registers[opa as usize] + 1) % 16;
    }

    fn opr_ld(&mut self, opa: u8)
        requires
            old(self).wf(),
            opa < 16,
        ensures
            final(self).wf(),
            final(self)@ == old(self)@.opr_ld(opa),
    {
        self.accumulator = self.index_registers[opa as usize];
    }

    fn opr_xch(&mut self, opa: u8)
        requires
            old(self).wf(),
            opa < 16,
        ensures
            final(self).wf(),
            final(self)@ == old(self)@.opr_xch(opa),
    {
        let tmp: u8 = self.accumulator;
        self.accumulator = self.index_registers[opa as usize];
        self.index_registers[opa as usize] = tmp;
    }

    fn opr_bbl(&mut self, opa: u8)
        requires
            old(self).wf(),
            opa < 16,
            old(self)@.stack.len() > 0,
        ensures
            final(self).wf(),
            final(self)@ == old(self)@.opr_bbl(opa),
    {
        self.program_counter_stack_pop();
        self.accumulator = opa;
    }

    fn opr_ldm(&mut self, opa: u8)
        requires
            old(self).wf(),
            opa < 16,
        ensures
            final(self).wf(),
            final(self)@ == old(self)@.opr_ldm(opa),
    {
        self.accumulator = opa;
    }

    // ========================= input, output and data store =========================

    fn opa_rdm(&mut self)
        requires
            old(self).wf(),
        ensures
            final(self).wf(),
            final(self)@ == old(self)@.opa_rdm(),
    {
        self.accumulator = self.ram_read_char();
    }

    fn opa_wrm(&mut self)
        requires
            old(self).wf(),
        ensures
            final(self).wf(),
            final(self)@ == old(self)@.opa_wrm(),
    {
        let acc: u8 = self.accumulator;
        self.ram_write_char(acc);
    }

    fn opa_rdn(&mut self, n: u8)
        requires
            old(self).wf(),
            n < 4,
        ensures
            final(self).wf(),
            final(self)@ == old(self)@.opa_rdn(n),
    {
        self.accumulator = self.ram_read_status(n);
    }

    fn opa_rdr(&mut self)
        requires
            old(self).wf(),
        ensures
            final(self).wf(),
            final(self)@ == old(self)@.opa_rdr(),
    {
        self.accumulator = self.rom_read_port();
    }

    fn opa_wrn(&mut self, n: u8)
        requires
            old(self).wf(),
            n < 4,
        ensures
            final(self).wf(),
            final(self)@ == old(self)@.opa_wrn(n),
    {
        let acc: u8 = self.accumulator;
        self.ram_write_status(n, acc);
    }

    fn opa_wrr(&mut self)
        requires
            old(self).wf(),
        ensures
            final(self).wf(),
            final(self)@ == old(self)@.opa_wrr(),
    {
        let acc: u8 = self.accumulator;
        self.rom_write_port(acc);
    }

    fn opa_wmp(&mut self)
        requires
            old(self).wf(),
        ensures
            final(self).wf(),
            final(self)@ == old(self)@.opa_wmp(),
    {
        let acc: u8 = self.accumulator;
        self.ram_write_output(acc);
    }

    fn opa_adm(&mut self)
        requires
            old(self).wf(),
        ensures
            final(self).wf(),
            final(self)@ == old(self)@.opa_adm(),
    {
        let mut sum: u8 = self.ram_read_char() + self.accumulator;
        if self.carry {
            sum += 1;
        }
        self.set_sum(sum);
    }

    fn opa_sbm(&mut self)
        requires
            old(self).wf(),
        ensures
            final(self).wf(),
            final(self)@ == old(self)@.opa_sbm(),
    {
        let character: u8 = self.ram_read_char();
        proof {
            lemma_complement(character);
        }
        let mut sum: u8 = self.accumulator + (!character & 0b1111);
        if !self.carry {
            sum += 1;
        }
        self.set_sum(sum);
    }

    // ========================= accumulator group =========================

    fn opa_clb(&mut self)
        requires
            old(self).wf(),
        ensures
            final(self).wf(),
            final(self)@ == old(self)@.opa_clb(),
    {
        self.accumulator = 0;
        self.carry = false;
    }

    fn opa_clc(&mut self)
        requires
            old(self).wf(),
        ensures
            final(self).wf(),
            final(self)@ == old(self)@.opa_clc(),
    {
        self.carry = false;
    }

    fn opa_iac(&mut self)
        requires
            old(self).wf(),
        ensures
            final(self).wf(),
            final(self)@ == old(self)@.opa_iac(),
    {
        let sum: u8 = self.accumulator + 1;
        self.set_sum(sum);
    }

    fn opa_cmc(&mut self)
        requires
            old(self).wf(),
        ensures
            final(self).wf(),
            final(self)@ == old(self)@.opa_cmc(),
    {
        self.carry = !self.carry;
    }

    fn opa_cma(&mut self)
        requires
            old(self).wf(),
        ensures
            final(self).wf(),
            final(self)@ == old(self)@.opa_cma(),
    {
        proof {
            lemma_complement(self.accumulator);
        }
        self.accumulator = !self.accumulator & 0b1111;
    }

    fn opa_ral(&mut self)
        requires
            old(self).wf(),
        ensures
            final(self).wf(),
            final(self)@ == old(self)@.opa_ral(),
    {
        proof {
            lemma_rotate(self.accumulator);
        }
        let mut rotated: u8 = self.accumulator << 1;
        if self.carry {
            rotated += 1;
        }
        self.set_sum(rotated);
    }

    fn opa_rar(&mut self)
        requires
            old(self).wf(),
        ensures
            final(self).wf(),
            final(self)@ == old(self)@.opa_rar(),
    {
        proof {
            lemma_rotate(self.accumulator);
        }
        let tmp: bool = self.accumulator & 1 == 1;
        self.accumulator >>= 1;
        if self.carry {
            self.accumulator |= 0b1000;
        }
        self.carry = tmp;
    }

    fn opa_tcc(&mut self)
        requires
            old(self).wf(),
        ensures
            final(self).wf(),
            final(self)@ == old(self)@.opa_tcc(),
    {
        self.accumulator = match self.carry {
            false => 0,
            true => 1,
        };
        self.carry = false;
    }

    fn opa_dac(&mut self)
        requires
            old(self).wf(),
        ensures
            final(self).wf(),
            final(self)@ == old(self)@.opa_dac(),
    {
        if self.accumulator == 0 {
            self.accumulator = 0b1111;
            self.carry = false;
        } else {
            self.accumulator -= 1;
            self.carry = true;
        }
    }

    fn opa_tcs(&mut self)
        requires
            old(self).wf(),
        ensures
            final(self).wf(),
            final(self)@ == old(self)@.opa_tcs(),
    {
        self.accumulator = match self.carry {
            false => 0b1001,
            true => 0b1010,
        };
        self.carry = false;
    }

    fn opa_stc(&mut self)
        requires
            old(self).wf(),
        ensures
            final(self).wf(),
            final(self)@ == old(self)@.opa_stc(),
    {
        self.carry = true;
    }

    fn opa_daa(&mut self)
        requires
            old(self).wf(),
        ensures
            final(self).wf(),
            final(self)@ == old(self)@.opa_daa(),
    {
        if self.carry || self.accumulator > 9 {
            self.accumulator += 6;
        }
        if self.accumulator > 15 {
            self.accumulator -= 16;
            self.carry = true;
        }
    }

    fn opa_kbp(&mut self)
        requires
            old(self).wf(),
        ensures
            final(self).wf(),
            final(self)@ == old(self)@.opa_kbp(),
    {
        self.accumulator = match self.accumulator {
            0b0000 => 0b0000,
            0b0001 => 0b0001,
            0b0010 => 0b0010,
            0b0100 => 0b0011,
            0b1000 => 0b0100,
            _ => 0b1111,
        };
    }

    fn opa_dcl(&mut self)
        requires
            old(self).wf(),
        ensures
            final(self).wf(),
            final(self)@ == old(self)@.opa_dcl(),
    {
        proof {
            lemma_low_three(self.accumulator);
        }
        self.command_control_register = self.accumulator & 0b111;
    }

    /// Stores the low four bits of a five-bit `sum` in the accumulator and
    /// its fifth bit in the carry.
    fn set_sum(&mut self, sum: u8)
        requires
            old(self).wf(),
            sum < 32,
        ensures
            final(self).wf(),
            final(self)@ == old(self)@.with_sum(sum as int),
    {
        proof {
            lemma_byte_halves(sum);
        }
        self.accumulator = sum & 0b1111;
        self.carry = sum > 15;
    }
}

} // verus!

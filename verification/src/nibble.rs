//! Four-bit arithmetic: how the masks and shifts used on nibbles, bytes and
//! addresses read as division and remainder.

use vstd::prelude::*;

verus! {

/// The upper four bits of a byte.
pub open spec fn high(word: u8) -> u8 {
    word / 16
}

/// The lower four bits of a byte.
pub open spec fn low(word: u8) -> u8 {
    word % 16
}

/// Whether bit `n` (0 is the least significant) of a nibble is set.
pub open spec fn bit(nibble: u8, n: nat) -> bool {
    if n == 0 {
        nibble % 2 == 1
    } else if n == 1 {
        nibble / 2 % 2 == 1
    } else if n == 2 {
        nibble / 4 % 2 == 1
    } else {
        nibble / 8 % 2 == 1
    }
}

/// The even member of the register pair that a nibble names.
pub open spec fn pair_even(nibble: u8) -> int {
    nibble - nibble % 2
}

/// The odd member of the register pair that a nibble names.
pub open spec fn pair_odd(nibble: u8) -> int {
    nibble - nibble % 2 + 1
}

/// Splits a byte into its upper and lower nibble.
pub fn split(word: u8) -> (halves: (u8, u8))
    ensures
        halves.0 == high(word),
        halves.1 == low(word),
{
    proof {
        lemma_byte_halves(word);
    }
    ((word >> 4) & 0b1111, word & 0b1111)
}

/// The halves of a byte, by shift and mask, are its quotient and remainder by 16.
pub proof fn lemma_byte_halves(word: u8)
    by (bit_vector)
    ensures
        (word >> 4) & 0b1111 == word / 16,
        word & 0b1111 == word % 16,
        word / 16 < 16,
        word % 16 < 16,
{
}

/// The upper and lower two bits of a latch are its quotient and remainder by 4.
pub proof fn lemma_latch_fields(latch: u8)
    by (bit_vector)
    ensures
        latch >> 2 == latch / 4,
        latch & 0b0011 == latch % 4,
{
}

/// Clearing the lowest bit of a nibble names the even register of its pair,
/// setting it the odd one.
pub proof fn lemma_pair_members(nibble: u8)
    by (bit_vector)
    requires
        nibble < 16,
    ensures
        nibble & 0b1110 == nibble - nibble % 2,
        nibble | 0b0001 == nibble - nibble % 2 + 1,
        nibble | 0b0001 < 16,
{
}

/// Testing a bit by mask is testing it by division.
pub proof fn lemma_bits(nibble: u8)
    by (bit_vector)
    ensures
        (nibble & 0b0001 == 0b0001) == (nibble % 2 == 1),
        (nibble & 0b0010 == 0b0010) == (nibble / 2 % 2 == 1),
        (nibble & 0b0100 == 0b0100) == (nibble / 4 % 2 == 1),
        (nibble & 0b1000 == 0b1000) == (nibble / 8 % 2 == 1),
        (nibble & 0b0001 == 0) == (nibble % 2 == 0),
{
}

/// The four-bit complement of a nibble is what it lacks to 15.
pub proof fn lemma_complement(nibble: u8)
    by (bit_vector)
    requires
        nibble < 16,
    ensures
        !nibble & 0b1111 == 15 - nibble,
{
}

/// The lower three bits are the remainder by 8.
pub proof fn lemma_low_three(nibble: u8)
    by (bit_vector)
    ensures
        nibble & 0b111 == nibble % 8,
{
}

/// Shifting a nibble by one bit doubles or halves it; its lowest bit is its
/// remainder by 2, and setting the highest bit of the half adds 8.
pub proof fn lemma_rotate(nibble: u8)
    by (bit_vector)
    requires
        nibble < 16,
    ensures
        nibble << 1 == nibble * 2,
        nibble >> 1 == nibble / 2,
        (nibble >> 1) | 0b1000 == nibble / 2 + 8,
        nibble & 1 == nibble % 2,
{
}

/// The page of an address is its quotient by 256.
pub proof fn lemma_page_number(address: u16)
    by (bit_vector)
    ensures
        address >> 8 == address / 256,
{
}

/// Joining a page and the two halves of an offset by shifts gives
/// `page * 256 + upper * 16 + lower`.
pub proof fn lemma_address(page: u8, upper: u8, lower: u8)
    by (bit_vector)
    requires
        page < 16,
        upper < 16,
        lower < 16,
    ensures
        ((page as u16) << 8) | ((upper as u16) << 4) | (lower as u16) == page * 256 + upper * 16
            + lower,
{
}

/// Keeping the lower twelve bits is taking the remainder by 4096.
pub proof fn lemma_wrap(address: u16)
    by (bit_vector)
    ensures
        address & 0xFFF == address % 4096,
{
}

} // verus!

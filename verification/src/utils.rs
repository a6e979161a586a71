//! Carry and borrow predicates shared by the arithmetic instructions.

use vstd::prelude::*;

verus! {

/// Adding the low nibbles carries out of bit 3.
pub open spec fn add_half_carry(target: u8, value: u8) -> bool {
    target % 16 + value % 16 > 15
}

/// Adding the two bytes carries out of bit 7.
pub open spec fn add_carry(target: u8, value: u8) -> bool {
    target + value > 0xFF
}

/// Adding the low twelve bits carries out of bit 11.
pub open spec fn add_half_carry16(target: u16, value: u16) -> bool {
    target % 0x1000 + value % 0x1000 > 0x0FFF
}

/// Adding the two words carries out of bit 15.
pub open spec fn add_carry16(target: u16, value: u16) -> bool {
    target + value > 0xFFFF
}

/// Subtracting the low nibbles borrows from bit 4.
pub open spec fn subtract_half_carry(target: u8, value: u8) -> bool {
    target % 16 < value % 16
}

/// Subtracting the bytes borrows from bit 8.
pub open spec fn subtract_carry(target: u8, value: u8) -> bool {
    target < value
}

/// Subtracting the low twelve bits borrows from bit 12.
pub open spec fn subtract_half_carry16(target: u16, value: u16) -> bool {
    target % 0x1000 < value % 0x1000
}

/// Subtracting the words borrows from bit 16.
pub open spec fn subtract_carry16(target: u16, value: u16) -> bool {
    target < value
}

pub fn is_add_half_carry(target: u8, value: u8) -> (r: bool)
    ensures
        r == add_half_carry(target, value),
{
    (target % 16) + (value % 16) > 15
}

pub fn is_add_carry(target: u8, value: u8) -> (r: bool)
    ensures
        r == add_carry(target, value),
{
    value > 0xFF - target
}

pub fn is_add_half_carry16(target: u16, value: u16) -> (r: bool)
    ensures
        r == add_half_carry16(target, value),
{
    (target % 0x1000) + (value % 0x1000) > 0x0FFF
}

pub fn is_add_carry16(target: u16, value: u16) -> (r: bool)
    ensures
        r == add_carry16(target, value),
{
    value > 0xFFFF - target
}

pub fn is_subtract_half_carry(target: u8, value: u8) -> (r: bool)
    ensures
        r == subtract_half_carry(target, value),
{
    target % 16 < value % 16
}

pub fn is_subtract_carry(target: u8, value: u8) -> (r: bool)
    ensures
        r == subtract_carry(target, value),
{
    target < value
}

pub fn is_subtract_half_carry16(target: u16, value: u16) -> (r: bool)
    ensures
        r == subtract_half_carry16(target, value),
{
    target % 0x1000 < value % 0x1000
}

pub fn is_subtract_carry16(target: u16, value: u16) -> (r: bool)
    ensures
        r == subtract_carry16(target, value),
{
    target < value
}

} // verus!

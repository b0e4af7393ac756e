//! The byte that an event reports for a scalar.
use vstd::prelude::*;

verus! {

/// The first byte of the UTF-8 encoding of `c`.
pub open spec fn utf8_first_byte(c: char) -> u8 {
    let v = c as u32;
    if v < 0x80 {
        v as u8
    } else if v < 0x800 {
        (0xc0 + v / 0x40) as u8
    } else if v < 0x10000 {
        (0xe0 + v / 0x1000) as u8
    } else {
        (0xf0 + v / 0x40000) as u8
    }
}

/// The byte that an event carries for the scalar `c`: the scalar itself when
/// it is below U+00A0 (C0, ASCII and C1), and otherwise the first byte of its
/// UTF-8 encoding.
pub open spec fn event_byte(c: char) -> u8 {
    if (c as u32) < 0xa0 {
        c as u32 as u8
    } else {
        utf8_first_byte(c)
    }
}

/// Relies on `u8char::u8char::from_char`, which lays out the UTF-8 encoding
/// of a `char`, and `u8char::u8char::first_byte`, which reads its first byte.
#[verifier::external_body]
fn first_byte_of(c: char) -> (r: u8)
    ensures
        r == utf8_first_byte(c),
{
    u8char::u8char::from_char(c).first_byte()
}

/// Returns the byte that an event carries for the scalar `c`.
pub fn scalar_event_byte(c: char) -> (r: u8)
    ensures
        r == event_byte(c),
{
    let v = c as u32;
    if v < 0xa0 {
        v as u8
    } else {
        first_byte_of(c)
    }
}

} // verus!

verus! {

/// The scalar type of the u8char crate, which Verus sees as opaque.
#[verifier::external_type_specification]
#[verifier::external_body]
pub struct ExU8char(u8char::u8char);

/// Relies on `u8char::u8char::to_char`, which decodes the scalar value that a
/// `u8char` holds; nothing is stated of which scalar that is.
pub assume_specification[ u8char::u8char::to_char ](c: u8char::u8char) -> char;

} // verus!

//! Byte order on the bus: every 16-bit value travels high byte first.

use vstd::prelude::*;

verus! {

/// The two bytes of a 16-bit value, high byte first.
pub open spec fn big_endian(value: u16) -> Seq<u8> {
    seq![(value / 256) as u8, (value % 256) as u8]
}

/// The bytes of a sequence of 16-bit values: two for each value, in the
/// order of the values, each value high byte first.
pub open spec fn big_endian_all(values: Seq<u16>) -> Seq<u8> {
    Seq::new(
        2 * values.len(),
        |i: int|
            if i % 2 == 0 {
                (values[i / 2] / 256) as u8
            } else {
                (values[i / 2] % 256) as u8
            },
    )
}

/// A value is recovered from its two bytes, so no two values share an
/// encoding.
pub proof fn big_endian_keeps_value(value: u16)
    ensures
        big_endian(value).len() == 2,
        big_endian(value)[0] * 256 + big_endian(value)[1] == value,
{
}

/// A sequence of one value encodes as that value does.
pub proof fn big_endian_all_of_one(value: u16)
    ensures
        big_endian_all(seq![value]) == big_endian(value),
{
}

/// Encodes one 16-bit value for the bus.
pub fn encode(value: u16) -> (bytes: Vec<u8>)
    ensures
        bytes@ == big_endian(value),
{
    let mut bytes: Vec<u8> = Vec::new();
    bytes.push((value / 256) as u8);
    bytes.push((value % 256) as u8);
    bytes
}

/// Encodes a sequence of 16-bit values for the bus.
pub fn encode_all(values: &[u16]) -> (bytes: Vec<u8>)
    ensures
        bytes@ == big_endian_all(values@),
{
    let mut bytes: Vec<u8> = Vec::new();
    let mut done: usize = 0;
    while done < values.len()
        invariant
            done <= values.len(),
            bytes@ == big_endian_all(values@.take(done as int)),
        decreases values.len() - done,
    {
        let value: u16 = values[done];
        bytes.push((value / 256) as u8);
        bytes.push((value % 256) as u8);
        done = done + 1;
    }
    bytes
}

} // verus!

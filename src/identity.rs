//! The device's serial number: the hash of its MAC address, in hex.
use vstd::prelude::*;

use crate::control::i2c::{le_bytes, u32_le_bytes};

verus! {

/// The value of `const_murmur3::murmur3_32` on `data` and `seed`.
pub uninterp spec fn murmur3_of(data: Seq<u8>, seed: u32) -> u32;

/// The ASCII character of a digit below 16, in lower case.
pub open spec fn hex_digit(n: int) -> u8 {
    if n < 10 {
        (48 + n) as u8
    } else {
        (87 + n) as u8
    }
}

/// Each byte as two lower-case hex digits, high digit first.
pub open spec fn hex_ascii(b: Seq<u8>) -> Seq<u8>
    decreases b.len(),
{
    if b.len() == 0 {
        Seq::empty()
    } else {
        seq![hex_digit(b[0] as int / 16), hex_digit(b[0] as int % 16)] + hex_ascii(b.drop_first())
    }
}

/// Relies on `const_murmur3::murmur3_32`, the 32-bit MurmurHash3 of the bytes.
#[verifier::external_body]
fn murmur3_32(data: &[u8], seed: u32) -> (r: u32)
    ensures
        r == murmur3_of(data@, seed),
{
    const_murmur3::murmur3_32(data, seed)
}

/// Relies on `hex::encode_to_slice`: it succeeds when the output is twice as
/// long as the input, and writes each byte as two lower-case hex digits.
#[verifier::external_body]
fn encode_hex(input: &[u8; 4], output: &mut [u8; 8]) -> (r: Result<(), ()>)
    ensures
        r is Ok,
        final(output)@ == hex_ascii(input@),
{
    hex::encode_to_slice(input, &mut output[..]).map_err(|_| ())
}

/// The serial number that a hash gives: its four little-endian bytes in hex.
pub fn serial_from_hash(hash: u32) -> (r: [u8; 8])
    ensures
        r@ == hex_ascii(le_bytes(hash)),
{
    let bytes = u32_le_bytes(hash);
    let mut buf = [0u8; 8];
    let _ = encode_hex(&bytes, &mut buf);
    buf
}

/// The serial number of a device with the MAC address `mac`.
pub fn serial_number(mac: &[u8]) -> (r: [u8; 8])
    ensures
        r@ == hex_ascii(le_bytes(murmur3_of(mac@, 0))),
{
    serial_from_hash(murmur3_32(mac, 0))
}

} // verus!

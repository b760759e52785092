//! Measurements as bytes on the host, by `bincode`.
use vstd::prelude::*;

use crate::bytes::u32_to_le;
use crate::measure::{Measure, MEASURE_LEN};

verus! {

/// `bincode::serde::encode_to_vec` with the standard configuration, on a pair of byte arrays. Pairs
/// and arrays have no prefix and a byte stands for itself, so the result is the bytes of the one
/// array and then of the other. Growing a vector, it does not fail.
#[verifier::external_body]
fn encode(first: [u8; 4], second: [u8; 4]) -> (r: Vec<u8>)
    ensures
        r@ == first@ + second@,
{
    bincode::serde::encode_to_vec((first, second), bincode::config::standard()).expect("encode")
}

/// `bincode::serde::decode_from_slice` with the standard configuration, into a pair of byte arrays:
/// the first eight bytes, where there are so many. What follows them is not looked at.
#[verifier::external_body]
fn decode(bytes: &[u8]) -> (r: Option<([u8; 4], [u8; 4])>)
    ensures
        match r {
            Some(pair) => bytes@.len() >= MEASURE_LEN && pair.0@ + pair.1@ == bytes@.subrange(0, 8),
            None => bytes@.len() < MEASURE_LEN,
        },
{
    bincode::serde::decode_from_slice(bytes, bincode::config::standard()).ok().map(|(pair, _)| pair)
}

/// The bytes of a measurement.
pub fn to_bytes(m: &Measure) -> (r: Vec<u8>)
    ensures
        r@ == m.bytes(),
{
    encode(u32_to_le(m.temperature_c), u32_to_le(m.humidity_rh))
}

/// The measurement at the start of some bytes, where there are enough of them.
pub fn from_bytes(b: &[u8]) -> (r: Option<Measure>)
    ensures
        r == Measure::decoded(b@),
        r == if b@.len() < MEASURE_LEN {
            None
        } else {
            Some(Measure::read(b@))
        },
{
    match decode(b) {
        Some((temperature, humidity)) => Some(Measure::from_le_bytes(temperature, humidity)),
        None => None,
    }
}

} // verus!

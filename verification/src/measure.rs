//! A measurement as it travels, and the bytes that it travels as.
use vstd::prelude::*;
use vstd::string::*;

use crate::bytes::u32_from_le;
use crate::text::push_upper_hex;

verus! {

/// A measurement. The numbers are single-precision floating-point ones, held as their IEEE 754 bit
/// patterns: degrees Celsius, and percent of relative humidity.
#[derive(Clone, Copy, Debug, PartialEq, Eq, Structural)]
pub struct Measure {
    pub temperature_c: u32,
    pub humidity_rh: u32,
}

/// How many bytes a measurement travels as.
pub const MEASURE_LEN: usize = 8;

impl Measure {
    /// The bytes of a measurement: both numbers, least significant byte first.
    pub open spec fn bytes(self) -> Seq<u8> {
        crate::bytes::le_bytes(self.temperature_c as int, 4) + crate::bytes::le_bytes(
            self.humidity_rh as int,
            4,
        )
    }

    /// The measurement at the start of some bytes, where there are enough of them.
    pub open spec fn decoded(bytes: Seq<u8>) -> Option<Measure> {
        if bytes.len() < MEASURE_LEN {
            None
        } else {
            Some(Measure::read(bytes))
        }
    }

    /// The measurement at the start of some bytes.
    pub open spec fn read(bytes: Seq<u8>) -> Measure {
        Measure {
            temperature_c: crate::bytes::le32(bytes[0], bytes[1], bytes[2], bytes[3]) as u32,
            humidity_rh: crate::bytes::le32(bytes[4], bytes[5], bytes[6], bytes[7]) as u32,
        }
    }
}

impl Measure {
    /// The measurement whose numbers have these bytes.
    pub fn from_le_bytes(temperature: [u8; 4], humidity: [u8; 4]) -> (r: Measure)
        ensures
            r == Measure::read(temperature@ + humidity@),
    {
        Measure {
            temperature_c: u32_from_le(
                temperature[0],
                temperature[1],
                temperature[2],
                temperature[3],
            ),
            humidity_rh: u32_from_le(humidity[0], humidity[1], humidity[2], humidity[3]),
        }
    }
}

/// Bytes as pairs of hexadecimal digits, each followed by a space.
pub open spec fn hex_text(bytes: Seq<u8>) -> Seq<char>
    decreases bytes.len(),
{
    if bytes.len() == 0 {
        seq![]
    } else {
        hex_text(bytes.drop_last()) + crate::text::upper_hex(bytes.last()) + " "@
    }
}

/// What a transmission of some bytes is shown as.
pub open spec fn shown_transmission(bytes: Seq<u8>) -> Seq<char> {
    "TX: "@ + hex_text(bytes)
}

/// What a transmission of some bytes is shown as.
pub fn transmission_text(bytes: &[u8]) -> (r: String)
    ensures
        r@ == shown_transmission(bytes@),
        r@ == "TX: "@ + hex_text(bytes@),
{
    let mut text = String::from_str("TX: ");
    for i in 0..bytes.len()
        invariant
            text@ == "TX: "@ + hex_text(bytes@.subrange(0, i as int)),
    {
        push_upper_hex(&mut text, bytes[i]);
        text.append(" ");
        proof {
            let next = bytes@.subrange(0, i + 1);
            assert(next.drop_last() =~= bytes@.subrange(0, i as int));
            assert(text@ =~= "TX: "@ + hex_text(next));
        }
    }
    assert(bytes@.subrange(0, bytes@.len() as int) =~= bytes@);
    text
}

/// A measurement is read back from its bytes as it was, whatever follows them.
pub proof fn law_measure_is_read_back(measure: Measure, rest: Seq<u8>)
    ensures
        measure.bytes().len() == MEASURE_LEN,
        Measure::read(measure.bytes() + rest) == measure,
{
    law_measure_has_its_layout(measure, rest);
}

/// Eight bytes are the bytes of the measurement that is read from them.
pub proof fn law_bytes_are_written_back(bytes: Seq<u8>)
    requires
        bytes.len() == MEASURE_LEN,
    ensures
        Measure::read(bytes).bytes() == bytes,
{
    crate::bytes::lemma_le32_bytes(bytes[0], bytes[1], bytes[2], bytes[3]);
    crate::bytes::lemma_le32_bytes(bytes[4], bytes[5], bytes[6], bytes[7]);
    assert(Measure::read(bytes).bytes() =~= bytes);
}

/// A measurement travels as the temperature and then the humidity, each with the least significant
/// byte first.
pub proof fn law_measure_has_its_layout(measure: Measure, rest: Seq<u8>)
    ensures
        ({
            let b = measure.bytes() + rest;
            &&& measure.bytes().len() == 8
            &&& b[0] + 0x100 * b[1] + 0x1_0000 * b[2] + 0x100_0000 * b[3] == measure.temperature_c
            &&& b[4] + 0x100 * b[5] + 0x1_0000 * b[6] + 0x100_0000 * b[7] == measure.humidity_rh
        }),
{
    crate::bytes::lemma_le_bytes_four(measure.temperature_c as int);
    crate::bytes::lemma_le_bytes_four(measure.humidity_rh as int);
}

/// Any eight bytes or more are read as a measurement: the first four as the temperature, the next
/// four as the humidity. Fewer are none.
pub proof fn law_enough_bytes_are_a_measure(bytes: Seq<u8>)
    ensures
        bytes.len() < 8 ==> Measure::decoded(bytes) is None,
        bytes.len() >= 8 ==> {
            &&& Measure::decoded(bytes) matches Some(measure)
            &&& measure.temperature_c == bytes[0] + 0x100 * bytes[1] + 0x1_0000 * bytes[2]
                + 0x100_0000 * bytes[3]
            &&& measure.humidity_rh == bytes[4] + 0x100 * bytes[5] + 0x1_0000 * bytes[6]
                + 0x100_0000 * bytes[7]
        },
{
}

/// Bytes are shown in order, each as its two uppercase digits and a blank.
pub proof fn law_bytes_are_shown_in_order(bytes: Seq<u8>)
    ensures
        hex_text(bytes).len() == 3 * bytes.len(),
        forall|i: int|
            0 <= i < bytes.len() ==> hex_text(bytes).subrange(3 * i, 3 * i + 3)
                == crate::text::upper_hex(#[trigger] bytes[i]).push(' '),
    decreases bytes.len(),
{
    if bytes.len() > 0 {
        let front = bytes.drop_last();
        let n = front.len() as int;
        law_bytes_are_shown_in_order(front);
        reveal_strlit(" ");
        assert forall|i: int| 0 <= i < bytes.len() implies hex_text(bytes).subrange(3 * i, 3 * i + 3)
            == crate::text::upper_hex(#[trigger] bytes[i]).push(' ') by {
            if i < n {
                assert(front[i] == bytes[i]);
                assert(hex_text(bytes).subrange(3 * i, 3 * i + 3) =~= hex_text(front).subrange(
                    3 * i,
                    3 * i + 3,
                ));
            } else {
                assert(hex_text(bytes).subrange(3 * i, 3 * i + 3) =~= crate::text::upper_hex(
                    bytes[i],
                ).push(' '));
            }
        }
    }
}

/// A transmission is shown as "TX: " and all of its bytes.
pub proof fn law_transmission_is_shown_whole(bytes: Seq<u8>)
    ensures
        shown_transmission(bytes).len() == 4 + 3 * bytes.len(),
        shown_transmission(bytes).subrange(0, 4) == "TX: "@,
        shown_transmission(bytes).subrange(4, (4 + 3 * bytes.len()) as int) == hex_text(bytes),
{
    reveal_strlit("TX: ");
    law_bytes_are_shown_in_order(bytes);
    let shown = shown_transmission(bytes);
    assert(shown.subrange(0, 4) =~= "TX: "@);
    assert(shown.subrange(4, (4 + 3 * bytes.len()) as int) =~= hex_text(bytes));
}

} // verus!

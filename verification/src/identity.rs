//! Addresses and keys of the radio, the UUID that a build of the firmware gets, and the sign of life.
use vstd::prelude::*;

use crate::text::{push_decimal, push_hex};

verus! {

/// Identity root of the radio.
pub const BLE_CFG_IRK: [u8; 16] = [
    0x12, 0x34, 0x56, 0x78, 0x9a, 0xbc, 0xde, 0xf0, 0x12, 0x34, 0x56, 0x78, 0x9a, 0xbc, 0xde, 0xf0,
];

/// Encryption root of the radio.
pub const BLE_CFG_ERK: [u8; 16] = [
    0xfe, 0xdc, 0xba, 0x09, 0x87, 0x65, 0x43, 0x21, 0xfe, 0xdc, 0xba, 0x09, 0x87, 0x65, 0x43, 0x21,
];

fn low_bytes(uid64: u64) -> (r: (u8, u8, u8))
    ensures
        r.0 == uid64 % 0x100,
        r.1 == uid64 / 0x100 % 0x100,
        r.2 == uid64 / 0x1_0000 % 0x100,
{
    (
        (uid64 % 0x100) as u8,
        (uid64 / 0x100 % 0x100) as u8,
        (uid64 / 0x1_0000 % 0x100) as u8,
    )
}

/// The public address of the radio.
pub open spec fn public_address(uid64: u64, device_type_id: u8, st_company_id: u32) -> Seq<u8> {
    seq![
        (uid64 % 0x100) as u8,
        (uid64 / 0x100 % 0x100) as u8,
        (uid64 / 0x1_0000 % 0x100) as u8,
        device_type_id,
        (st_company_id % 0x100) as u8,
        (st_company_id / 0x100 % 0x100) as u8,
    ]
}

/// The random address of the radio.
pub open spec fn random_address(uid64: u64) -> Seq<u8> {
    seq![
        (uid64 % 0x100) as u8,
        (uid64 / 0x100 % 0x100) as u8,
        (uid64 / 0x1_0000 % 0x100) as u8,
        0,
        0x6e,
        0xed,
    ]
}

/// The public address of the radio, least significant byte first: the low bytes of the chip's
/// number, the type of the device, and the company.
pub fn get_bd_addr(uid64: u64, device_type_id: u8, st_company_id: u32) -> (r: [u8; 6])
    ensures
        r@ == public_address(uid64, device_type_id, st_company_id),
        r@[0] == uid64 % 0x100,
        r@[1] == uid64 / 0x100 % 0x100,
        r@[2] == uid64 / 0x1_0000 % 0x100,
        r@[3] == device_type_id,
        r@[4] == st_company_id % 0x100,
        r@[5] == st_company_id / 0x100 % 0x100,
        r@[0] + 0x100 * r@[1] + 0x1_0000 * r@[2] == uid64 % 0x100_0000,
        r@[4] + 0x100 * r@[5] == st_company_id % 0x1_0000,
{
    let (low, middle, high) = low_bytes(uid64);
    [
        low,
        middle,
        high,
        device_type_id,
        (st_company_id % 0x100) as u8,
        (st_company_id / 0x100 % 0x100) as u8,
    ]
}

/// The random address of the radio, least significant byte first: the low bytes of the chip's
/// number, and fixed bytes above them.
pub fn get_random_addr(uid64: u64) -> (r: [u8; 6])
    ensures
        r@ == random_address(uid64),
        r@[0] == uid64 % 0x100,
        r@[1] == uid64 / 0x100 % 0x100,
        r@[2] == uid64 / 0x1_0000 % 0x100,
        r@[3] == 0,
        r@[4] == 0x6e,
        r@[5] == 0xed,
        r@[0] + 0x100 * r@[1] + 0x1_0000 * r@[2] == uid64 % 0x100_0000,
{
    let (low, middle, high) = low_bytes(uid64);
    [low, middle, high, 0, 0x6e, 0xed]
}

/// The identity root of the radio.
pub fn get_irk() -> (r: [u8; 16])
    ensures
        r == BLE_CFG_IRK,
{
    BLE_CFG_IRK
}

/// The encryption root of the radio.
pub fn get_erk() -> (r: [u8; 16])
    ensures
        r == BLE_CFG_ERK,
{
    BLE_CFG_ERK
}

/// The `index`-th byte of the UUID made of `random`: byte 6 carries the version, 4, in its upper
/// half, and byte 8 the variant in its two upper bits.
pub open spec fn uuid_byte(random: Seq<u8>, index: int) -> u8 {
    if index == 6 {
        (0x40 + random[6] % 0x10) as u8
    } else if index == 8 {
        (0x80 + random[8] % 0x40) as u8
    } else {
        random[index]
    }
}

/// A dash comes before these bytes.
pub open spec fn dash_before(index: int) -> bool {
    index == 4 || index == 6 || index == 8 || index == 10
}

/// The text of the first `count` bytes of the UUID.
pub open spec fn uuid_text(random: Seq<u8>, count: nat) -> Seq<char>
    decreases count,
{
    if count == 0 {
        seq![]
    } else {
        let front = uuid_text(random, (count - 1) as nat);
        let digits = crate::text::hex(uuid_byte(random, count - 1));
        if dash_before(count - 1) {
            front + "-"@ + digits
        } else {
            front + digits
        }
    }
}

/// A version 4 UUID in lower case, made of random bytes.
pub fn generate_uuid_v4(random: &[u8; 16]) -> (r: String)
    ensures
        r@ == uuid_text(random@, 16),
        r@.len() == 36,
{
    let mut bytes = *random;
    bytes[6] = 0x40 + random[6] % 0x10;
    bytes[8] = 0x80 + random[8] % 0x40;
    let mut text = String::new();
    for i in 0..16usize
        invariant
            forall|j: int| 0 <= j < 16 ==> bytes@[j] == uuid_byte(random@, j),
            text@ == uuid_text(random@, i as nat),
    {
        if i == 4 || i == 6 || i == 8 || i == 10 {
            text.append("-");
        }
        push_hex(&mut text, bytes[i]);
    }
    proof {
        law_uuid_has_its_shape(random@);
    }
    text
}

/// Characters before the `count`-th byte of the text of a UUID, and before its dash.
pub open spec fn uuid_offset(count: int) -> int {
    2 * count + if count <= 4 {
        0int
    } else if count <= 6 {
        1
    } else if count <= 8 {
        2
    } else if count <= 10 {
        3
    } else {
        4
    }
}

pub open spec fn is_lower_hex_digit(c: char) -> bool {
    '0' <= c <= '9' || 'a' <= c <= 'f'
}

proof fn lemma_uuid_text_layout(random: Seq<u8>, count: nat)
    requires
        count <= 16,
    ensures
        uuid_text(random, count).len() == uuid_offset(count as int),
        forall|i: int|
            #![trigger uuid_byte(random, i)]
            0 <= i < count ==> {
                let at = uuid_offset(i) + if dash_before(i) {
                    1int
                } else {
                    0
                };
                let digits = crate::text::hex(uuid_byte(random, i));
                &&& uuid_text(random, count)[at] == digits[0]
                &&& uuid_text(random, count)[at + 1] == digits[1]
                &&& dash_before(i) ==> uuid_text(random, count)[uuid_offset(i)] == '-'
            },
    decreases count,
{
    reveal_strlit("-");
    if count > 0 {
        lemma_uuid_text_layout(random, (count - 1) as nat);
    }
}

/// A UUID is 36 characters: groups of 8, 4, 4, 4 and 12 lowercase hexadecimal digits with dashes
/// between them. The third group starts with the version, 4, and the fourth with the variant: 8, 9,
/// a or b.
pub proof fn law_uuid_has_its_shape(random: Seq<u8>)
    requires
        random.len() == 16,
    ensures
        uuid_text(random, 16).len() == 36,
        forall|i: int|
            0 <= i < 36 ==> if i == 8 || i == 13 || i == 18 || i == 23 {
                uuid_text(random, 16)[i] == '-'
            } else {
                is_lower_hex_digit(#[trigger] uuid_text(random, 16)[i])
            },
        uuid_text(random, 16)[14] == '4',
        ({
            let variant = uuid_text(random, 16)[19];
            variant == '8' || variant == '9' || variant == 'a' || variant == 'b'
        }),
{
    lemma_uuid_text_layout(random, 16);
    let t = uuid_text(random, 16);
    assert(uuid_byte(random, 0) == random[0]);
    assert(uuid_byte(random, 1) == random[1]);
    assert(uuid_byte(random, 2) == random[2]);
    assert(uuid_byte(random, 3) == random[3]);
    assert(uuid_byte(random, 4) == random[4]);
    assert(uuid_byte(random, 5) == random[5]);
    assert(uuid_byte(random, 6) == 0x40 + random[6] % 0x10);
    assert(uuid_byte(random, 7) == random[7]);
    assert(uuid_byte(random, 8) == 0x80 + random[8] % 0x40);
    assert(uuid_byte(random, 9) == random[9]);
    assert(uuid_byte(random, 10) == random[10]);
    assert(uuid_byte(random, 11) == random[11]);
    assert(uuid_byte(random, 12) == random[12]);
    assert(uuid_byte(random, 13) == random[13]);
    assert(uuid_byte(random, 14) == random[14]);
    assert(uuid_byte(random, 15) == random[15]);
}

/// The count of the sign of life that follows.
pub open spec fn beat_after(count: u32) -> u32 {
    ((count + 1) % 0x1_0000_0000) as u32
}

/// The log message of the `count`-th sign of life.
pub open spec fn heartbeat_text(count: u32, uptime_ms: u64) -> Seq<char> {
    "[hb  ] beat #"@ + crate::text::decimal(count as nat) + " uptime_ms="@ + crate::text::decimal(
        uptime_ms as nat,
    )
}

/// The sign of life counts up, and starts again at zero.
pub fn next_beat(count: u32) -> (r: u32)
    ensures
        r == beat_after(count),
        r == (count + 1) % 0x1_0000_0000,
{
    count.wrapping_add(1)
}

/// The log message of the `count`-th sign of life.
pub fn heartbeat(count: u32, uptime_ms: u64) -> (r: String)
    ensures
        r@ == heartbeat_text(count, uptime_ms),
        r@ == "[hb  ] beat #"@ + crate::text::decimal(count as nat) + " uptime_ms="@
            + crate::text::decimal(uptime_ms as nat),
{
    let mut text = String::from_str("[hb  ] beat #");
    push_decimal(&mut text, count as u64);
    text.append(" uptime_ms=");
    push_decimal(&mut text, uptime_ms);
    text
}

/// A UUID shows its random bytes in order, two digits each. Only the version takes the place of the
/// upper half of byte 6, and the variant that of the two upper bits of byte 8.
pub proof fn law_uuid_shows_its_random_bytes(random: Seq<u8>, index: int)
    requires
        random.len() == 16,
        0 <= index < 16,
    ensures
        ({
            let dashes = if index < 4 {
                0int
            } else if index < 6 {
                1
            } else if index < 8 {
                2
            } else if index < 10 {
                3
            } else {
                4
            };
            let at = 2 * index + dashes;
            let text = uuid_text(random, 16);
            let shown = crate::text::digit_value(text[at]) * 16 + crate::text::digit_value(
                text[at + 1],
            );
            &&& index == 6 ==> shown / 16 == 4 && shown % 16 == random[6] % 16
            &&& index == 8 ==> shown / 64 == 2 && shown % 64 == random[8] % 64
            &&& index != 6 && index != 8 ==> shown == random[index]
        }),
{
    lemma_uuid_text_layout(random, 16);
    let byte = uuid_byte(random, index);
    crate::text::law_hex_is_read_back(byte);
}

/// Least significant byte first, both addresses carry the low 24 bits of the chip's number. Above them
/// stand the type of the device and the low 16 bits of the company, or fixed bytes.
pub proof fn law_addresses_carry_the_number_of_the_chip(
    uid64: u64,
    device_type_id: u8,
    st_company_id: u32,
)
    ensures
        ({
            let a = public_address(uid64, device_type_id, st_company_id);
            let b = random_address(uid64);
            &&& a.len() == 6 && b.len() == 6
            &&& a[0] + 0x100 * a[1] + 0x1_0000 * a[2] == uid64 % 0x100_0000
            &&& a[3] == device_type_id
            &&& a[4] + 0x100 * a[5] == st_company_id % 0x1_0000
            &&& b.subrange(0, 3) == a.subrange(0, 3)
            &&& b.subrange(3, 6) == seq![0u8, 0x6e, 0xed]
        }),
{
    let a = public_address(uid64, device_type_id, st_company_id);
    let b = random_address(uid64);
    assert(b.subrange(0, 3) =~= a.subrange(0, 3));
    assert(b.subrange(3, 6) =~= seq![0u8, 0x6e, 0xed]);
}

/// The sign of life counts up by one, from the largest count to zero, and its message shows the count
/// and the uptime.
pub proof fn law_sign_of_life_counts_up(count: u32, uptime_ms: u64)
    ensures
        count < u32::MAX ==> beat_after(count) == count + 1,
        count == u32::MAX ==> beat_after(count) == 0,
        heartbeat_text(count, uptime_ms) == "[hb  ] beat #"@ + crate::text::decimal(count as nat)
            + " uptime_ms="@ + crate::text::decimal(uptime_ms as nat),
{
}

/// The roots of the radio are two different keys, each a pattern of eight bytes that is repeated.
pub proof fn law_roots_of_the_radio()
    ensures
        BLE_CFG_IRK@.subrange(0, 8) == seq![0x12u8, 0x34, 0x56, 0x78, 0x9a, 0xbc, 0xde, 0xf0],
        BLE_CFG_IRK@.subrange(8, 16) == BLE_CFG_IRK@.subrange(0, 8),
        BLE_CFG_ERK@.subrange(0, 8) == seq![0xfeu8, 0xdc, 0xba, 0x09, 0x87, 0x65, 0x43, 0x21],
        BLE_CFG_ERK@.subrange(8, 16) == BLE_CFG_ERK@.subrange(0, 8),
{
    assert(BLE_CFG_IRK@.subrange(0, 8) =~= seq![
        0x12u8,
        0x34,
        0x56,
        0x78,
        0x9a,
        0xbc,
        0xde,
        0xf0,
    ]);
    assert(BLE_CFG_IRK@.subrange(8, 16) =~= BLE_CFG_IRK@.subrange(0, 8));
    assert(BLE_CFG_ERK@.subrange(0, 8) =~= seq![
        0xfeu8,
        0xdc,
        0xba,
        0x09,
        0x87,
        0x65,
        0x43,
        0x21,
    ]);
    assert(BLE_CFG_ERK@.subrange(8, 16) =~= BLE_CFG_ERK@.subrange(0, 8));
}

} // verus!

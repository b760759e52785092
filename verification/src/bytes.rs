//! Fixed-width integers as byte strings, and comparison of byte strings.
use vstd::prelude::*;

verus! {

/// The number that two bytes stand for, least significant byte first.
pub open spec fn le16(b0: u8, b1: u8) -> int {
    b0 + 0x100 * b1
}

/// The number that four bytes stand for, least significant byte first.
pub open spec fn le32(b0: u8, b1: u8, b2: u8, b3: u8) -> int {
    b0 + 0x100 * b1 + 0x1_0000 * b2 + 0x100_0000 * b3
}

/// `x` of the range `0..2 * half` read as a two's complement number.
pub open spec fn signed(x: int, half: int) -> int {
    if x < half {
        x
    } else {
        x - 2 * half
    }
}

/// The bit pattern of the two's complement number `x`, read as an unsigned number below
/// `2 * half`.
pub open spec fn unsigned(x: int, half: int) -> int {
    if x < 0 {
        x + 2 * half
    } else {
        x
    }
}

/// The `n` bytes of `x`, least significant byte first.
pub open spec fn le_bytes(x: int, n: nat) -> Seq<u8>
    decreases n,
{
    if n == 0 {
        Seq::empty()
    } else {
        seq![(x % 0x100) as u8] + le_bytes(x / 0x100, (n - 1) as nat)
    }
}

/// The `n` bytes of `x`, most significant byte first.
pub open spec fn be_bytes(x: int, n: nat) -> Seq<u8> {
    le_bytes(x, n).reverse()
}

pub fn u16_from_le(b0: u8, b1: u8) -> (r: u16)
    ensures
        r == le16(b0, b1),
{
    b0 as u16 + 0x100 * (b1 as u16)
}

pub fn i16_from_le(b0: u8, b1: u8) -> (r: i16)
    ensures
        r == signed(le16(b0, b1), 0x8000),
{
    let raw = b0 as i32 + 0x100 * (b1 as i32);
    if raw < 0x8000 {
        raw as i16
    } else {
        (raw - 0x1_0000) as i16
    }
}

pub fn i8_from_byte(b: u8) -> (r: i8)
    ensures
        r == signed(b as int, 0x80),
{
    if b < 0x80 {
        b as i8
    } else {
        (b as i16 - 0x100) as i8
    }
}

pub fn u32_from_le(b0: u8, b1: u8, b2: u8, b3: u8) -> (r: u32)
    ensures
        r == le32(b0, b1, b2, b3),
{
    b0 as u32 + 0x100 * (b1 as u32) + 0x1_0000 * (b2 as u32) + 0x100_0000 * (b3 as u32)
}

pub fn u32_to_le(x: u32) -> (r: [u8; 4])
    ensures
        r@ == le_bytes(x as int, 4),
        le32(r@[0], r@[1], r@[2], r@[3]) == x,
{
    let b0 = (x % 0x100) as u8;
    let b1 = (x / 0x100 % 0x100) as u8;
    let b2 = (x / 0x1_0000 % 0x100) as u8;
    let b3 = (x / 0x100_0000) as u8;
    proof {
        lemma_le_bytes_four(x as int);
    }
    [b0, b1, b2, b3]
}

pub fn u16_to_be(x: u16) -> (r: Vec<u8>)
    ensures
        r@ == be_bytes(x as int, 2),
        r@.len() == 2,
        le16(r@[1], r@[0]) == x,
{
    let hi = (x / 0x100) as u8;
    let lo = (x % 0x100) as u8;
    proof {
        lemma_le_bytes_two(x as int);
    }
    let mut out: Vec<u8> = Vec::new();
    out.push(hi);
    out.push(lo);
    assert(out@ =~= be_bytes(x as int, 2));
    out
}

pub fn i16_to_be(x: i16) -> (r: Vec<u8>)
    ensures
        r@ == be_bytes(unsigned(x as int, 0x8000), 2),
        r@.len() == 2,
        signed(le16(r@[1], r@[0]), 0x8000) == x,
{
    let raw: u16 = if x < 0 {
        (x as i32 + 0x1_0000) as u16
    } else {
        x as u16
    };
    u16_to_be(raw)
}

pub fn u32_to_be(x: u32) -> (r: Vec<u8>)
    ensures
        r@ == be_bytes(x as int, 4),
        r@.len() == 4,
        le32(r@[3], r@[2], r@[1], r@[0]) == x,
{
    let le = u32_to_le(x);
    let mut out: Vec<u8> = Vec::new();
    out.push(le[3]);
    out.push(le[2]);
    out.push(le[1]);
    out.push(le[0]);
    proof {
        lemma_le_bytes_four(x as int);
    }
    assert(out@ =~= be_bytes(x as int, 4));
    out
}

proof fn lemma_le_bytes_two(x: int)
    requires
        0 <= x < 0x1_0000,
    ensures
        le_bytes(x, 2) =~= seq![(x % 0x100) as u8, (x / 0x100) as u8],
{
    reveal_with_fuel(le_bytes, 3);
}

/// The four bytes of a 32-bit number.
pub proof fn lemma_le_bytes_four(x: int)
    requires
        0 <= x < 0x1_0000_0000,
    ensures
        le_bytes(x, 4) =~= seq![
            (x % 0x100) as u8,
            (x / 0x100 % 0x100) as u8,
            (x / 0x1_0000 % 0x100) as u8,
            (x / 0x100_0000) as u8,
        ],
{
    reveal_with_fuel(le_bytes, 5);
    assert(x / 0x100 / 0x100 == x / 0x1_0000);
    assert(x / 0x100 / 0x100 / 0x100 == x / 0x100_0000);
}

/// Four bytes are the bytes of the number they stand for.
pub proof fn lemma_le32_bytes(b0: u8, b1: u8, b2: u8, b3: u8)
    ensures
        le_bytes(le32(b0, b1, b2, b3), 4) =~= seq![b0, b1, b2, b3],
{
    reveal_with_fuel(le_bytes, 5);
    let x0 = le32(b0, b1, b2, b3);
    let x1 = b1 + 0x100 * b2 + 0x1_0000 * b3;
    let x2 = b2 + 0x100 * b3;
    assert(x0 == b0 + 0x100 * x1);
    assert(x0 % 0x100 == b0 && x0 / 0x100 == x1);
    assert(x1 % 0x100 == b1 && x1 / 0x100 == x2);
    assert(x2 % 0x100 == b2 && x2 / 0x100 == b3);
}

/// Whether the byte string `a` starts with the byte string `prefix`.
pub fn starts_with(a: &[u8], prefix: &[u8]) -> (r: bool)
    ensures
        r == (a@.len() >= prefix@.len() && a@.subrange(0, prefix@.len() as int) == prefix@),
{
    if a.len() < prefix.len() {
        return false;
    }
    for i in 0..prefix.len()
        invariant
            a@.len() >= prefix@.len(),
            forall|j: int| 0 <= j < i ==> a@[j] == prefix@[j],
    {
        if a[i] != prefix[i] {
            assert(a@.subrange(0, prefix@.len() as int)[i as int] != prefix@[i as int]);
            return false;
        }
    }
    assert(a@.subrange(0, prefix@.len() as int) =~= prefix@);
    true
}

/// Whether two byte strings are the same.
pub fn same_bytes(a: &[u8], b: &[u8]) -> (r: bool)
    ensures
        r == (a@ == b@),
{
    if a.len() != b.len() {
        return false;
    }
    let r = starts_with(a, b);
    assert(a@.subrange(0, b@.len() as int) =~= a@);
    r
}

pub fn copy_bytes(a: &[u8]) -> (r: Vec<u8>)
    ensures
        r@ == a@,
{
    let mut out: Vec<u8> = Vec::new();
    for i in 0..a.len()
        invariant
            out@ =~= a@.subrange(0, i as int),
    {
        out.push(a[i]);
    }
    assert(a@.subrange(0, a@.len() as int) =~= a@);
    out
}

/// Any number of a field is what its bytes stand for, the least significant byte first.
pub proof fn law_bytes_stand_for_their_number(x: u16, y: u32)
    ensures
        le16((x % 0x100) as u8, (x / 0x100) as u8) == x,
        le32(
            (y % 0x100) as u8,
            (y / 0x100 % 0x100) as u8,
            (y / 0x1_0000 % 0x100) as u8,
            (y / 0x100_0000) as u8,
        ) == y,
{
}

/// Bytes written with the least significant one first are the digits of the number to base 256, and
/// the same bytes in the other order have the most significant one first.
pub proof fn law_bytes_are_digits(x: int)
    ensures
        0 <= x < 0x1_0000 ==> {
            &&& le_bytes(x, 2).len() == 2
            &&& be_bytes(x, 2).len() == 2
            &&& le_bytes(x, 2)[0] + 0x100 * le_bytes(x, 2)[1] == x
            &&& be_bytes(x, 2)[1] + 0x100 * be_bytes(x, 2)[0] == x
        },
        0 <= x < 0x1_0000_0000 ==> {
            let le = le_bytes(x, 4);
            let be = be_bytes(x, 4);
            &&& le.len() == 4
            &&& be.len() == 4
            &&& le[0] + 0x100 * le[1] + 0x1_0000 * le[2] + 0x100_0000 * le[3] == x
            &&& be[3] + 0x100 * be[2] + 0x1_0000 * be[1] + 0x100_0000 * be[0] == x
        },
{
    if 0 <= x < 0x1_0000 {
        lemma_le_bytes_two(x);
    }
    if 0 <= x < 0x1_0000_0000 {
        lemma_le_bytes_four(x);
    }
}

/// Two's complement keeps numbers that are not negative, moves the others up by twice the half, and
/// is undone by reading it.
pub proof fn law_twos_complement_is_undone(x: int, half: int)
    requires
        -half <= x < half,
    ensures
        0 <= unsigned(x, half) < 2 * half,
        unsigned(x, half) == x || unsigned(x, half) == x + 2 * half,
        signed(unsigned(x, half), half) == x,
        x >= 0 ==> signed(x, half) == x,
        x < 0 ==> signed(x + 2 * half, half) == x,
{
}

} // verus!

//! Numbers as text.
use vstd::prelude::*;
use vstd::string::*;

verus! {

/// The character of a decimal or lowercase hexadecimal digit.
pub open spec fn digit_char(d: int) -> char {
    if d < 10 {
        ('0' as int + d) as char
    } else {
        ('a' as int + d - 10) as char
    }
}

/// The character of a decimal or uppercase hexadecimal digit.
pub open spec fn upper_digit_char(d: int) -> char {
    if d < 10 {
        ('0' as int + d) as char
    } else {
        ('A' as int + d - 10) as char
    }
}

/// The decimal digits of `n`, without leading zeros.
pub open spec fn decimal(n: nat) -> Seq<char>
    decreases n,
{
    if n < 10 {
        seq![digit_char(n as int)]
    } else {
        decimal(n / 10).push(digit_char((n % 10) as int))
    }
}

/// The last two decimal digits of `n`.
pub open spec fn two_digits(n: int) -> Seq<char> {
    seq![digit_char(n / 10 % 10), digit_char(n % 10)]
}

/// The two lowercase hexadecimal digits of a byte.
pub open spec fn hex(b: u8) -> Seq<char> {
    seq![digit_char(b as int / 16), digit_char(b as int % 16)]
}

/// The two uppercase hexadecimal digits of a byte.
pub open spec fn upper_hex(b: u8) -> Seq<char> {
    seq![upper_digit_char(b as int / 16), upper_digit_char(b as int % 16)]
}

/// `s` moved to the right end of a column of `width` characters.
pub open spec fn right_aligned(s: Seq<char>, width: nat) -> Seq<char> {
    if s.len() >= width {
        s
    } else {
        Seq::new((width - s.len()) as nat, |i: int| ' ') + s
    }
}

/// Sign of a number in a log line.
pub open spec fn sign_text(x: int) -> Seq<char> {
    if x < 0 {
        "-"@
    } else {
        ""@
    }
}

pub open spec fn magnitude(x: int) -> int {
    if x < 0 {
        -x
    } else {
        x
    }
}

fn digit_text(d: u8) -> (r: &'static str)
    requires
        d < 16,
    ensures
        r@ == seq![digit_char(d as int)],
{
    proof {
        reveal_strlit("0");
        reveal_strlit("1");
        reveal_strlit("2");
        reveal_strlit("3");
        reveal_strlit("4");
        reveal_strlit("5");
        reveal_strlit("6");
        reveal_strlit("7");
        reveal_strlit("8");
        reveal_strlit("9");
        reveal_strlit("a");
        reveal_strlit("b");
        reveal_strlit("c");
        reveal_strlit("d");
        reveal_strlit("e");
        reveal_strlit("f");
    }
    match d {
        0 => "0",
        1 => "1",
        2 => "2",
        3 => "3",
        4 => "4",
        5 => "5",
        6 => "6",
        7 => "7",
        8 => "8",
        9 => "9",
        10 => "a",
        11 => "b",
        12 => "c",
        13 => "d",
        14 => "e",
        _ => "f",
    }
}

fn upper_digit_text(d: u8) -> (r: &'static str)
    requires
        d < 16,
    ensures
        r@ == seq![upper_digit_char(d as int)],
{
    proof {
        reveal_strlit("A");
        reveal_strlit("B");
        reveal_strlit("C");
        reveal_strlit("D");
        reveal_strlit("E");
        reveal_strlit("F");
    }
    match d {
        10 => "A",
        11 => "B",
        12 => "C",
        13 => "D",
        14 => "E",
        15 => "F",
        _ => digit_text(d),
    }
}

/// Appends the decimal digits of `n`.
pub fn push_decimal(text: &mut String, n: u64)
    ensures
        final(text)@ == old(text)@ + decimal(n as nat),
    decreases n,
{
    if n >= 10 {
        push_decimal(text, n / 10);
    }
    text.append(digit_text((n % 10) as u8));
    assert(text@ =~= old(text)@ + decimal(n as nat));
}

/// Appends the last two decimal digits of `n`.
pub fn push_two_digits(text: &mut String, n: u64)
    ensures
        final(text)@ == old(text)@ + two_digits(n as int),
{
    text.append(digit_text((n / 10 % 10) as u8));
    text.append(digit_text((n % 10) as u8));
    assert(text@ =~= old(text)@ + two_digits(n as int));
}

/// Appends a byte as two lowercase hexadecimal digits.
pub fn push_hex(text: &mut String, b: u8)
    ensures
        final(text)@ == old(text)@ + hex(b),
{
    text.append(digit_text(b / 16));
    text.append(digit_text(b % 16));
    assert(text@ =~= old(text)@ + hex(b));
}

/// Appends a byte as two uppercase hexadecimal digits.
pub fn push_upper_hex(text: &mut String, b: u8)
    ensures
        final(text)@ == old(text)@ + upper_hex(b),
{
    text.append(upper_digit_text(b / 16));
    text.append(upper_digit_text(b % 16));
    assert(text@ =~= old(text)@ + upper_hex(b));
}

/// The text that stands before a log message: the uptime `ms` in a column of ten characters.
pub open spec fn log_prefix(ms: nat) -> Seq<char> {
    "["@ + right_aligned(decimal(ms), 10) + " ms] "@
}

/// One line of the log: the uptime, the message and the line end.
pub open spec fn line_text(ms: nat, message: Seq<char>) -> Seq<char> {
    log_prefix(ms) + message + "\r\n"@
}

/// One line of the log: the uptime, the message and the line end.
pub fn log_line(ms: u64, message: &str) -> (r: String)
    ensures
        r@ == line_text(ms as nat, message@),
        r@ == log_prefix(ms as nat) + message@ + "\r\n"@,
{
    let mut number = String::new();
    push_decimal(&mut number, ms);
    let width = number.as_str().unicode_len();
    assert(number@ =~= decimal(ms as nat));
    let mut text = String::from_str("[");
    let mut column: usize = width;
    while column < 10
        invariant
            width == number@.len(),
            width <= column,
            width <= 10 ==> column <= 10,
            width > 10 ==> column == width,
            text@ =~= "["@ + Seq::new((column - width) as nat, |i: int| ' '),
        decreases 10 - column,
    {
        text.append(" ");
        proof {
            reveal_strlit(" ");
        }
        column = column + 1;
    }
    text.append(number.as_str());
    assert(text@ =~= "["@ + right_aligned(decimal(ms as nat), 10));
    text.append(" ms] ");
    text.append(message);
    text.append("\r\n");
    text
}

/// The value of a digit of either case.
pub open spec fn digit_value(c: char) -> int {
    if '0' <= c <= '9' {
        c as int - '0' as int
    } else if 'a' <= c <= 'f' {
        c as int - 'a' as int + 10
    } else {
        c as int - 'A' as int + 10
    }
}

/// The number that some digits are read as.
pub open spec fn number_of(digits: Seq<char>, base: int) -> int
    decreases digits.len(),
{
    if digits.len() == 0 {
        0
    } else {
        number_of(digits.drop_last(), base) * base + digit_value(digits.last())
    }
}

/// A number is read back from its decimal digits. There are only such digits, and no zero leads
/// them but the one that stands for zero.
pub proof fn law_decimal_is_read_back(n: nat)
    ensures
        number_of(decimal(n), 10) == n,
        decimal(n).len() >= 1,
        forall|i: int| 0 <= i < decimal(n).len() ==> '0' <= #[trigger] decimal(n)[i] <= '9',
        n > 0 ==> decimal(n)[0] != '0',
        n < 10 <==> decimal(n).len() == 1,
    decreases n,
{
    reveal_with_fuel(number_of, 2);
    if n < 10 {
        law_digit_is_read_back(n as int);
        assert(decimal(n).drop_last() =~= Seq::<char>::empty());
    } else {
        law_decimal_is_read_back(n / 10);
        law_digit_is_read_back((n % 10) as int);
        let front = decimal(n / 10);
        let digit = digit_char((n % 10) as int);
        assert(decimal(n) == front.push(digit));
        assert(decimal(n).drop_last() =~= front);
        assert(decimal(n).last() == digit);
        assert forall|i: int| 0 <= i < decimal(n).len() implies '0' <= #[trigger] decimal(n)[i]
            <= '9' by {
            if i < front.len() {
                assert(decimal(n)[i] == front[i]);
            }
        }
        assert(decimal(n)[0] == front[0]);
    }
}

/// A digit is read back from its character.
pub proof fn law_digit_is_read_back(d: int)
    requires
        0 <= d < 16,
    ensures
        digit_value(digit_char(d)) == d,
        digit_value(upper_digit_char(d)) == d,
        d < 10 ==> '0' <= digit_char(d) <= '9' && '0' <= upper_digit_char(d) <= '9',
        d >= 10 ==> 'a' <= digit_char(d) <= 'f' && 'A' <= upper_digit_char(d) <= 'F',
{
}

/// A byte is read back from its two hexadecimal digits, of either case.
pub proof fn law_hex_is_read_back(b: u8)
    ensures
        hex(b).len() == 2 && upper_hex(b).len() == 2,
        digit_value(hex(b)[0]) * 16 + digit_value(hex(b)[1]) == b,
        digit_value(upper_hex(b)[0]) * 16 + digit_value(upper_hex(b)[1]) == b,
        forall|i: int|
            0 <= i < 2 ==> '0' <= #[trigger] hex(b)[i] <= '9' || 'a' <= hex(b)[i] <= 'f',
        forall|i: int|
            0 <= i < 2 ==> '0' <= #[trigger] upper_hex(b)[i] <= '9' || 'A' <= upper_hex(b)[i]
                <= 'F',
{
    let high = b as int / 16;
    let low = b as int % 16;
    law_digit_is_read_back(high);
    law_digit_is_read_back(low);
    assert(hex(b)[0] == digit_char(high) && hex(b)[1] == digit_char(low));
    assert(upper_hex(b)[0] == upper_digit_char(high) && upper_hex(b)[1] == upper_digit_char(low));
}

/// The last two decimal digits of a number are read as what it leaves when divided by 100.
pub proof fn law_two_digits_are_read_back(n: int)
    requires
        n >= 0,
    ensures
        two_digits(n).len() == 2,
        digit_value(two_digits(n)[0]) * 10 + digit_value(two_digits(n)[1]) == n % 100,
        forall|i: int| 0 <= i < 2 ==> '0' <= #[trigger] two_digits(n)[i] <= '9',
{
    let high = n / 10 % 10;
    let low = n % 10;
    law_digit_is_read_back(high);
    law_digit_is_read_back(low);
    assert(n % 100 == high * 10 + low);
    assert(two_digits(n)[0] == digit_char(high) && two_digits(n)[1] == digit_char(low));
}

/// Text in a column keeps its characters, at the right end, with blanks before them. Text that is
/// wider than the column is left as it is.
pub proof fn law_aligned_text_ends_its_column(s: Seq<char>, width: nat)
    ensures
        s.len() >= width ==> right_aligned(s, width) == s,
        s.len() < width ==> {
            let gap = width - s.len();
            &&& right_aligned(s, width).len() == width
            &&& right_aligned(s, width).subrange(gap, width as int) == s
            &&& forall|i: int| 0 <= i < gap ==> #[trigger] right_aligned(s, width)[i] == ' '
        },
{
    if s.len() < width {
        let gap = width - s.len();
        assert(right_aligned(s, width).subrange(gap, width as int) =~= s);
    }
}

/// A sign and a magnitude tell a number: only a negative one has a sign.
pub proof fn law_sign_and_magnitude_tell_the_number(x: int)
    ensures
        x < 0 ==> sign_text(x) == "-"@ && magnitude(x) == -x,
        x >= 0 ==> sign_text(x).len() == 0 && magnitude(x) == x,
{
    reveal_strlit("");
}

/// A line of the log starts with the uptime in a column of ten characters, between brackets and with
/// its unit. It is as wide for every uptime of at most ten digits, and as wide as it has to be for
/// any other.
pub proof fn law_log_lines_are_aligned(ms: nat)
    ensures
        log_prefix(ms)[0] == '[',
        decimal(ms).len() <= 10 ==> {
            &&& log_prefix(ms).len() == 16
            &&& forall|i: int|
                1 <= i < 11 - decimal(ms).len() ==> #[trigger] log_prefix(ms)[i] == ' '
            &&& log_prefix(ms).subrange(11 - decimal(ms).len(), 11) == decimal(ms)
            &&& log_prefix(ms).subrange(11, 16) == " ms] "@
        },
        decimal(ms).len() > 10 ==> {
            let end: int = 1 + decimal(ms).len() as int;
            &&& log_prefix(ms).len() == end + 5
            &&& log_prefix(ms).subrange(1, end) == decimal(ms)
            &&& log_prefix(ms).subrange(end, end + 5) == " ms] "@
        },
{
    reveal_strlit("[");
    reveal_strlit(" ms] ");
    law_aligned_text_ends_its_column(decimal(ms), 10);
    let column = right_aligned(decimal(ms), 10);
    let end: int = 1 + column.len() as int;
    assert(log_prefix(ms).subrange(1, end) =~= column);
    assert(log_prefix(ms).subrange(end, end + 5) =~= " ms] "@);
    if decimal(ms).len() < 10 {
        let gap = 10 - decimal(ms).len();
        assert(column.subrange(gap, 10) == decimal(ms));
        assert(log_prefix(ms).subrange(1 + gap, 11) =~= column.subrange(gap, 10));
        assert forall|i: int| 1 <= i < 1 + gap implies #[trigger] log_prefix(ms)[i] == ' ' by {
            assert(log_prefix(ms)[i] == column[i - 1]);
        }
    }
}

/// A line of the log carries its message unchanged between the uptime and the line end.
pub proof fn law_log_line_carries_its_message(ms: nat, message: Seq<char>)
    ensures
        ({
            let line = line_text(ms, message);
            let start = log_prefix(ms).len() as int;
            let end = start + message.len();
            &&& line.len() == end + 2
            &&& line.subrange(0, start) == log_prefix(ms)
            &&& line.subrange(start, end) == message
            &&& line[end] == '\r' && line[end + 1] == '\n'
        }),
{
    reveal_strlit("\r\n");
    let line = line_text(ms, message);
    let start = log_prefix(ms).len() as int;
    assert(line.subrange(0, start) =~= log_prefix(ms));
    assert(line.subrange(start, start + message.len()) =~= message);
}

} // verus!

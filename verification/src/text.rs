//! Plain text rendering: decimal numbers and escaped byte strings.

use vstd::prelude::*;

verus! {

/// `String::push` appends the given character at the end of the string.
pub assume_specification[ String::push ](s: &mut String, c: char)
    ensures
        final(s)@ == old(s)@.push(c),
;

/// The character that shows the decimal digit `d`.
pub open spec fn digit_char(d: nat) -> char {
    (48 + d) as char
}

/// The decimal digits of `n`, most significant first, without leading zeros.
pub open spec fn decimal_nat(n: nat) -> Seq<char>
    decreases n,
{
    if n < 10 {
        seq![digit_char(n)]
    } else {
        decimal_nat(n / 10).push(digit_char(n % 10))
    }
}

/// The decimal text of `i`: its digits, behind a minus sign where it is negative.
pub open spec fn decimal_int(i: int) -> Seq<char> {
    if i < 0 {
        seq!['-'] + decimal_nat((-i) as nat)
    } else {
        decimal_nat(i as nat)
    }
}

/// The number that a row of decimal digits shows.
pub open spec fn digits_value(s: Seq<char>) -> int
    decreases s.len(),
{
    if s.len() == 0 {
        0
    } else {
        10 * digits_value(s.drop_last()) + (s.last() as int - 48)
    }
}

/// The number that a decimal text, with or without a minus sign, shows.
pub open spec fn decimal_value(s: Seq<char>) -> int {
    if s.len() > 0 && s[0] == '-' {
        -digits_value(s.drop_first())
    } else {
        digits_value(s)
    }
}

fn push_decimal(out: &mut String, n: u64)
    ensures
        final(out)@ == old(out)@ + decimal_nat(n as nat),
    decreases n,
{
    let rest: u64 = n / 10;
    if n >= 10 {
        push_decimal(out, rest);
    }
    let digit: u8 = (n % 10) as u8;
    out.push((48u8 + digit) as char);
    assert(out@ =~= old(out)@ + decimal_nat(n as nat));
}

/// Renders a signed number in decimal.
pub fn decimal(value: i64) -> (text: String)
    ensures
        text@ == decimal_int(value as int),
{
    let mut out = String::new();
    if value < 0 {
        out.push('-');
        let magnitude: u64 = (-(value + 1)) as u64 + 1;
        push_decimal(&mut out, magnitude);
        assert(out@ =~= decimal_int(value as int));
    } else {
        push_decimal(&mut out, value as u64);
        assert(out@ =~= decimal_int(value as int));
    }
    out
}

proof fn lemma_decimal_nat_value(n: nat)
    ensures
        digits_value(decimal_nat(n)) == n,
        decimal_nat(n).len() > 0,
        decimal_nat(n)[0] != '-',
    decreases n,
{
    if n < 10 {
        let s = decimal_nat(n);
        assert(s.drop_last() =~= Seq::<char>::empty());
        assert(digits_value(s.drop_last()) == 0);
    } else {
        lemma_decimal_nat_value(n / 10);
        let s = decimal_nat(n);
        assert(s.drop_last() =~= decimal_nat(n / 10));
    }
}

/// A rendered number reads back as the number it was made from.
pub proof fn decimal_reads_back(i: int)
    ensures
        decimal_value(decimal_int(i)) == i,
{
    if i < 0 {
        lemma_decimal_nat_value((-i) as nat);
        assert(decimal_int(i).drop_first() =~= decimal_nat((-i) as nat));
    } else {
        lemma_decimal_nat_value(i as nat);
    }
}

/// Different numbers are rendered differently.
pub proof fn decimal_is_injective(i: int, j: int)
    requires
        decimal_int(i) == decimal_int(j),
    ensures
        i == j,
{
    decimal_reads_back(i);
    decimal_reads_back(j);
}

/// The character that shows the value `d` as a lower case hexadecimal digit.
pub open spec fn hex_char(d: nat) -> char {
    if d < 10 {
        (48 + d) as char
    } else {
        (87 + d) as char
    }
}

/// How one byte is shown in printable ASCII: the tab, the carriage return, the
/// line feed, both quotes and the backslash behind a backslash, other printable
/// characters as they are, and every other byte as `\x` and two hexadecimal
/// digits.
pub open spec fn byte_escaped(b: u8) -> Seq<char> {
    if b == 9 {
        seq!['\\', 't']
    } else if b == 13 {
        seq!['\\', 'r']
    } else if b == 10 {
        seq!['\\', 'n']
    } else if b == 34 || b == 39 || b == 92 {
        seq!['\\', b as char]
    } else if 32 <= b <= 126 {
        seq![b as char]
    } else {
        seq!['\\', 'x', hex_char((b / 16) as nat), hex_char((b % 16) as nat)]
    }
}

/// The escaped form of a byte string: its bytes escaped one after the other.
pub open spec fn bytes_escaped(bytes: Seq<u8>) -> Seq<char>
    decreases bytes.len(),
{
    if bytes.len() == 0 {
        Seq::empty()
    } else {
        bytes_escaped(bytes.drop_last()) + byte_escaped(bytes.last())
    }
}

fn push_hex_digit(out: &mut String, digit: u8)
    requires
        digit < 16,
    ensures
        final(out)@ == old(out)@.push(hex_char(digit as nat)),
{
    if digit < 10 {
        out.push((48u8 + digit) as char);
    } else {
        out.push((87u8 + digit) as char);
    }
}

fn push_escaped(out: &mut String, byte: u8)
    ensures
        final(out)@ == old(out)@ + byte_escaped(byte),
{
    if byte == 9 {
        out.push('\\');
        out.push('t');
    } else if byte == 13 {
        out.push('\\');
        out.push('r');
    } else if byte == 10 {
        out.push('\\');
        out.push('n');
    } else if byte == 34 || byte == 39 || byte == 92 {
        out.push('\\');
        out.push(byte as char);
    } else if 32 <= byte && byte <= 126 {
        out.push(byte as char);
    } else {
        out.push('\\');
        out.push('x');
        push_hex_digit(out, byte / 16);
        push_hex_digit(out, byte % 16);
    }
    assert(out@ =~= old(out)@ + byte_escaped(byte));
}

/// Shows a byte string in printable ASCII.
pub fn escape_ascii(bytes: &[u8]) -> (text: String)
    ensures
        text@ == bytes_escaped(bytes@),
{
    let mut out = String::new();
    let mut i: usize = 0;
    assert(bytes@.take(0) =~= Seq::<u8>::empty());
    while i < bytes.len()
        invariant
            i <= bytes@.len(),
            out@ == bytes_escaped(bytes@.take(i as int)),
        decreases bytes@.len() - i,
    {
        push_escaped(&mut out, bytes[i]);
        i = i + 1;
        assert(bytes@.take(i as int).drop_last() =~= bytes@.take(i - 1));
    }
    assert(bytes@.take(i as int) =~= bytes@);
    out
}

/// An escaped byte string holds printable ASCII characters only.
pub proof fn escaped_is_printable(bytes: Seq<u8>, i: int)
    requires
        0 <= i < bytes_escaped(bytes).len(),
    ensures
        32 <= bytes_escaped(bytes)[i] as int <= 126,
    decreases bytes.len(),
{
    let front = bytes_escaped(bytes.drop_last());
    if i < front.len() {
        escaped_is_printable(bytes.drop_last(), i);
    } else {
        let b = bytes.last();
        assert(bytes_escaped(bytes)[i] == byte_escaped(b)[i - front.len()]);
    }
}

/// The decimal text of a number is a minus sign where the number is negative, and then
/// decimal digits, without a leading zero but for the number zero itself; read as a
/// number it is the number.
pub proof fn decimal_text_is_canonical(value: i64, text: String)
    requires
        call_ensures(decimal, (value,), text),
    ensures
        ({
            let digits = if value < 0 {
                text@.drop_first()
            } else {
                text@
            };
            &&& value < 0 ==> text@.len() > 0 && text@[0] == '-'
            &&& digits.len() > 0
            &&& digits[0] == '0' ==> digits.len() == 1 && value == 0
        }),
        forall|i: int|
            (value < 0 ==> 1 <= i) && 0 <= i < text@.len() ==> '0' <= #[trigger] text@[i] <= '9',
        decimal_value(text@) == value,
{
    decimal_reads_back(value as int);
    if value < 0 {
        lemma_decimal_nat_is_canonical((-value) as nat);
        let digits = decimal_nat((-value) as nat);
        assert(text@.drop_first() =~= digits);
        assert forall|i: int| 1 <= i < text@.len() implies '0' <= #[trigger] text@[i] <= '9' by {
            assert(text@[i] == digits[i - 1]);
        }
    } else {
        lemma_decimal_nat_is_canonical(value as nat);
    }
}

proof fn lemma_decimal_nat_is_canonical(n: nat)
    ensures
        decimal_nat(n).len() > 0,
        forall|i: int|
            0 <= i < decimal_nat(n).len() ==> '0' <= #[trigger] decimal_nat(n)[i] <= '9',
        decimal_nat(n)[0] == '0' ==> decimal_nat(n).len() == 1 && n == 0,
    decreases n,
{
    if n >= 10 {
        lemma_decimal_nat_is_canonical(n / 10);
    }
}

/// The text of a number of several digits is the text of its tenth, and then its last
/// digit; that of a digit is the digit; and that of a negative number is the text of its
/// magnitude behind a minus sign.
pub proof fn decimal_text_is_built_digit_by_digit(
    value: i64,
    text: String,
    tenth: String,
    negative: String,
)
    requires
        value >= 0,
        call_ensures(decimal, (value,), text),
        call_ensures(decimal, ((value / 10) as i64,), tenth),
        call_ensures(decimal, ((-value) as i64,), negative),
    ensures
        value < 10 ==> text@ == seq![(48 + value) as char],
        value >= 10 ==> text@ == tenth@ + seq![(48 + value % 10) as char],
        value > 0 ==> negative@ == seq!['-'] + text@,
{
    if value >= 10 {
        assert(text@ =~= tenth@ + seq![(48 + value % 10) as char]);
    }
}

/// What is shown of a byte string is what is shown of its parts, one after the other.
pub proof fn escaping_goes_part_by_part(
    first: &[u8],
    second: &[u8],
    whole: &[u8],
    first_text: String,
    second_text: String,
    whole_text: String,
)
    requires
        whole@ == first@ + second@,
        call_ensures(escape_ascii, (first,), first_text),
        call_ensures(escape_ascii, (second,), second_text),
        call_ensures(escape_ascii, (whole,), whole_text),
    ensures
        whole_text@ == first_text@ + second_text@,
        whole@.len() == 0 ==> whole_text@.len() == 0,
{
    lemma_escaped_concat(first@, second@);
}

proof fn lemma_escaped_concat(a: Seq<u8>, b: Seq<u8>)
    ensures
        bytes_escaped(a + b) == bytes_escaped(a) + bytes_escaped(b),
    decreases b.len(),
{
    if b.len() == 0 {
        assert(a + b =~= a);
        assert(bytes_escaped(a + b) =~= bytes_escaped(a) + bytes_escaped(b));
    } else {
        lemma_escaped_concat(a, b.drop_last());
        assert((a + b).drop_last() =~= a + b.drop_last());
        assert(bytes_escaped(a + b) =~= bytes_escaped(a) + bytes_escaped(b));
    }
}

/// A byte is shown as it is where it is a printable character without a meaning of its
/// own; quotes and the backslash stand behind a backslash, as do the letters for the tab,
/// the line feed and the carriage return; and any other byte is shown by its two
/// hexadecimal digits, the upper first.
pub proof fn bytes_are_shown_one_by_one(byte: u8, bytes: &[u8], text: String)
    requires
        bytes@ == seq![byte],
        call_ensures(escape_ascii, (bytes,), text),
    ensures
        byte == 9 ==> text@ == seq!['\\', 't'],
        byte == 10 ==> text@ == seq!['\\', 'n'],
        byte == 13 ==> text@ == seq!['\\', 'r'],
        byte == 34 ==> text@ == seq!['\\', '"'],
        byte == 39 ==> text@ == seq!['\\', '\''],
        byte == 92 ==> text@ == seq!['\\', '\\'],
        32 <= byte <= 126 && byte != 34 && byte != 39 && byte != 92 ==> text@ == seq![
            byte as char,
        ],
        (byte < 32 && byte != 9 && byte != 10 && byte != 13) || byte > 126 ==> text@ == seq![
            '\\',
            'x',
            "0123456789abcdef"@[(byte / 16) as int],
            "0123456789abcdef"@[(byte % 16) as int],
        ],
{
    reveal_strlit("0123456789abcdef");
    assert(bytes@.drop_last() =~= Seq::<u8>::empty());
    assert(bytes_escaped(bytes@.drop_last()) =~= Seq::<char>::empty());
    assert(bytes_escaped(bytes@) =~= byte_escaped(byte));
}

} // verus!

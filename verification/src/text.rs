//! Text building blocks: the number formats that appear in status messages,
//! timestamps and diagnostic lines.
use vstd::prelude::*;

verus! {

/// The character of one decimal or upper-case hexadecimal digit.
pub open spec fn digit_char(d: int) -> char {
    if d == 0 {
        '0'
    } else if d == 1 {
        '1'
    } else if d == 2 {
        '2'
    } else if d == 3 {
        '3'
    } else if d == 4 {
        '4'
    } else if d == 5 {
        '5'
    } else if d == 6 {
        '6'
    } else if d == 7 {
        '7'
    } else if d == 8 {
        '8'
    } else if d == 9 {
        '9'
    } else if d == 10 {
        'A'
    } else if d == 11 {
        'B'
    } else if d == 12 {
        'C'
    } else if d == 13 {
        'D'
    } else if d == 14 {
        'E'
    } else {
        'F'
    }
}

/// The shortest decimal numeral of `n`.
pub open spec fn decimal_text(n: nat) -> Seq<char>
    decreases n,
{
    if n < 10 {
        seq![digit_char(n as int)]
    } else {
        decimal_text(n / 10).push(digit_char((n % 10) as int))
    }
}

/// `count` zero digits.
pub open spec fn zeros(count: int) -> Seq<char> {
    Seq::new(
        if count > 0 {
            count as nat
        } else {
            0
        },
        |i: int| '0',
    )
}

/// The numeral of `n`, filled with zeros on the left up to `width` characters.
pub open spec fn padded_text(n: nat, width: int) -> Seq<char> {
    zeros(width - decimal_text(n).len()) + decimal_text(n)
}

/// The numeral of an integer, with a leading minus sign where it is negative.
pub open spec fn signed_text(n: int) -> Seq<char> {
    if n < 0 {
        "-"@ + decimal_text((-n) as nat)
    } else {
        decimal_text(n as nat)
    }
}

/// The numeral of an integer, filled with zeros between sign and digits up to
/// `width` characters, the sign counted.
pub open spec fn signed_padded_text(n: int, width: int) -> Seq<char> {
    if n < 0 {
        "-"@ + padded_text((-n) as nat, width - 1)
    } else {
        padded_text(n as nat, width)
    }
}

/// Two upper-case hexadecimal digits.
pub open spec fn hex_byte_text(b: u8) -> Seq<char> {
    seq![digit_char(b as int / 16), digit_char(b as int % 16)]
}

/// The bytes in order, each as two upper-case hexadecimal digits.
pub open spec fn hex_texts(bytes: Seq<u8>) -> Seq<Seq<char>> {
    bytes.map_values(|b: u8| hex_byte_text(b))
}

/// Eight upper-case hexadecimal digits.
pub open spec fn hex_word_text(n: u32) -> Seq<char> {
    hex_byte_text((n / 0x1000000) as u8) + hex_byte_text((n / 0x10000 % 0x100) as u8)
        + hex_byte_text((n / 0x100 % 0x100) as u8) + hex_byte_text((n % 0x100) as u8)
}

/// The words `true` and `false`.
pub open spec fn bool_text(b: bool) -> Seq<char> {
    if b {
        "true"@
    } else {
        "false"@
    }
}

/// The parts in order, with `separator` between each two of them.
pub open spec fn joined_text(parts: Seq<Seq<char>>, separator: Seq<char>) -> Seq<char>
    decreases parts.len(),
{
    if parts.len() == 0 {
        Seq::empty()
    } else if parts.len() == 1 {
        parts[0]
    } else {
        joined_text(parts.drop_last(), separator) + separator + parts.last()
    }
}

/// The contents of a list of strings.
pub open spec fn texts(parts: Seq<String>) -> Seq<Seq<char>> {
    parts.map_values(|part: String| part@)
}

/// The contents of an optional string.
pub open spec fn text_of(part: Option<String>) -> Option<Seq<char>> {
    match part {
        Some(text) => Some(text@),
        None => None,
    }
}

/// What a text of digits means in a base.
pub open spec fn numeral_value(text: Seq<char>, base: int) -> int
    decreases text.len(),
{
    if text.len() == 0 {
        0
    } else {
        base * numeral_value(text.drop_last(), base) + digit_value(text.last())
    }
}

/// What a digit means, in upper case.
pub open spec fn digit_value(c: char) -> int {
    if '0' <= c <= '9' {
        c as int - '0' as int
    } else {
        c as int - 'A' as int + 10
    }
}

/// The character of each digit means that digit, and is one of the characters of the
/// decimal numerals below ten and one of the first letters above.
pub proof fn digits_mean_themselves(d: int)
    requires
        0 <= d < 16,
    ensures
        digit_value(digit_char(d)) == d,
        d < 10 ==> '0' <= digit_char(d) <= '9',
        d >= 10 ==> 'A' <= digit_char(d) <= 'F',
{
}

/// A decimal numeral means its number, is made of decimal digits only, and does not begin
/// with a zero unless it is a single digit.
pub proof fn numerals_mean_their_number(n: nat)
    ensures
        numeral_value(decimal_text(n), 10) == n,
        decimal_text(n).len() > 0,
        decimal_text(n).len() > 1 <==> n >= 10,
        n >= 10 ==> decimal_text(n)[0] != '0',
        forall|i: int|
            0 <= i < decimal_text(n).len() ==> '0' <= #[trigger] decimal_text(n)[i] <= '9',
    decreases n,
{
    if n < 10 {
        digits_mean_themselves(n as int);
        assert(decimal_text(n).drop_last() =~= Seq::<char>::empty());
        assert(decimal_text(n).last() == digit_char(n as int));
        assert(numeral_value(decimal_text(n).drop_last(), 10) == 0);
    } else {
        let front = decimal_text(n / 10);
        numerals_mean_their_number(n / 10);
        digits_mean_themselves((n % 10) as int);
        assert(decimal_text(n).drop_last() =~= front);
        assert(decimal_text(n).last() == digit_char((n % 10) as int));
        if n / 10 < 10 {
            digits_mean_themselves((n / 10) as int);
            assert(front[0] == digit_char((n / 10) as int));
        }
    }
}

proof fn zeros_mean_nothing(count: int, text: Seq<char>)
    ensures
        numeral_value(zeros(count) + text, 10) == numeral_value(text, 10),
    decreases text.len() + if count > 0 {
        count
    } else {
        0
    },
{
    if text.len() > 0 {
        assert((zeros(count) + text).drop_last() =~= zeros(count) + text.drop_last());
        zeros_mean_nothing(count, text.drop_last());
    } else {
        assert(zeros(count) + text =~= zeros(count));
        if count > 0 {
            assert(zeros(count).drop_last() =~= zeros(count - 1));
            zeros_mean_nothing(count - 1, text);
            assert(zeros(count - 1) + text =~= zeros(count - 1));
        } else {
            assert(zeros(count) =~= text);
        }
    }
}

/// Filling a numeral with zeros keeps its number and its digits, which stay at the end,
/// and makes it as long as asked, or leaves it as it is where it is that long already.
pub proof fn padding_keeps_the_number(n: nat, width: int)
    ensures
        numeral_value(padded_text(n, width), 10) == n,
        padded_text(n, width).len() == if width > decimal_text(n).len() {
            width
        } else {
            decimal_text(n).len() as int
        },
        decimal_text(n).is_suffix_of(padded_text(n, width)),
{
    numerals_mean_their_number(n);
    zeros_mean_nothing(width - decimal_text(n).len(), decimal_text(n));
}

/// A byte is written as two hexadecimal digits that mean it.
pub proof fn hex_bytes_mean_their_byte(b: u8)
    ensures
        hex_byte_text(b).len() == 2,
        numeral_value(hex_byte_text(b), 16) == b,
{
    let text = hex_byte_text(b);
    assert(text.drop_last() =~= seq![digit_char(b as int / 16)]);
    assert(text.drop_last().drop_last() =~= Seq::<char>::empty());
    assert(numeral_value(text.drop_last().drop_last(), 16) == 0);
    assert(numeral_value(text.drop_last(), 16) == b as int / 16);
    assert(text.last() == digit_char(b as int % 16));
}

proof fn hex_bytes_append(text: Seq<char>, b: u8)
    ensures
        numeral_value(text + hex_byte_text(b), 16) == 256 * numeral_value(text, 16) + b,
{
    let whole = text + hex_byte_text(b);
    assert(whole.drop_last() =~= text.push(digit_char(b as int / 16)));
    assert(whole.drop_last().drop_last() =~= text);
    assert(whole.drop_last().last() == digit_char(b as int / 16));
    assert(whole.last() == digit_char(b as int % 16));
    assert(numeral_value(whole.drop_last(), 16) == 16 * numeral_value(text, 16) + b as int / 16);
}

/// A word is written as eight hexadecimal digits that mean it.
pub proof fn hex_words_mean_their_word(n: u32)
    ensures
        hex_word_text(n).len() == 8,
        numeral_value(hex_word_text(n), 16) == n,
{
    let a = (n / 0x1000000) as u8;
    let b = (n / 0x10000 % 0x100) as u8;
    let c = (n / 0x100 % 0x100) as u8;
    let d = (n % 0x100) as u8;
    hex_bytes_mean_their_byte(a);
    hex_bytes_append(hex_byte_text(a), b);
    hex_bytes_append(hex_byte_text(a) + hex_byte_text(b), c);
    hex_bytes_append(hex_byte_text(a) + hex_byte_text(b) + hex_byte_text(c), d);
}

/// A list of texts begins with its first, and the separator stands between it and the
/// list of the others, where there are others.
pub proof fn lists_begin_with_their_first(
    first: Seq<char>,
    rest: Seq<Seq<char>>,
    separator: Seq<char>,
)
    ensures
        joined_text(seq![first] + rest, separator) == if rest.len() == 0 {
            first
        } else {
            first + separator + joined_text(rest, separator)
        },
        rest.len() == 0 ==> joined_text(rest, separator) =~= Seq::empty(),
    decreases rest.len(),
{
    let all = seq![first] + rest;
    if rest.len() > 0 {
        assert(all.drop_last() =~= seq![first] + rest.drop_last());
        lists_begin_with_their_first(first, rest.drop_last(), separator);
        if rest.len() == 1 {
            assert(rest[0] == rest.last());
        } else {
            assert(first + separator + joined_text(rest.drop_last(), separator) + separator
                + rest.last() =~= first + separator + (joined_text(rest.drop_last(), separator)
                + separator + rest.last()));
        }
    }
}

/// The one-character text of a digit.
pub fn digit(d: u8) -> (text: &'static str)
    requires
        d < 16,
    ensures
        text@ == seq![digit_char(d as int)],
{
    proof {
        reveal_strlit("0");
        reveal_strlit("1");
        reveal_strlit("2");
        reveal_strlit("3");
        reveal_strlit("4");
        reveal_strlit("5");
        reveal_strlit("6");
        reveal_strlit("7");
        reveal_strlit("8");
        reveal_strlit("9");
        reveal_strlit("A");
        reveal_strlit("B");
        reveal_strlit("C");
        reveal_strlit("D");
        reveal_strlit("E");
        reveal_strlit("F");
    }
    match d {
        0 => "0",
        1 => "1",
        2 => "2",
        3 => "3",
        4 => "4",
        5 => "5",
        6 => "6",
        7 => "7",
        8 => "8",
        9 => "9",
        10 => "A",
        11 => "B",
        12 => "C",
        13 => "D",
        14 => "E",
        _ => "F",
    }
}

/// Writes `n` in decimal.
pub fn decimal(n: u64) -> (text: String)
    ensures
        text@ == decimal_text(n as nat),
    decreases n,
{
    if n < 10 {
        digit(n as u8).to_owned()
    } else {
        let mut text = decimal(n / 10);
        text.append(digit((n % 10) as u8));
        assert(text@ =~= decimal_text(n as nat));
        text
    }
}

/// Writes `n` in decimal, filled with zeros on the left up to `width` characters.
pub fn padded(n: u64, width: usize) -> (text: String)
    ensures
        text@ == padded_text(n as nat, width as int),
{
    let digits = decimal(n);
    let count: usize = digits.as_str().unicode_len();
    let mut text = String::new();
    let mut filled: usize = 0;
    assert(text@ =~= zeros(0));
    proof {
        reveal_strlit("0");
    }
    while count < width && filled < width - count
        invariant
            text@ == zeros(filled as int),
            "0"@ == seq!['0'],
            filled == 0 || filled <= width - count,
        decreases width - count - filled,
    {
        text.append("0");
        filled = filled + 1;
        assert(text@ =~= zeros(filled as int));
    }
    assert(zeros(filled as int) =~= zeros(width - count));
    text.append(digits.as_str());
    text
}

/// The magnitude of a signed integer.
fn magnitude(n: i64) -> (m: u64)
    ensures
        m == if n < 0 { -n } else { n as int },
{
    if n >= 0 {
        n as u64
    } else if n == i64::MIN {
        0x8000_0000_0000_0000
    } else {
        (-n) as u64
    }
}

/// Writes a signed integer in decimal.
pub fn signed(n: i64) -> (text: String)
    ensures
        text@ == signed_text(n as int),
{
    let digits = decimal(magnitude(n));
    if n < 0 {
        let mut text = "-".to_owned();
        text.append(digits.as_str());
        text
    } else {
        digits
    }
}

/// Writes a signed integer in decimal, filled with zeros up to `width` characters.
pub fn signed_padded(n: i64, width: usize) -> (text: String)
    requires
        width > 0,
    ensures
        text@ == signed_padded_text(n as int, width as int),
{
    if n < 0 {
        let digits = padded(magnitude(n), width - 1);
        let mut text = "-".to_owned();
        text.append(digits.as_str());
        text
    } else {
        padded(magnitude(n), width)
    }
}

/// Writes a byte as two upper-case hexadecimal digits.
pub fn hex_byte(b: u8) -> (text: String)
    ensures
        text@ == hex_byte_text(b),
{
    let mut text = digit(b / 16).to_owned();
    text.append(digit(b % 16));
    assert(text@ =~= hex_byte_text(b));
    text
}

/// Writes a 32-bit word as eight upper-case hexadecimal digits.
pub fn hex_word(n: u32) -> (text: String)
    ensures
        text@ == hex_word_text(n),
{
    let mut text = hex_byte((n / 0x1000000) as u8);
    text.append(hex_byte((n / 0x10000 % 0x100) as u8).as_str());
    text.append(hex_byte((n / 0x100 % 0x100) as u8).as_str());
    text.append(hex_byte((n % 0x100) as u8).as_str());
    text
}

/// Writes a truth value as a word.
pub fn bool_word(b: bool) -> (text: &'static str)
    ensures
        text@ == bool_text(b),
{
    if b {
        "true"
    } else {
        "false"
    }
}

/// Joins two texts.
pub fn join2(a: &str, b: &str) -> (text: String)
    ensures
        text@ == a@ + b@,
{
    let mut text = a.to_owned();
    text.append(b);
    text
}

/// Joins three texts.
pub fn join3(a: &str, b: &str, c: &str) -> (text: String)
    ensures
        text@ == a@ + b@ + c@,
{
    let mut text = a.to_owned();
    text.append(b);
    text.append(c);
    text
}

/// Joins a list of texts, with `separator` between each two of them.
pub fn join(parts: &Vec<String>, separator: &str) -> (text: String)
    ensures
        text@ == joined_text(texts(parts@), separator@),
{
    let mut text = String::new();
    let mut done: usize = 0;
    assert(texts(parts@).take(0) =~= Seq::<Seq<char>>::empty());
    while done < parts.len()
        invariant
            done <= parts.len(),
            text@ == joined_text(texts(parts@).take(done as int), separator@),
        decreases parts.len() - done,
    {
        let ghost all = texts(parts@);
        if done > 0 {
            text.append(separator);
        }
        text.append(parts[done].as_str());
        proof {
            assert(all.take(done + 1).drop_last() =~= all.take(done as int));
            assert(all.take(done + 1).last() == parts@[done as int]@);
            if done == 0 {
                assert(text@ =~= parts@[0]@);
            }
        }
        done = done + 1;
    }
    assert(texts(parts@).take(done as int) =~= texts(parts@));
    text
}

/// A copy of an optional string.
pub fn copy_text(part: &Option<String>) -> (copy: Option<String>)
    ensures
        text_of(copy) == text_of(*part),
{
    match part {
        Some(text) => Some(text.clone()),
        None => None,
    }
}

/// A signed numeral is a decimal numeral with a minus sign in front of it exactly where the
/// number is negative; filling it keeps the sign in front and counts it.
pub proof fn signed_numerals_mean_their_number(n: int, width: int)
    ensures
        n >= 0 ==> signed_text(n) == decimal_text(n as nat) && numeral_value(signed_text(n), 10)
            == n,
        n < 0 ==> signed_text(n) == seq!['-'] + decimal_text((-n) as nat) && numeral_value(
            signed_text(n).skip(1),
            10,
        ) == -n,
        n >= 0 ==> numeral_value(signed_padded_text(n, width), 10) == n,
        n < 0 ==> signed_padded_text(n, width)[0] == '-' && numeral_value(
            signed_padded_text(n, width).skip(1),
            10,
        ) == -n,
        signed_padded_text(n, width).len() >= width,
{
    reveal_strlit("-");
    assert("-"@ =~= seq!['-']);
    if n < 0 {
        numerals_mean_their_number((-n) as nat);
        padding_keeps_the_number((-n) as nat, width - 1);
        assert(signed_text(n).skip(1) =~= decimal_text((-n) as nat));
        assert(signed_padded_text(n, width).skip(1) =~= padded_text((-n) as nat, width - 1));
    } else {
        numerals_mean_their_number(n as nat);
        padding_keeps_the_number(n as nat, width);
    }
}

} // verus!

//! How texts compare, and what that says of the numbers in them.
use crate::text::{decimal_text, digit_char, hex_byte_text, hex_texts, joined_text, padded_text};
use vstd::prelude::*;

verus! {

/// The order of texts: by the first character in which they differ, a text before its
/// continuations. The bytes of their UTF-8 forms compare the same way.
pub open spec fn text_less(a: Seq<char>, b: Seq<char>) -> bool
    decreases a.len(),
{
    if b.len() == 0 {
        false
    } else if a.len() == 0 {
        true
    } else if a[0] == b[0] {
        text_less(a.skip(1), b.skip(1))
    } else {
        a[0] < b[0]
    }
}

/// Ten to the power of `width`.
pub open spec fn power_of_ten(width: nat) -> nat
    decreases width,
{
    if width == 0 {
        1
    } else {
        10 * power_of_ten((width - 1) as nat)
    }
}

/// No text comes before itself.
pub(crate) proof fn nothing_precedes_itself(a: Seq<char>)
    ensures
        !text_less(a, a),
    decreases a.len(),
{
    if a.len() > 0 {
        nothing_precedes_itself(a.skip(1));
    }
}

/// Texts whose first parts have the same length compare by those parts, and by the rest
/// where they agree.
pub(crate) proof fn parts_compare_in_turn(p: Seq<char>, q: Seq<char>, x: Seq<char>, y: Seq<char>)
    requires
        p.len() == q.len(),
    ensures
        text_less(p + x, q + y) <==> text_less(p, q) || (p == q && text_less(x, y)),
        p + x == q + y <==> p == q && x == y,
    decreases p.len(),
{
    if p + x == q + y {
        assert(p =~= (p + x).take(p.len() as int));
        assert(q =~= (q + y).take(p.len() as int));
        assert(x =~= (p + x).skip(p.len() as int));
        assert(y =~= (q + y).skip(p.len() as int));
    }
    if p.len() == 0 {
        assert(p + x =~= x);
        assert(q + y =~= y);
        assert(p =~= q);
    } else {
        assert((p + x).skip(1) =~= p.skip(1) + x);
        assert((q + y).skip(1) =~= q.skip(1) + y);
        assert((p + x)[0] == p[0]);
        assert((q + y)[0] == q[0]);
        parts_compare_in_turn(p.skip(1), q.skip(1), x, y);
        if p[0] == q[0] && p.skip(1) == q.skip(1) {
            assert(p =~= seq![p[0]] + p.skip(1));
            assert(q =~= seq![q[0]] + q.skip(1));
        }
    }
}

/// A numeral of more than one place is that of its leading places and its last digit.
proof fn last_place(n: nat, width: int)
    requires
        width >= 2,
    ensures
        padded_text(n, width) == padded_text(n / 10, width - 1).push(digit_char((n % 10) as int)),
{
    assert(padded_text(n, width) =~= padded_text(n / 10, width - 1).push(
        digit_char((n % 10) as int),
    ));
}

/// Numerals of the same width compare like their numbers.
pub(crate) proof fn numerals_compare_like_numbers(a: nat, b: nat, width: nat)
    requires
        width >= 1,
        a < power_of_ten(width),
        b < power_of_ten(width),
    ensures
        padded_text(a, width as int).len() == width,
        padded_text(b, width as int).len() == width,
        text_less(padded_text(a, width as int), padded_text(b, width as int)) <==> a < b,
        padded_text(a, width as int) == padded_text(b, width as int) <==> a == b,
    decreases width,
{
    reveal_with_fuel(text_less, 2);
    let x = digit_char((a % 10) as int);
    let y = digit_char((b % 10) as int);
    assert(text_less(seq![x], seq![y]) <==> a % 10 < b % 10);
    assert(seq![x] == seq![y] <==> a % 10 == b % 10) by {
        assert(seq![x][0] == x && seq![y][0] == y);
    }
    if width == 1 {
        reveal_with_fuel(power_of_ten, 2);
        assert(padded_text(a, 1) =~= seq![x]);
        assert(padded_text(b, 1) =~= seq![y]);
    } else {
        let w = (width - 1) as nat;
        numerals_compare_like_numbers(a / 10, b / 10, w);
        last_place(a, width as int);
        last_place(b, width as int);
        let p = padded_text(a / 10, w as int);
        let q = padded_text(b / 10, w as int);
        assert(p.push(x) =~= p + seq![x]);
        assert(q.push(y) =~= q + seq![y]);
        parts_compare_in_turn(p, q, seq![x], seq![y]);
    }
}

/// A decimal digit.
spec fn is_digit(c: char) -> bool {
    '0' <= c <= '9'
}

proof fn numerals_are_digits(n: nat)
    ensures
        decimal_text(n).len() > 0,
        forall|i: int| 0 <= i < decimal_text(n).len() ==> is_digit(#[trigger] decimal_text(n)[i]),
    decreases n,
{
    if n >= 10 {
        numerals_are_digits(n / 10);
    }
}

proof fn numerals_are_distinct(a: nat, b: nat)
    requires
        decimal_text(a) == decimal_text(b),
    ensures
        a == b,
    decreases a,
{
    numerals_are_digits(a / 10);
    numerals_are_digits(b / 10);
    let x = decimal_text(a);
    let y = decimal_text(b);
    assert(x.last() == digit_char((a % 10) as int));
    assert(y.last() == digit_char((b % 10) as int));
    assert(a % 10 == b % 10);
    if a >= 10 && b >= 10 {
        assert(x.drop_last() =~= decimal_text(a / 10));
        assert(y.drop_last() =~= decimal_text(b / 10));
        numerals_are_distinct(a / 10, b / 10);
    }
}

/// A numeral and what follows it after a character that is no digit can be told apart.
pub(crate) proof fn numerals_end_where_digits_do(
    a: nat,
    b: nat,
    x: Seq<char>,
    y: Seq<char>,
)
    requires
        x.len() > 0,
        y.len() > 0,
        x[0] == ' ',
        y[0] == ' ',
        decimal_text(a) + x == decimal_text(b) + y,
    ensures
        a == b,
        x == y,
{
    let p = decimal_text(a);
    let q = decimal_text(b);
    numerals_are_digits(a);
    numerals_are_digits(b);
    if p.len() < q.len() {
        assert((p + x)[p.len() as int] == ' ');
        assert((q + y)[p.len() as int] == q[p.len() as int]);
        assert(is_digit(q[p.len() as int]));
    } else if q.len() < p.len() {
        assert((q + y)[q.len() as int] == ' ');
        assert((p + x)[q.len() as int] == p[q.len() as int]);
        assert(is_digit(p[q.len() as int]));
    }
    parts_compare_in_turn(p, q, x, y);
    numerals_are_distinct(a, b);
}

proof fn hex_bytes_are_distinct(a: u8, b: u8)
    requires
        hex_byte_text(a) == hex_byte_text(b),
    ensures
        a == b,
{
    assert(hex_byte_text(a)[0] == digit_char(a as int / 16));
    assert(hex_byte_text(b)[0] == digit_char(b as int / 16));
    assert(hex_byte_text(a)[1] == digit_char(a as int % 16));
    assert(hex_byte_text(b)[1] == digit_char(b as int % 16));
}

proof fn hex_lists_have_equal_lengths(bytes: Seq<u8>)
    ensures
        joined_text(hex_texts(bytes), " "@).len() == if bytes.len() == 0 {
            0
        } else {
            3 * bytes.len() - 1
        },
    decreases bytes.len(),
{
    reveal_strlit(" ");
    if bytes.len() > 0 {
        hex_lists_have_equal_lengths(bytes.drop_last());
        assert(hex_texts(bytes).drop_last() =~= hex_texts(bytes.drop_last()));
    }
}

/// Lists of as many bytes have the same hexadecimal form only where they agree.
pub(crate) proof fn hex_lists_are_distinct(a: Seq<u8>, b: Seq<u8>)
    requires
        a.len() == b.len(),
        joined_text(hex_texts(a), " "@) == joined_text(hex_texts(b), " "@),
    ensures
        a == b,
    decreases a.len(),
{
    if a.len() == 0 {
        assert(a =~= b);
    } else if a.len() == 1 {
        assert(hex_texts(a)[0] == hex_byte_text(a[0]));
        assert(hex_texts(b)[0] == hex_byte_text(b[0]));
        hex_bytes_are_distinct(a[0], b[0]);
        assert(a =~= b);
    } else {
        let p = joined_text(hex_texts(a.drop_last()), " "@);
        let q = joined_text(hex_texts(b.drop_last()), " "@);
        assert(hex_texts(a).drop_last() =~= hex_texts(a.drop_last()));
        assert(hex_texts(b).drop_last() =~= hex_texts(b.drop_last()));
        hex_lists_have_equal_lengths(a.drop_last());
        hex_lists_have_equal_lengths(b.drop_last());
        parts_compare_in_turn(
            p + " "@,
            q + " "@,
            hex_byte_text(a.last()),
            hex_byte_text(b.last()),
        );
        parts_compare_in_turn(p, q, " "@, " "@);
        hex_bytes_are_distinct(a.last(), b.last());
        hex_lists_are_distinct(a.drop_last(), b.drop_last());
        assert(a =~= a.drop_last().push(a.last()));
        assert(b =~= b.drop_last().push(b.last()));
    }
}

} // verus!

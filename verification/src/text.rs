//! Text that the proxy shows to its caller: numbers, messages, names.

use vstd::prelude::*;
use vstd::string::*;

verus! {

/// `String::push` appends one character.
pub assume_specification[ std::string::String::push ](s: &mut std::string::String, c: char)
    ensures
        final(s)@ == old(s)@.push(c),
;

/// `==` on two string slices: the same characters in the same order.
#[verifier::external_body]
pub(crate) fn str_eq(a: &str, b: &str) -> (same: bool)
    ensures
        same == (a@ == b@),
{
    a == b
}

/// Whether `needle` occurs in `text` as a run of adjacent characters.
pub open spec fn occurs_in(needle: Seq<char>, text: Seq<char>) -> bool {
    exists|at: int|
        0 <= at <= text.len() - needle.len() && #[trigger] text.subrange(at, at + needle.len())
            == needle
}

/// `str::contains` with a string slice as its pattern: whether the pattern is
/// a sub-slice of the text.
#[verifier::external_body]
pub(crate) fn str_contains(text: &str, needle: &str) -> (found: bool)
    ensures
        found == occurs_in(needle@, text@),
{
    text.contains(needle)
}

/// What an operation that may fail with a message came to.
pub open spec fn outcome<T: View>(result: Result<T, String>) -> Result<T::V, Seq<char>> {
    match result {
        Ok(value) => Ok(value@),
        Err(message) => Err(message@),
    }
}

/// The characters of a text that may be absent.
pub open spec fn optional(value: Option<String>) -> Option<Seq<char>> {
    match value {
        Some(content) => Some(content@),
        None => None,
    }
}

/// Copies a text that may be absent.
pub fn copy_text(value: &Option<String>) -> (copy: Option<String>)
    ensures
        optional(copy) == optional(*value),
{
    match value {
        Some(content) => Some(content.clone()),
        None => None,
    }
}

/// Copies bytes.
pub fn copy_bytes(bytes: &Vec<u8>) -> (copy: Vec<u8>)
    ensures
        copy@ == bytes@,
{
    vstd::slice::slice_to_vec(bytes.as_slice())
}

/// The characters of a text.
pub fn chars_of(text: &str) -> (list: Vec<char>)
    ensures
        list@ == text@,
{
    broadcast use vstd::string::axiom_spec_iter;

    let mut list: Vec<char> = Vec::new();
    for c in iter: text.chars()
        invariant
            list@ == iter.seq().take(iter.index() as int),
    {
        let ghost before = list@;
        list.push(c);
        proof {
            assert(iter.seq().take(iter.index() + 1) =~= before.push(c));
        }
    }
    list
}

/// The text that characters make up.
pub fn text_of(list: &Vec<char>) -> (text: String)
    ensures
        text@ == list@,
{
    let mut text = String::new();
    let mut index: usize = 0;
    proof {
        assert(text@ =~= list@.take(0));
    }
    while index < list.len()
        invariant
            index <= list@.len(),
            text@ == list@.take(index as int),
        decreases list@.len() - index,
    {
        text.push(list[index]);
        index = index + 1;
        proof {
            assert(text@ =~= list@.take(index as int));
        }
    }
    proof {
        assert(text@ =~= list@);
    }
    text
}

/// The decimal digit of `d`.
pub open spec fn digit(d: int) -> char {
    if d == 0 {
        '0'
    } else if d == 1 {
        '1'
    } else if d == 2 {
        '2'
    } else if d == 3 {
        '3'
    } else if d == 4 {
        '4'
    } else if d == 5 {
        '5'
    } else if d == 6 {
        '6'
    } else if d == 7 {
        '7'
    } else if d == 8 {
        '8'
    } else {
        '9'
    }
}

/// `n` in decimal, without leading zeros.
pub open spec fn decimal(n: nat) -> Seq<char>
    decreases n,
{
    if n < 10 {
        seq![digit(n as int)]
    } else {
        decimal(n / 10).push(digit((n % 10) as int))
    }
}

/// `i` in decimal, with a minus sign in front of a negative number.
pub open spec fn signed_decimal(i: int) -> Seq<char> {
    if i < 0 {
        seq!['-'] + decimal((-i) as nat)
    } else {
        decimal(i as nat)
    }
}

/// The hexadecimal digit of `d`, in upper or lower case.
pub open spec fn hex_digit(d: int, upper: bool) -> char {
    if d < 10 {
        digit(d)
    } else if d == 10 {
        if upper { 'A' } else { 'a' }
    } else if d == 11 {
        if upper { 'B' } else { 'b' }
    } else if d == 12 {
        if upper { 'C' } else { 'c' }
    } else if d == 13 {
        if upper { 'D' } else { 'd' }
    } else if d == 14 {
        if upper { 'E' } else { 'e' }
    } else {
        if upper { 'F' } else { 'f' }
    }
}

/// The `width` low hexadecimal digits of `n`, most significant first.
pub open spec fn hex(n: nat, width: nat, upper: bool) -> Seq<char>
    decreases width,
{
    if width == 0 {
        Seq::empty()
    } else {
        hex(n / 16, (width - 1) as nat, upper).push(hex_digit((n % 16) as int, upper))
    }
}

fn digit_char(d: u64) -> (c: char)
    requires
        d < 10,
    ensures
        c == digit(d as int),
{
    match d {
        0 => '0',
        1 => '1',
        2 => '2',
        3 => '3',
        4 => '4',
        5 => '5',
        6 => '6',
        7 => '7',
        8 => '8',
        _ => '9',
    }
}

fn hex_digit_char(d: u64, upper: bool) -> (c: char)
    requires
        d < 16,
    ensures
        c == hex_digit(d as int, upper),
{
    if d < 10 {
        digit_char(d)
    } else if d == 10 {
        if upper { 'A' } else { 'a' }
    } else if d == 11 {
        if upper { 'B' } else { 'b' }
    } else if d == 12 {
        if upper { 'C' } else { 'c' }
    } else if d == 13 {
        if upper { 'D' } else { 'd' }
    } else if d == 14 {
        if upper { 'E' } else { 'e' }
    } else {
        if upper { 'F' } else { 'f' }
    }
}

/// Appends `n` in decimal.
pub fn append_decimal(text: &mut String, n: u64)
    ensures
        final(text)@ == old(text)@ + decimal(n as nat),
    decreases n,
{
    if n >= 10 {
        append_decimal(text, n / 10);
    }
    text.push(digit_char(n % 10));
    proof {
        if n >= 10 {
            assert(old(text)@ + decimal((n / 10) as nat).push(digit((n % 10) as int)) =~= (old(
                text,
            )@ + decimal((n / 10) as nat)).push(digit((n % 10) as int)));
        } else {
            assert(old(text)@ + seq![digit(n as int)] =~= old(text)@.push(digit(n as int)));
        }
    }
}

/// Appends `i` in decimal, with its sign when it is negative.
pub fn append_signed(text: &mut String, i: i64)
    ensures
        final(text)@ == old(text)@ + signed_decimal(i as int),
{
    if i < 0 {
        text.push('-');
        let magnitude: u64 = (-(i as i128)) as u64;
        append_decimal(text, magnitude);
        assert(text@ =~= old(text)@ + (seq!['-'] + decimal(magnitude as nat)));
    } else {
        append_decimal(text, i as u64);
    }
}

/// Appends the `width` low hexadecimal digits of `n`.
pub fn append_hex(text: &mut String, n: u64, width: u8, upper: bool)
    ensures
        final(text)@ == old(text)@ + hex(n as nat, width as nat, upper),
    decreases width,
{
    if width > 0 {
        append_hex(text, n / 16, width - 1, upper);
        text.push(hex_digit_char(n % 16, upper));
        assert(text@ =~= old(text)@ + hex((n / 16) as nat, (width - 1) as nat, upper).push(
            hex_digit((n % 16) as int, upper),
        ));
    } else {
        assert(text@ =~= old(text)@ + Seq::<char>::empty());
    }
}

/// A number in decimal.
pub fn decimal_text(n: u64) -> (text: String)
    ensures
        text@ == decimal(n as nat),
{
    let mut text = String::new();
    append_decimal(&mut text, n);
    assert(text@ =~= decimal(n as nat));
    text
}

proof fn digit_is_injective(a: int, b: int)
    requires
        0 <= a < 10,
        0 <= b < 10,
        digit(a) == digit(b),
    ensures
        a == b,
{
}

/// Two numbers with the same decimal text are the same number.
pub proof fn decimal_is_injective(a: nat, b: nat)
    requires
        decimal(a) == decimal(b),
    ensures
        a == b,
    decreases a,
{
    decimal_has_digits(a);
    decimal_has_digits(b);
    if a < 10 && b < 10 {
        assert(decimal(a)[0] == digit(a as int));
        assert(decimal(b)[0] == digit(b as int));
    } else if a < 10 {
        decimal_has_digits(b / 10);
        assert(decimal(b).len() == decimal(b / 10).len() + 1);
    } else if b < 10 {
        decimal_has_digits(a / 10);
        assert(decimal(a).len() == decimal(a / 10).len() + 1);
    } else {
        assert(decimal(a).last() == digit((a % 10) as int));
        assert(decimal(b).last() == digit((b % 10) as int));
        assert(decimal(a).drop_last() =~= decimal(a / 10));
        assert(decimal(b).drop_last() =~= decimal(b / 10));
        digit_is_injective((a % 10) as int, (b % 10) as int);
        decimal_is_injective(a / 10, b / 10);
    }
}

proof fn decimal_has_digits(n: nat)
    ensures
        decimal(n).len() >= 1,
    decreases n,
{
    if n >= 10 {
        decimal_has_digits(n / 10);
    }
}

} // verus!

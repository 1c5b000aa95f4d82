//! Numbers and names as they are shown: what a reader makes of the digits is the
//! number, and names that differ are shown differently.

use crate::artifact;
use crate::console;
use crate::text;
use crate::windows;
use vstd::prelude::*;

verus! {

/// The number that a digit stands for, and a negative one where it is no digit.
pub open spec fn worth(c: char) -> int {
    let code = c as u32;
    if 48 <= code <= 57 {
        code - 48
    } else if 65 <= code <= 70 {
        code - 55
    } else if 97 <= code <= 102 {
        code - 87
    } else {
        -1
    }
}

/// The number that digits stand for, the highest first.
pub open spec fn reading(digits: Seq<char>, base: int) -> int
    decreases digits.len(),
{
    if digits.len() == 0 {
        0
    } else {
        reading(digits.drop_last(), base) * base + worth(digits.last())
    }
}

/// Whether all of a text is digits below a base.
pub open spec fn all_digits(digits: Seq<char>, base: int) -> bool {
    forall|i: int| 0 <= i < digits.len() ==> 0 <= worth(#[trigger] digits[i]) < base
}

proof fn digit_has_its_worth(d: int)
    requires
        0 <= d < 10,
    ensures
        worth(text::digit(d)) == d,
{
}

proof fn hex_digit_has_its_worth(d: int, upper: bool)
    requires
        0 <= d < 16,
    ensures
        worth(text::hex_digit(d, upper)) == d,
        upper ==> text::hex_digit(d, upper) as u32 <= 70,
        !upper && d >= 10 ==> text::hex_digit(d, upper) as u32 >= 97,
{
}

/// A number in decimal is read back, and has no zero in front but the one of zero
/// itself.
pub proof fn decimal_is_read_back(n: nat)
    ensures
        all_digits(text::decimal(n), 10),
        reading(text::decimal(n), 10) == n,
        text::decimal(n).len() >= 1,
        n > 0 ==> worth(text::decimal(n)[0]) > 0,
        n == 0 ==> text::decimal(n).len() == 1,
    decreases n,
{
    let shown = text::decimal(n);
    digit_has_its_worth((n % 10) as int);
    if n < 10 {
        assert(shown.drop_last() =~= Seq::<char>::empty());
        assert(shown.last() == text::digit(n as int));
        assert(reading(shown.drop_last(), 10) == 0);
    } else {
        decimal_is_read_back(n / 10);
        assert(shown.drop_last() =~= text::decimal(n / 10));
        assert(shown.last() == text::digit((n % 10) as int));
        assert forall|i: int| 0 <= i < shown.len() implies 0 <= worth(#[trigger] shown[i]) < 10 by {
            if i < shown.len() - 1 {
                assert(shown[i] == text::decimal(n / 10)[i]);
            }
        }
        assert(shown[0] == text::decimal(n / 10)[0]);
    }
}

/// A number with a sign is read back: what is below zero has a minus in front of what
/// it is short of zero, and nothing else has.
pub proof fn sign_is_read_back(i: int)
    ensures
        i >= 0 ==> all_digits(text::signed_decimal(i), 10) && reading(text::signed_decimal(i), 10)
            == i,
        i < 0 ==> text::signed_decimal(i)[0] == '-' && all_digits(
            text::signed_decimal(i).drop_first(),
            10,
        ) && reading(text::signed_decimal(i).drop_first(), 10) == -i,
{
    if i < 0 {
        decimal_is_read_back((-i) as nat);
        assert(text::signed_decimal(i).drop_first() =~= text::decimal((-i) as nat));
    } else {
        decimal_is_read_back(i as nat);
    }
}

/// A number in hexadecimal has as many digits as were asked for, all of the case that
/// was asked for, and what can be told with so many digits is read back.
pub proof fn hexadecimal_is_read_back(n: nat, width: nat, upper: bool)
    ensures
        text::hex(n, width, upper).len() == width,
        all_digits(text::hex(n, width, upper), 16),
        n < vstd::arithmetic::power::pow(16, width) ==> reading(text::hex(n, width, upper), 16)
            == n,
        forall|i: int|
            0 <= i < width ==> {
                let code = (#[trigger] text::hex(n, width, upper)[i]) as u32;
                if upper {
                    code <= 70
                } else {
                    code <= 57 || code >= 97
                }
            },
    decreases width,
{
    let shown = text::hex(n, width, upper);
    vstd::arithmetic::power::lemma_pow0(16);
    if width > 0 {
        let front = text::hex(n / 16, (width - 1) as nat, upper);
        hexadecimal_is_read_back(n / 16, (width - 1) as nat, upper);
        hex_digit_has_its_worth((n % 16) as int, upper);
        reveal(vstd::arithmetic::power::pow);
        assert(vstd::arithmetic::power::pow(16, width) == 16 * vstd::arithmetic::power::pow(
            16,
            (width - 1) as nat,
        ));
        assert(shown.drop_last() =~= front);
        assert forall|i: int| 0 <= i < shown.len() implies 0 <= worth(#[trigger] shown[i]) < 16 by {
            if i < shown.len() - 1 {
                assert(shown[i] == front[i]);
            }
        }
        assert forall|i: int| 0 <= i < width implies {
            let code = (#[trigger] shown[i]) as u32;
            if upper {
                code <= 70
            } else {
                code <= 57 || code >= 97
            }
        } by {
            if i < shown.len() - 1 {
                assert(shown[i] == front[i]);
            } else {
                small_digit_is_no_letter((n % 16) as int, upper);
            }
        }
    }
}

proof fn small_digit_is_no_letter(d: int, upper: bool)
    requires
        0 <= d < 16,
    ensures
        d < 10 ==> text::hex_digit(d, upper) as u32 <= 57,
        upper ==> text::hex_digit(d, upper) as u32 <= 70,
        !upper && d >= 10 ==> text::hex_digit(d, upper) as u32 >= 97,
{
}

proof fn zeros_are_worth_nothing(zeros: nat, digits: Seq<char>)
    requires
        all_digits(digits, 10),
    ensures
        all_digits(Seq::new(zeros, |i: int| '0') + digits, 10),
        reading(Seq::new(zeros, |i: int| '0') + digits, 10) == reading(digits, 10),
    decreases zeros + digits.len(),
{
    let front = Seq::new(zeros, |i: int| '0');
    let whole = front + digits;
    assert(worth('0') == 0);
    if digits.len() > 0 {
        let rest = digits.drop_last();
        zeros_are_worth_nothing(zeros, rest);
        assert(whole.drop_last() =~= front + rest);
        assert(whole.last() == digits.last());
    } else if zeros > 0 {
        let fewer = Seq::new((zeros - 1) as nat, |i: int| '0');
        zeros_are_worth_nothing((zeros - 1) as nat, digits);
        assert(whole.drop_last() =~= fewer + digits);
        assert(whole.last() == '0');
    } else {
        assert(whole =~= digits);
    }
    assert forall|i: int| 0 <= i < whole.len() implies 0 <= worth(#[trigger] whole[i]) < 10 by {
        if i >= zeros {
            assert(whole[i] == digits[i - zeros]);
        }
    }
}

/// The number of a picture is read back from the front of its file's name, which has
/// six digits or, for a number that needs more, as many as it needs.
pub proof fn six_digits_are_read_back(number: u64)
    ensures
        all_digits(artifact::six_digits(number), 10),
        reading(artifact::six_digits(number), 10) == number,
        artifact::six_digits(number).len() >= 6,
        artifact::six_digits(number).len() > 6 ==> worth(artifact::six_digits(number)[0]) > 0,
{
    let digits = text::decimal(number as nat);
    decimal_is_read_back(number as nat);
    if digits.len() < 6 {
        zeros_are_worth_nothing((6 - digits.len()) as nat, digits);
    }
}

/// The file of a picture is named by the picture's number, the operation and the
/// window, in this order, with hyphens between them and the ending of its format. Where
/// no window was named, `auto` stands in its place.
pub proof fn pictures_have_telling_names(
    id: u64,
    operation: Seq<char>,
    window_id: Option<Seq<char>>,
)
    ensures
        ({
            let name = artifact::png_name(id, operation, window_id);
            let digits = artifact::six_digits(id);
            let at = digits.len() as int + 1;
            let window = artifact::plain_name(
                match window_id {
                    Some(given) => given,
                    None => seq!['a', 'u', 't', 'o'],
                },
            );
            &&& name.len() == digits.len() + operation.len() + window.len() + 6
            &&& name.take(digits.len() as int) == digits
            &&& name[digits.len() as int] == '-'
            &&& name.subrange(at, at + operation.len()) == operation
            &&& name[at + operation.len()] == '-'
            &&& name.subrange(
                at + operation.len() + 1,
                at + operation.len() + 1 + window.len(),
            ) == window
            &&& name.skip(at + operation.len() + 1 + window.len()) == seq!['.', 'p', 'n', 'g']
        }),
{
    reveal_strlit("-");
    reveal_strlit("auto");
    reveal_strlit(".png");
    assert("auto"@ =~= seq!['a', 'u', 't', 'o']);
    let name = artifact::png_name(id, operation, window_id);
    let digits = artifact::six_digits(id);
    let at = digits.len() as int + 1;
    let window = artifact::plain_name(
        match window_id {
            Some(given) => given,
            None => seq!['a', 'u', 't', 'o'],
        },
    );
    assert(name.take(digits.len() as int) =~= digits);
    assert(name.subrange(at, at + operation.len()) =~= operation);
    assert(name.subrange(at + operation.len() + 1, at + operation.len() + 1 + window.len())
        =~= window);
    assert(name.skip(at + operation.len() + 1 + window.len()) =~= seq!['.', 'p', 'n', 'g']);
}

/// Pictures of different numbers have different names.
pub proof fn pictures_are_told_apart(
    a: u64,
    b: u64,
    operation: Seq<char>,
    other: Seq<char>,
    window_id: Option<Seq<char>>,
    other_window: Option<Seq<char>>,
)
    requires
        artifact::png_name(a, operation, window_id) == artifact::png_name(b, other, other_window),
    ensures
        a == b,
{
    let name = artifact::png_name(a, operation, window_id);
    let one = artifact::six_digits(a);
    let two = artifact::six_digits(b);
    pictures_have_telling_names(a, operation, window_id);
    pictures_have_telling_names(b, other, other_window);
    six_digits_are_read_back(a);
    six_digits_are_read_back(b);
    assert(worth('-') == -1);
    if one.len() < two.len() {
        assert(two[one.len() as int] == name[one.len() as int]);
    }
    if two.len() < one.len() {
        assert(one[two.len() as int] == name[two.len() as int]);
    }
    assert(one =~= two);
}

/// In a file's name stand the first eighty characters of a text, each at its place: a
/// letter or a digit of ASCII, a hyphen or an underscore as it is, and an underscore
/// for anything else.
pub proof fn plain_names_keep_their_places(value: Seq<char>, i: int)
    requires
        0 <= i < value.len(),
    ensures
        ({
            let name = artifact::plain_name(value);
            let code = value[i] as u32;
            let stays = 48 <= code <= 57 || 65 <= code <= 90 || 97 <= code <= 122 || code == 45
                || code == 95;
            &&& name.len() == (if value.len() <= 80 {
                value.len()
            } else {
                80
            })
            &&& i < 80 && stays ==> name[i] == value[i]
            &&& i < 80 && !stays ==> name[i] == '_'
        }),
{
    plain_by_code(value[i]);
}

proof fn plain_by_code(c: char)
    ensures
        artifact::is_plain(c) <==> (48 <= c as u32 <= 57 || 65 <= c as u32 <= 90 || 97 <= c as u32
            <= 122 || c as u32 == 45 || c as u32 == 95),
{
}

/// Texts are in the order of dictionaries: at the first place where they differ the one
/// with the lower character comes first, and of two that do not differ as long as both
/// last, the shorter one.
pub proof fn texts_are_ordered_by_their_first_difference(a: Seq<char>, b: Seq<char>, at: int)
    requires
        0 <= at <= a.len(),
        at <= b.len(),
        a.take(at) == b.take(at),
    ensures
        at == b.len() ==> !windows::text_before(a, b),
        at == a.len() && at < b.len() ==> windows::text_before(a, b),
        at < a.len() && at < b.len() && a[at] != b[at] ==> windows::text_before(a, b) == ((
        a[at] as u32) < (b[at] as u32)),
    decreases at,
{
    if at > 0 {
        assert(a.take(at)[0] == a[0] && b.take(at)[0] == b[0]);
        assert(a[0] == b[0]);
        assert(a.drop_first().take(at - 1) =~= a.take(at).drop_first());
        assert(b.drop_first().take(at - 1) =~= b.take(at).drop_first());
        assert(a.drop_first().take(at - 1) == b.drop_first().take(at - 1));
        texts_are_ordered_by_their_first_difference(a.drop_first(), b.drop_first(), at - 1);
        if at < a.len() {
            assert(a.drop_first()[at - 1] == a[at]);
        }
        if at < b.len() {
            assert(b.drop_first()[at - 1] == b[at]);
        }
    }
}

proof fn digits_are_summed(digits: Seq<char>)
    requires
        all_digits(digits, 10),
    ensures
        console::number_of_digits(digits) == reading(digits, 10),
        forall|i: int| 0 <= i < digits.len() ==> '0' <= #[trigger] digits[i] <= '9',
    decreases digits.len(),
{
    assert forall|i: int| 0 <= i < digits.len() implies '0' <= #[trigger] digits[i] <= '9' by {
        digit_is_low(digits[i]);
    }
    if digits.len() > 0 {
        let rest = digits.drop_last();
        assert forall|i: int| 0 <= i < rest.len() implies 0 <= worth(#[trigger] rest[i]) < 10 by {
            assert(rest[i] == digits[i]);
        }
        digits_are_summed(rest);
        assert(digits.last() == digits[digits.len() - 1]);
        digit_is_low(digits.last());
    }
}

proof fn digit_is_low(c: char)
    requires
        0 <= worth(c) < 10,
    ensures
        '0' <= c <= '9',
        worth(c) == c as nat - '0' as nat,
{
}

/// A number that was written in decimal is the number that is read of it, with or
/// without a plus in front.
pub proof fn configured_numbers_are_read_back(n: u64)
    ensures
        console::number_in(text::decimal(n as nat)) == Some(n),
        console::number_in(seq!['+'] + text::decimal(n as nat)) == Some(n),
{
    let digits = text::decimal(n as nat);
    decimal_is_read_back(n as nat);
    digits_are_summed(digits);
    digit_is_low(digits[0]);
    assert((seq!['+'] + digits).skip(1) =~= digits);
}

} // verus!

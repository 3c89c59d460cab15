//! Ids as text: decimal digits, as they are written where an id is a string.

use crate::model::id::ChannelId;
use vstd::prelude::*;

verus! {

/// The character of a digit.
pub open spec fn digit(d: nat) -> char {
    (48 + d) as char
}

/// Whether a character is a decimal digit.
pub open spec fn is_digit(c: char) -> bool {
    48 <= c as nat <= 57
}

/// A number in decimal digits, without leading zeros.
pub open spec fn decimal(n: nat) -> Seq<char>
    decreases n,
{
    if n < 10 {
        seq![digit(n)]
    } else {
        decimal(n / 10).push(digit(n % 10))
    }
}

/// The number that decimal digits stand for.
pub open spec fn number(digits: Seq<char>) -> nat
    decreases digits.len(),
{
    if digits.len() == 0 {
        0
    } else {
        10 * number(digits.drop_last()) + (digits.last() as nat - 48) as nat
    }
}

/// The digits of a text: all of it, but for a plus sign in front.
pub open spec fn digits_of(text: Seq<char>) -> Seq<char> {
    if text.len() > 0 && text[0] == '+' {
        text.drop_first()
    } else {
        text
    }
}

/// Whether a text is a number: digits, at least one, and perhaps a plus sign in
/// front.
pub open spec fn is_number(text: Seq<char>) -> bool {
    &&& digits_of(text).len() > 0
    &&& forall|i: int| 0 <= i < digits_of(text).len() ==> is_digit(#[trigger] digits_of(text)[i])
}

/// The text of one digit.
fn digit_text(d: u64) -> (text: &'static str)
    requires
        d < 10,
    ensures
        text@ == seq![digit(d as nat)],
{
    proof {
        reveal_strlit("0");
        reveal_strlit("1");
        reveal_strlit("2");
        reveal_strlit("3");
        reveal_strlit("4");
        reveal_strlit("5");
        reveal_strlit("6");
        reveal_strlit("7");
        reveal_strlit("8");
        reveal_strlit("9");
    }
    let text = match d {
        0 => "0",
        1 => "1",
        2 => "2",
        3 => "3",
        4 => "4",
        5 => "5",
        6 => "6",
        7 => "7",
        8 => "8",
        _ => "9",
    };
    assert(text@ =~= seq![digit(d as nat)]);
    text
}

/// The text of a number.
fn decimal_text(n: u64) -> (text: String)
    ensures
        text@ == decimal(n as nat),
    decreases n,
{
    if n < 10 {
        digit_text(n).to_owned()
    } else {
        let mut text = decimal_text(n / 10);
        text.append(digit_text(n % 10));
        assert(text@ =~= decimal(n as nat));
        text
    }
}

/// Digits added at the end do not make a number smaller.
proof fn lemma_number_grows(digits: Seq<char>, i: int)
    requires
        0 <= i <= digits.len(),
    ensures
        number(digits.take(i)) <= number(digits),
    decreases digits.len() - i,
{
    if i < digits.len() {
        lemma_number_grows(digits, i + 1);
        assert(digits.take(i + 1).drop_last() =~= digits.take(i));
    } else {
        assert(digits.take(i) =~= digits);
    }
}

impl ChannelId {
    /// The id as text, in decimal digits.
    pub fn to_text(&self) -> (text: String)
        ensures
            text@ == decimal(self.0 as nat),
    {
        decimal_text(self.0)
    }

    /// The id that a text stands for: `None` if the text is no number, or one
    /// that is too large for an id.
    pub fn from_text(text: &str) -> (id: Option<ChannelId>)
        ensures
            match id {
                Some(id) => is_number(text@) && number(digits_of(text@)) == id.0,
                None => !is_number(text@) || number(digits_of(text@)) > u64::MAX,
            },
    {
        let len = text.unicode_len();
        let first: usize = if len > 0 && text.get_char(0) == '+' {
            1
        } else {
            0
        };
        if first == len {
            return None;
        }
        let ghost digits = digits_of(text@);
        assert(digits =~= text@.skip(first as int));
        let mut n: u64 = 0;
        let mut i: usize = first;
        while i < len
            invariant
                first <= i <= len,
                len == text@.len(),
                digits == digits_of(text@),
                digits == text@.skip(first as int),
                forall|j: int| 0 <= j < i - first ==> is_digit(#[trigger] digits[j]),
                n == number(digits.take(i - first)),
            decreases len - i,
        {
            let c = text.get_char(i);
            assert(c == digits[i - first]);
            if c < '0' || c > '9' {
                return None;
            }
            let d: u64 = c as u64 - 48;
            proof {
                assert(digits.take(i - first + 1).drop_last() =~= digits.take(i - first));
                lemma_number_grows(digits, i - first + 1);
            }
            n = match n.checked_mul(10) {
                Some(n) => n,
                None => return None,
            };
            n = match n.checked_add(d) {
                Some(n) => n,
                None => return None,
            };
            i += 1;
        }
        assert(digits.take(len - first) =~= digits);
        Some(ChannelId(n))
    }
}

/// The decimal digits of a number are digits, and stand for that number.
proof fn lemma_decimal(n: nat)
    ensures
        decimal(n).len() > 0,
        forall|i: int| 0 <= i < decimal(n).len() ==> is_digit(#[trigger] decimal(n)[i]),
        number(decimal(n)) == n,
    decreases n,
{
    reveal_with_fuel(number, 2);
    if n >= 10 {
        lemma_decimal(n / 10);
        assert(decimal(n).drop_last() =~= decimal(n / 10));
    } else {
        assert(decimal(n).drop_last() =~= Seq::<char>::empty());
    }
}

/// What is read from the text of an id is that id.
pub proof fn an_id_is_read_back_from_its_text(id: ChannelId)
    ensures
        is_number(decimal(id.0 as nat)),
        number(digits_of(decimal(id.0 as nat))) == id.0,
{
    lemma_decimal(id.0 as nat);
    assert(is_digit(decimal(id.0 as nat)[0]));
}

/// The text of a number consists of digits, of which the first is a zero only if
/// it is the only one.
pub proof fn the_text_of_an_id_has_no_leading_zeros(id: ChannelId)
    ensures
        ({
            let text = decimal(id.0 as nat);
            &&& text.len() > 0
            &&& forall|i: int|
                0 <= i < text.len() ==> '0' as nat <= #[trigger] text[i] as nat <= '9' as nat
            &&& text.len() > 1 ==> text[0] != '0'
        }),
{
    lemma_decimal(id.0 as nat);
    lemma_no_leading_zeros(id.0 as nat);
}

/// The first digit of a number with several digits is not a zero.
proof fn lemma_no_leading_zeros(n: nat)
    ensures
        decimal(n).len() > 0,
        n > 0 ==> decimal(n)[0] != '0',
        decimal(n).len() > 1 ==> n > 0,
    decreases n,
{
    if n >= 10 {
        lemma_no_leading_zeros(n / 10);
    }
}

/// Each digit counts ten times as much as the one behind it.
pub proof fn digits_count_by_tens(digits: Seq<char>, last: char)
    requires
        '0' as nat <= last as nat <= '9' as nat,
    ensures
        number(Seq::empty()) == 0,
        number(digits.push(last)) == 10 * number(digits) + (last as nat - '0' as nat),
{
    assert(digits.push(last).drop_last() =~= digits);
}

/// A text is a number exactly if it is one digit or more, after a plus sign or
/// without one. The plus sign does not count.
pub proof fn a_number_is_digits_and_perhaps_a_plus_sign(digits: Seq<char>)
    requires
        digits.len() > 0 ==> digits[0] != '+',
    ensures
        ({
            let all_digits = digits.len() > 0 && forall|i: int|
                0 <= i < digits.len() ==> '0' as nat <= #[trigger] digits[i] as nat <= '9' as nat;
            let signed = seq!['+'] + digits;
            &&& is_number(digits) == all_digits
            &&& is_number(signed) == all_digits
            &&& digits_of(digits) == digits
            &&& digits_of(signed) == digits
        }),
{
    let signed = seq!['+'] + digits;
    assert(digits_of(signed) =~= digits);
}

} // verus!

//! Reading an unsigned 32-bit number from decimal text, and writing one.

use vstd::prelude::*;
use vstd::string::StringExecFns;

verus! {

/// Whether `c` is one of the digits `0` to `9`.
pub open spec fn is_digit(c: char) -> bool {
    '0' <= c && c <= '9'
}

/// The number that the digit `c` stands for.
pub open spec fn digit_value(c: char) -> nat {
    (c as u32 - '0' as u32) as nat
}

/// Whether `text` is made of digits only.
pub open spec fn all_digits(text: Seq<char>) -> bool {
    forall|i: int| 0 <= i < text.len() ==> is_digit(#[trigger] text[i])
}

/// The number that a text of digits stands for, read in base ten.
pub open spec fn digits_value(text: Seq<char>) -> nat
    decreases text.len(),
{
    if text.len() == 0 {
        0
    } else {
        digits_value(text.drop_last()) * 10 + digit_value(text.last())
    }
}

/// The digits of `text`: what follows a leading `+`, or all of it.
pub open spec fn unsigned_part(text: Seq<char>) -> Seq<char> {
    if text.len() > 0 && text[0] == '+' {
        text.drop_first()
    } else {
        text
    }
}

/// The number that `text` stands for: an optional `+`, then one digit or
/// more, the whole no larger than `u32::MAX`. Any other text is no number.
pub open spec fn decimal_u32(text: Seq<char>) -> Option<u32> {
    let digits = unsigned_part(text);
    if digits.len() > 0 && all_digits(digits) && digits_value(digits) <= u32::MAX {
        Some(digits_value(digits) as u32)
    } else {
        None
    }
}

/// A text of digits stands for no less than any of its beginnings.
pub proof fn lemma_value_grows(text: Seq<char>, n: int)
    requires
        0 <= n <= text.len(),
    ensures
        digits_value(text.take(n)) <= digits_value(text),
    decreases text.len() - n,
{
    if n == text.len() {
        assert(text.take(n) == text);
    } else {
        let longer = text.take(n + 1);
        assert(longer.drop_last() == text.take(n));
        lemma_value_grows(text, n + 1);
    }
}

/// Reads the number that `text` stands for.
pub fn parse_u32(text: &str) -> (number: Option<u32>)
    ensures
        number == decimal_u32(text@),
{
    let ghost digits = unsigned_part(text@);
    let ghost skip: int = text@.len() - digits.len();
    let mut value: u32 = 0;
    let mut first: bool = true;
    let mut seen: bool = false;
    let mut failed: bool = false;
    for c in it: text.chars()
        invariant
            it.seq() == text@,
            digits == unsigned_part(text@),
            skip == text@.len() - digits.len(),
            0 <= skip <= 1,
            first == (it.index() == 0),
            first ==> !seen && !failed && value == 0,
            failed ==> decimal_u32(text@) is None,
            !failed && !first ==> {
                &&& it.index() - skip >= 0
                &&& all_digits(digits.take(it.index() - skip))
                &&& value == digits_value(digits.take(it.index() - skip))
                &&& seen == (it.index() - skip > 0)
            },
    {
        let ghost at: int = it.index() - skip;
        assert(c == text@[it.index() as int]);
        if failed {
        } else if first && c == '+' {
            proof {
                assert(skip == 1);
                assert(digits.take(0) =~= Seq::<char>::empty());
            }
        } else if '0' <= c && c <= '9' {
            let d: u32 = c as u32 - '0' as u32;
            proof {
                if first {
                    assert(skip == 0);
                    assert(digits.take(0) =~= Seq::<char>::empty());
                }
                assert(digits[at] == c);
                let longer = digits.take(at + 1);
                assert(longer.drop_last() =~= digits.take(at));
                assert(longer.last() == c);
                assert forall|i: int| 0 <= i < longer.len() implies is_digit(
                    #[trigger] longer[i],
                ) by {
                    if i < at {
                        assert(digits.take(at)[i] == longer[i]);
                    }
                }
                lemma_value_grows(digits, at + 1);
            }
            if value > 429496729 || (value == 429496729 && d > 5) {
                failed = true;
            } else {
                value = value * 10 + d;
                seen = true;
            }
        } else {
            proof {
                if first {
                    assert(skip == 0);
                }
                assert(digits[at] == c);
                assert(!is_digit(digits[at]));
            }
            failed = true;
        }
        first = false;
    }
    proof {
        if !failed && !first {
            assert(digits.take(digits.len() as int) =~= digits);
        }
    }
    if failed || !seen {
        None
    } else {
        Some(value)
    }
}

/// The digit that stands for `d`, a number below ten.
pub open spec fn digit_char(d: nat) -> char {
    if d == 0 {
        '0'
    } else if d == 1 {
        '1'
    } else if d == 2 {
        '2'
    } else if d == 3 {
        '3'
    } else if d == 4 {
        '4'
    } else if d == 5 {
        '5'
    } else if d == 6 {
        '6'
    } else if d == 7 {
        '7'
    } else if d == 8 {
        '8'
    } else {
        '9'
    }
}

/// The digits of `n` in base ten, without a sign and without leading zeros.
pub open spec fn decimal_text(n: nat) -> Seq<char>
    decreases n,
{
    if n < 10 {
        seq![digit_char(n)]
    } else {
        decimal_text(n / 10).push(digit_char(n % 10))
    }
}

/// The text of a number is made of digits, and stands for the number.
pub proof fn lemma_text_value(n: nat)
    ensures
        decimal_text(n).len() > 0,
        all_digits(decimal_text(n)),
        digits_value(decimal_text(n)) == n,
    decreases n,
{
    let text = decimal_text(n);
    if n < 10 {
        assert(text.drop_last() =~= Seq::<char>::empty());
        assert(digits_value(text.drop_last()) == 0);
        assert(text.last() == digit_char(n));
    } else {
        lemma_text_value(n / 10);
        let front = decimal_text(n / 10);
        assert(text.drop_last() =~= front);
        assert(text.last() == digit_char(n % 10));
        assert forall|i: int| 0 <= i < text.len() implies is_digit(#[trigger] text[i]) by {
            if i < front.len() {
                assert(text[i] == front[i]);
            }
        }
    }
}

/// A number that is written and read back is the same number.
pub proof fn lemma_write_then_read(n: u32)
    ensures
        decimal_u32(decimal_text(n as nat)) == Some(n),
{
    lemma_text_value(n as nat);
    let text = decimal_text(n as nat);
    assert(is_digit(text[0]));
    assert(unsigned_part(text) == text);
}

/// The text of one digit.
fn digit_text(d: u32) -> (text: &'static str)
    requires
        d < 10,
    ensures
        text@ == seq![digit_char(d as nat)],
{
    proof {
        reveal_strlit("0");
        reveal_strlit("1");
        reveal_strlit("2");
        reveal_strlit("3");
        reveal_strlit("4");
        reveal_strlit("5");
        reveal_strlit("6");
        reveal_strlit("7");
        reveal_strlit("8");
        reveal_strlit("9");
    }
    let text = if d == 0 {
        "0"
    } else if d == 1 {
        "1"
    } else if d == 2 {
        "2"
    } else if d == 3 {
        "3"
    } else if d == 4 {
        "4"
    } else if d == 5 {
        "5"
    } else if d == 6 {
        "6"
    } else if d == 7 {
        "7"
    } else if d == 8 {
        "8"
    } else {
        "9"
    };
    assert(text@ =~= seq![digit_char(d as nat)]);
    text
}

/// Writes `n` in base ten.
pub fn write_u32(n: u32) -> (text: String)
    ensures
        text@ == decimal_text(n as nat),
    decreases n,
{
    if n < 10 {
        digit_text(n).to_owned()
    } else {
        let mut text = write_u32(n / 10);
        text.append(digit_text(n % 10));
        assert(text@ =~= decimal_text(n as nat));
        text
    }
}

} // verus!

//! Positions as text: reading one from what the user typed, and writing one
//! for a listing.
//!
//! A position is read from decimal digits with an optional plus sign in
//! front. Anything else, and any number too large for the machine, is turned
//! down before the catalog is asked. A position is written without sign and
//! without leading zeros.

use crate::catalog::CatalogError;
use vstd::prelude::*;
use vstd::std_specs::iter::IteratorSpec;
use vstd::string::StringExecFns;

verus! {

/// The character is one of the ten decimal digits.
pub open spec fn is_digit(c: char) -> bool {
    '0' <= c && c <= '9'
}

/// The number that a decimal digit stands for.
pub open spec fn digit_value(c: char) -> nat {
    (c as int - '0' as int) as nat
}

/// Every character is a decimal digit.
pub open spec fn all_digits(s: Seq<char>) -> bool {
    forall|i: int| 0 <= i < s.len() ==> is_digit(#[trigger] s[i])
}

/// The number that a run of decimal digits stands for.
pub open spec fn decimal_value(s: Seq<char>) -> nat
    decreases s.len(),
{
    if s.len() == 0 {
        0
    } else {
        10 * decimal_value(s.drop_last()) + digit_value(s.last())
    }
}

/// How many characters the sign takes: one for a leading plus sign.
pub open spec fn sign_len(s: Seq<char>) -> int {
    if s.len() > 0 && s[0] == '+' {
        1
    } else {
        0
    }
}

/// The number that a text stands for: at least one decimal digit and nothing
/// else behind an optional plus sign.
pub open spec fn index_value(s: Seq<char>) -> Option<nat> {
    let body = s.skip(sign_len(s));
    if body.len() > 0 && all_digits(body) {
        Some(decimal_value(body))
    } else {
        None
    }
}

/// The result of reading `s` as a position on this machine.
pub open spec fn parsed_index(s: Seq<char>) -> Result<usize, CatalogError> {
    match index_value(s) {
        Some(n) => if n <= usize::MAX {
            Ok(n as usize)
        } else {
            Err(CatalogError::InvalidIndex)
        },
        None => Err(CatalogError::InvalidIndex),
    }
}

/// The value of a run of digits is at least the value of each of its
/// beginnings.
pub proof fn lemma_decimal_value_grows(s: Seq<char>, k: int)
    requires
        0 <= k <= s.len(),
    ensures
        decimal_value(s.take(k)) <= decimal_value(s),
    decreases s.len() - k,
{
    if k < s.len() {
        lemma_decimal_value_grows(s, k + 1);
        assert(s.take(k + 1).drop_last() =~= s.take(k));
    } else {
        assert(s.take(k) =~= s);
    }
}

/// Reads a position from `text`.
pub fn parse_index(text: &str) -> (r: Result<usize, CatalogError>)
    ensures
        r == parsed_index(text@),
{
    let ghost offset = sign_len(text@);
    let ghost body = text@.skip(offset);
    let mut value: usize = 0;
    let mut first = true;
    let mut any = false;
    for c in it: text.chars()
        invariant
            it.seq() == text@,
            offset == sign_len(text@),
            body == text@.skip(offset),
            first <==> it.index() == 0,
            !first ==> it.index() >= offset,
            !first ==> all_digits(body.take(it.index() - offset)),
            !first ==> value == decimal_value(body.take(it.index() - offset)),
            first ==> value == 0 && !any,
            !first ==> (any <==> it.index() - offset > 0),
    {
        let ghost at = it.index() as int;
        assert(c == text@[at]);
        if first && c == '+' {
            first = false;
            proof {
                assert(body.take(0) =~= Seq::<char>::empty());
            }
        } else {
            proof {
                if first {
                    assert(body.take(0) =~= Seq::<char>::empty());
                }
                assert(body[at - offset] == c);
                assert(body.take(at - offset + 1).drop_last() =~= body.take(at - offset));
            }
            first = false;
            if !(c >= '0' && c <= '9') {
                return Err(CatalogError::InvalidIndex);
            }
            let digit: usize = (c as usize) - ('0' as usize);
            proof {
                let upto = body.take(at - offset + 1);
                assert(upto.last() == c);
                assert(digit_value(c) == digit);
                assert(decimal_value(upto) == 10 * decimal_value(upto.drop_last()) + digit_value(
                    upto.last(),
                ));
                assert(decimal_value(upto) == 10 * value + digit);
                assert forall|i: int| 0 <= i < upto.len() implies is_digit(#[trigger] upto[i]) by {
                    if i < upto.len() - 1 {
                        assert(upto[i] == body.take(at - offset)[i]);
                    }
                }
            }
            let next = match value.checked_mul(10) {
                Some(tens) => tens.checked_add(digit),
                None => None,
            };
            match next {
                Some(n) => {
                    value = n;
                    any = true;
                },
                None => {
                    proof {
                        lemma_decimal_value_grows(body, at - offset + 1);
                    }
                    return Err(CatalogError::InvalidIndex);
                },
            }
        }
    }
    proof {
        assert(body.take(body.len() as int) =~= body);
    }
    if any {
        Ok(value)
    } else {
        Err(CatalogError::InvalidIndex)
    }
}

/// The character for a digit below ten.
pub open spec fn digit_char(d: nat) -> char {
    if d == 0 {
        '0'
    } else if d == 1 {
        '1'
    } else if d == 2 {
        '2'
    } else if d == 3 {
        '3'
    } else if d == 4 {
        '4'
    } else if d == 5 {
        '5'
    } else if d == 6 {
        '6'
    } else if d == 7 {
        '7'
    } else if d == 8 {
        '8'
    } else {
        '9'
    }
}

/// A number in decimal digits, without leading zeros.
pub open spec fn decimal_text(n: nat) -> Seq<char>
    decreases n,
{
    if n < 10 {
        seq![digit_char(n)]
    } else {
        decimal_text(n / 10).push(digit_char(n % 10))
    }
}

/// What is written for a number is read back as that number.
pub proof fn lemma_decimal_round_trip(n: nat)
    ensures
        decimal_text(n).len() > 0,
        all_digits(decimal_text(n)),
        decimal_value(decimal_text(n)) == n,
        index_value(decimal_text(n)) == Some(n),
    decreases n,
{
    let text = decimal_text(n);
    if n < 10 {
        assert(text.drop_last() =~= Seq::<char>::empty());
        assert(decimal_value(text.drop_last()) == 0);
        assert(text.last() == digit_char(n));
    } else {
        lemma_decimal_round_trip(n / 10);
        assert(text.drop_last() =~= decimal_text(n / 10));
        assert(text.last() == digit_char(n % 10));
        assert forall|i: int| 0 <= i < text.len() implies is_digit(#[trigger] text[i]) by {
            if i < text.len() - 1 {
                assert(text[i] == decimal_text(n / 10)[i]);
            }
        }
    }
    assert(text[0] != '+');
    assert(text.skip(0) =~= text);
}

/// The text of one digit.
fn digit_str(d: usize) -> (r: &'static str)
    requires
        d < 10,
    ensures
        r@ == seq![digit_char(d as nat)],
{
    proof {
        reveal_strlit("0");
        reveal_strlit("1");
        reveal_strlit("2");
        reveal_strlit("3");
        reveal_strlit("4");
        reveal_strlit("5");
        reveal_strlit("6");
        reveal_strlit("7");
        reveal_strlit("8");
        reveal_strlit("9");
    }
    let r = if d == 0 {
        "0"
    } else if d == 1 {
        "1"
    } else if d == 2 {
        "2"
    } else if d == 3 {
        "3"
    } else if d == 4 {
        "4"
    } else if d == 5 {
        "5"
    } else if d == 6 {
        "6"
    } else if d == 7 {
        "7"
    } else if d == 8 {
        "8"
    } else {
        "9"
    };
    assert(r@ =~= seq![digit_char(d as nat)]);
    r
}

/// Writes a position in decimal digits.
pub fn decimal(n: usize) -> (r: String)
    ensures
        r@ == decimal_text(n as nat),
{
    let mut text = String::from_str(digit_str(n % 10));
    let mut rest = n / 10;
    while rest > 0
        invariant
            decimal_text(n as nat) == if rest > 0 {
                decimal_text(rest as nat) + text@
            } else {
                text@
            },
        decreases rest,
    {
        let ghost old_text = text@;
        let digit = digit_str(rest % 10);
        text = String::from_str(digit).concat(text.as_str());
        proof {
            if rest < 10 {
                assert(decimal_text(rest as nat) + old_text =~= text@);
            } else {
                assert(decimal_text(rest as nat) + old_text =~= decimal_text((rest / 10) as nat)
                    + text@);
            }
        }
        rest = rest / 10;
    }
    text
}

} // verus!

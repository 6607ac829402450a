//! Numeric helpers that the host can call.

use vstd::prelude::*;
use crate::errors::NativeError;

verus! {

/// The character that stands for a decimal digit.
pub open spec fn digit(value: int) -> char
    recommends
        0 <= value < 10,
{
    if value == 0 {
        '0'
    } else if value == 1 {
        '1'
    } else if value == 2 {
        '2'
    } else if value == 3 {
        '3'
    } else if value == 4 {
        '4'
    } else if value == 5 {
        '5'
    } else if value == 6 {
        '6'
    } else if value == 7 {
        '7'
    } else if value == 8 {
        '8'
    } else {
        '9'
    }
}

/// A number written in decimal: no sign, no leading zero, `0` for zero.
pub open spec fn decimal(n: nat) -> Seq<char>
    decreases n,
{
    if n < 10 {
        seq![digit(n as int)]
    } else {
        decimal(n / 10).push(digit((n % 10) as int))
    }
}

/// The one-character text of a digit.
fn digit_text(value: usize) -> (text: &'static str)
    requires
        value < 10,
    ensures
        text@ == seq![digit(value as int)],
{
    proof {
        reveal_strlit("0");
        reveal_strlit("1");
        reveal_strlit("2");
        reveal_strlit("3");
        reveal_strlit("4");
        reveal_strlit("5");
        reveal_strlit("6");
        reveal_strlit("7");
        reveal_strlit("8");
        reveal_strlit("9");
    }
    let text = if value == 0 {
        "0"
    } else if value == 1 {
        "1"
    } else if value == 2 {
        "2"
    } else if value == 3 {
        "3"
    } else if value == 4 {
        "4"
    } else if value == 5 {
        "5"
    } else if value == 6 {
        "6"
    } else if value == 7 {
        "7"
    } else if value == 8 {
        "8"
    } else {
        "9"
    };
    assert(text@ =~= seq![digit(value as int)]);
    text
}

/// Writes a number in decimal.
pub fn to_decimal(n: usize) -> (text: String)
    ensures
        text@ == decimal(n as nat),
    decreases n,
{
    if n < 10 {
        String::from_str(digit_text(n))
    } else {
        let mut text = to_decimal(n / 10);
        text.append(digit_text(n % 10));
        assert(text@ =~= decimal((n / 10) as nat).push(digit((n % 10) as int)));
        text
    }
}

/// The sum of `a` and `b`, written in decimal. The sum has to fit the
/// machine word.
pub fn sum_as_string(a: usize, b: usize) -> (outcome: Result<String, NativeError>)
    requires
        a + b <= usize::MAX,
    ensures
        outcome matches Ok(text) && text@ == decimal((a + b) as nat),
{
    Ok(to_decimal(a + b))
}

/// Three times `x`. The product has to fit the machine word.
pub fn triple(x: usize) -> (product: usize)
    requires
        3 * x <= usize::MAX,
    ensures
        product == 3 * x,
{
    x * 3
}

/// The version of the interface that the host is offered.
pub fn version() -> (number: usize)
    ensures
        number == 1,
{
    1
}

} // verus!

//! Numbers written in hexadecimal, for the messages of the errors.

use vstd::prelude::*;
use vstd::string::StringExecFns;

verus! {

/// The sixteen hexadecimal digits, with capital letters.
pub open spec fn hex_digits() -> Seq<char> {
    seq!['0', '1', '2', '3', '4', '5', '6', '7', '8', '9', 'A', 'B', 'C', 'D', 'E', 'F']
}

/// `value` in hexadecimal with capital letters: its digits to the base
/// sixteen, the highest first, with no zero in front; `0` for zero.
pub open spec fn upper_hex(value: nat) -> Seq<char>
    decreases value,
{
    if value < 16 {
        seq![hex_digits()[value as int]]
    } else {
        upper_hex(value / 16).push(hex_digits()[(value % 16) as int])
    }
}

/// The hexadecimal digit for `digit`, as text.
fn digit_text(digit: u16) -> (text: &'static str)
    requires
        digit < 16,
    ensures
        text@ == seq![hex_digits()[digit as int]],
{
    proof {
        reveal_strlit("0");
        reveal_strlit("1");
        reveal_strlit("2");
        reveal_strlit("3");
        reveal_strlit("4");
        reveal_strlit("5");
        reveal_strlit("6");
        reveal_strlit("7");
        reveal_strlit("8");
        reveal_strlit("9");
        reveal_strlit("A");
        reveal_strlit("B");
        reveal_strlit("C");
        reveal_strlit("D");
        reveal_strlit("E");
        reveal_strlit("F");
    }
    let text = match digit {
        0 => "0",
        1 => "1",
        2 => "2",
        3 => "3",
        4 => "4",
        5 => "5",
        6 => "6",
        7 => "7",
        8 => "8",
        9 => "9",
        10 => "A",
        11 => "B",
        12 => "C",
        13 => "D",
        14 => "E",
        _ => "F",
    };
    assert(text@ =~= seq![hex_digits()[digit as int]]);
    text
}

/// Writes `value` in hexadecimal with capital letters.
pub fn to_upper_hex(value: u16) -> (text: String)
    ensures
        text@ == upper_hex(value as nat),
    decreases value,
{
    if value < 16 {
        String::from_str(digit_text(value))
    } else {
        let mut text = to_upper_hex(value / 16);
        text.append(digit_text(value % 16));
        assert(text@ =~= upper_hex(value as nat));
        text
    }
}

} // verus!

//! Port numbers as Docker writes them.

use crate::text::chars_of;
use vstd::prelude::*;
use vstd::string::*;

verus! {

/// Why a text is no port number.
#[derive(Debug, Clone, Copy, PartialEq, Eq, Structural)]
pub enum NumberFault {
    /// It is empty.
    Empty,
    /// It holds something that is no digit.
    InvalidDigit,
    /// The number is too large.
    TooLarge,
}

impl NumberFault {
    /// What is wrong, in words.
    pub open spec fn words(self) -> Seq<char> {
        match self {
            NumberFault::Empty => "cannot parse integer from empty string"@,
            NumberFault::InvalidDigit => "invalid digit found in string"@,
            NumberFault::TooLarge => "number too large to fit in target type"@,
        }
    }

    /// What is wrong, in words.
    pub fn text(self) -> (res: &'static str)
        ensures
            res@ == self.words(),
    {
        match self {
            NumberFault::Empty => "cannot parse integer from empty string",
            NumberFault::InvalidDigit => "invalid digit found in string",
            NumberFault::TooLarge => "number too large to fit in target type",
        }
    }
}

/// The port number that digits stand for.
pub open spec fn digits_value(digits: Seq<char>) -> Result<nat, NumberFault>
    decreases digits.len(),
{
    if digits.len() == 0 {
        Ok(0)
    } else {
        match digits_value(digits.drop_last()) {
            Err(fault) => Err(fault),
            Ok(before) => if !('0' <= digits.last() <= '9') {
                Err(NumberFault::InvalidDigit)
            } else {
                let value = before * 10 + (digits.last() as u32 - '0' as u32);
                if value > 65535 {
                    Err(NumberFault::TooLarge)
                } else {
                    Ok(value as nat)
                }
            },
        }
    }
}

/// The port number that a text stands for: digits, with a plus sign in front
/// or not.
pub open spec fn port_value(text: Seq<char>) -> Result<nat, NumberFault> {
    if text.len() == 0 {
        Err(NumberFault::Empty)
    } else if text == seq!['+'] {
        Err(NumberFault::InvalidDigit)
    } else if text[0] == '+' {
        digits_value(text.drop_first())
    } else {
        digits_value(text)
    }
}

/// The port number that a text stands for.
pub fn parse_port(text: &str) -> (res: Result<u16, NumberFault>)
    ensures
        match res {
            Ok(port) => port_value(text@) == Ok::<nat, NumberFault>(port as nat),
            Err(fault) => port_value(text@) == Err::<nat, NumberFault>(fault),
        },
{
    let chars = chars_of(text);
    if chars.len() == 0 {
        return Err(NumberFault::Empty);
    }
    let mut start: usize = 0;
    if chars[0] == '+' {
        if chars.len() == 1 {
            assert(text@ =~= seq!['+']);
            return Err(NumberFault::InvalidDigit);
        }
        start = 1;
    }
    let ghost digits = text@.skip(start as int);
    assert(text@.skip(1) =~= text@.drop_first());
    assert(text@.skip(0) =~= text@);
    let mut value: u32 = 0;
    let mut i: usize = start;
    assert(digits.take(0) =~= Seq::empty());
    while i < chars.len()
        invariant
            chars@ == text@,
            start <= i <= chars@.len(),
            digits == text@.skip(start as int),
            value <= 65535,
            digits_value(digits.take(i - start)) == Ok::<nat, NumberFault>(value as nat),
            port_value(text@) == digits_value(digits),
        decreases chars@.len() - i,
    {
        assert(digits.take(i - start + 1).drop_last() =~= digits.take(i - start));
        let ch = chars[i];
        if !('0' <= ch && ch <= '9') {
            proof {
                fault_stays(digits, i - start + 1);
            }
            return Err(NumberFault::InvalidDigit);
        }
        let next: u32 = value * 10 + (ch as u32 - 48);
        if next > 65535 {
            proof {
                fault_stays(digits, i - start + 1);
            }
            return Err(NumberFault::TooLarge);
        }
        value = next;
        i = i + 1;
    }
    assert(digits.take(digits.len() as int) =~= digits);
    Ok(value as u16)
}

proof fn fault_stays(digits: Seq<char>, count: int)
    requires
        0 <= count <= digits.len(),
        digits_value(digits.take(count)) is Err,
    ensures
        digits_value(digits) == digits_value(digits.take(count)),
    decreases digits.len() - count,
{
    if count == digits.len() {
        assert(digits.take(count) =~= digits);
    } else {
        assert(digits.take(count + 1).drop_last() =~= digits.take(count));
        fault_stays(digits, count + 1);
    }
}

} // verus!

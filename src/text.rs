//! The strings that the display shows, and how the counter becomes text.
use numtoa::NumToA;
use vstd::prelude::*;

verus! {

/// Size of the buffer that the counter is formatted into: enough for the
/// ten decimal digits of `u32::MAX`.
pub const DIGITS_LEN: usize = 10;

/// The character for one decimal digit.
pub open spec fn digit_char(d: nat) -> char {
    if d == 0 {
        '0'
    } else if d == 1 {
        '1'
    } else if d == 2 {
        '2'
    } else if d == 3 {
        '3'
    } else if d == 4 {
        '4'
    } else if d == 5 {
        '5'
    } else if d == 6 {
        '6'
    } else if d == 7 {
        '7'
    } else if d == 8 {
        '8'
    } else {
        '9'
    }
}

/// Base-10 representation of `n`: no sign, no leading zeros, "0" for zero.
pub open spec fn decimal_chars(n: nat) -> Seq<char>
    decreases n,
{
    if n < 10 {
        seq![digit_char(n)]
    } else {
        decimal_chars(n / 10).push(digit_char(n % 10))
    }
}

/// Relies on numtoa's `NumToA::numtoa_str` for `u32` in base 10: it writes the
/// decimal digits of `n` at the end of the buffer (ten bytes hold every `u32`,
/// so it does not panic) and returns them as a string slice of that buffer.
#[verifier::external_body]
fn numtoa_decimal<'a>(n: u32, buf: &'a mut [u8; DIGITS_LEN]) -> (r: &'a str)
    ensures
        r@ == decimal_chars(n as nat),
{
    n.numtoa_str(10, buf)
}

/// A string that the display shows.
#[derive(Clone, Copy, Debug, PartialEq, Eq, Structural)]
pub enum Text {
    /// The loop counter, in base 10.
    Counter(u32),
    /// The unit after the counter: "g".
    Unit,
    /// The label at the top of the screen: "Grinding...".
    Title,
}

/// The characters of a text.
pub open spec fn text_chars(t: Text) -> Seq<char> {
    match t {
        Text::Counter(n) => decimal_chars(n as nat),
        Text::Unit => seq!['g'],
        Text::Title => seq!['G', 'r', 'i', 'n', 'd', 'i', 'n', 'g', '.', '.', '.'],
    }
}

impl Text {
    /// The characters to draw; the counter is formatted into `buf`, which is
    /// reused from frame to frame.
    pub fn render<'a>(self, buf: &'a mut [u8; DIGITS_LEN]) -> (r: &'a str)
        ensures
            r@ == text_chars(self),
    {
        match self {
            Text::Counter(n) => numtoa_decimal(n, buf),
            Text::Unit => {
                let s = "g";
                proof {
                    reveal_strlit("g");
                }
                s
            },
            Text::Title => {
                let s = "Grinding...";
                proof {
                    reveal_strlit("Grinding...");
                }
                s
            },
        }
    }
}

} // verus!

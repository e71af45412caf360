use vstd::prelude::*;
use crate::word::DSB;

verus! {

/// The character of one digit below 16: `0`-`9`, then `a`-`f`.
pub open spec fn digit_char(d: nat) -> char {
    if d < 10 {
        (48 + d) as char
    } else {
        (87 + d) as char
    }
}

/// `n` written in decimal, without leading zeros.
pub open spec fn decimal_text(n: nat) -> Seq<char>
    decreases n,
{
    if n < 10 {
        seq![digit_char(n)]
    } else {
        decimal_text(n / 10) + seq![digit_char(n % 10)]
    }
}

/// `n` written in lower-case hexadecimal, without leading zeros.
pub open spec fn hex_text(n: nat) -> Seq<char>
    decreases n,
{
    if n < 16 {
        seq![digit_char(n)]
    } else {
        hex_text(n / 16) + seq![digit_char(n % 16)]
    }
}

/// The one-character text of digit `d`.
fn digit_str(d: u128) -> (r: &'static str)
    requires
        d < 16,
    ensures
        r@ == seq![digit_char(d as nat)],
{
    let digits = "0123456789abcdef";
    proof {
        reveal_strlit("0123456789abcdef");
        assert(digits@ =~= seq![
            '0', '1', '2', '3', '4', '5', '6', '7', '8', '9', 'a', 'b', 'c', 'd', 'e', 'f',
        ]);
    }
    let i = d as usize;
    let r = digits.substring_char(i, i + 1);
    proof {
        assert(r@ =~= seq![digits@[i as int]]);
    }
    r
}

/// `n` in decimal (see `decimal_text`).
pub fn decimal_string(n: u128) -> (r: String)
    ensures
        r@ == decimal_text(n as nat),
    decreases n,
{
    if n < 10 {
        String::from_str(digit_str(n))
    } else {
        let mut s = decimal_string(n / 10);
        s.append(digit_str(n % 10));
        s
    }
}

fn hex_string(n: u128) -> (r: String)
    ensures
        r@ == hex_text(n as nat),
    decreases n,
{
    if n < 16 {
        String::from_str(digit_str(n))
    } else {
        let mut s = hex_string(n / 16);
        s.append(digit_str(n % 16));
        s
    }
}

impl DSB {
    /// The value in decimal; a flag as `true` or `false`.
    pub fn as_string(&self) -> (r: String)
        ensures
            self is Flag ==> r@ == (if self.value() == 1 { "true"@ } else { "false"@ }),
            !(self is Flag) ==> r@ == decimal_text(self.value()),
    {
        match self {
            DSB::Flag(f) => if *f {
                String::from_str("true")
            } else {
                String::from_str("false")
            },
            _ => decimal_string(self.to_u128()),
        }
    }

    /// The value in hexadecimal, after `0x`.
    pub fn as_hex(&self) -> (r: String)
        ensures
            r@ == "0x"@ + hex_text(self.value()),
    {
        let mut s = String::from_str("0x");
        s.append(hex_string(self.to_u128()).as_str());
        s
    }
}

} // verus!

//! The native ROX token and its fractional lamports.

use vstd::prelude::*;

verus! {

/// There are 10^9 lamports in one ROX.
pub const LAMPORTS_PER_ROX: u64 = 1_000_000_000;

/// An amount of lamports, wrapped for rendering as a ROX amount.
#[derive(Clone, Copy, Debug, PartialEq, Eq, Structural)]
pub struct Rox(pub u64);

/// The character standing for the decimal digit `d`.
pub open spec fn digit_char(d: int) -> char {
    if d == 0 {
        '0'
    } else if d == 1 {
        '1'
    } else if d == 2 {
        '2'
    } else if d == 3 {
        '3'
    } else if d == 4 {
        '4'
    } else if d == 5 {
        '5'
    } else if d == 6 {
        '6'
    } else if d == 7 {
        '7'
    } else if d == 8 {
        '8'
    } else {
        '9'
    }
}

/// The decimal rendering of `n`, most significant digit first, with no
/// leading zeroes (a single `0` for zero itself).
pub open spec fn spec_decimal(n: nat) -> Seq<char>
    decreases n,
{
    if n < 10 {
        seq![digit_char(n as int)]
    } else {
        spec_decimal(n / 10).push(digit_char((n % 10) as int))
    }
}

/// The decimal rendering of `n` in exactly `width` digits, zero-padded on
/// the left; only the lowest `width` digits of `n` appear.
pub open spec fn spec_decimal_padded(n: nat, width: nat) -> Seq<char>
    decreases width,
{
    if width == 0 {
        Seq::<char>::empty()
    } else {
        spec_decimal_padded(n / 10, (width - 1) as nat).push(digit_char((n % 10) as int))
    }
}

/// The rendering of a lamport amount as a ROX amount: the token symbol, the
/// whole ROX units, a dot, and the remaining lamports as a nine-digit
/// zero-padded fraction.
pub open spec fn spec_rox_display(lamports: u64) -> Seq<char> {
    seq!['\u{25ce}'] + spec_decimal((lamports / LAMPORTS_PER_ROX) as nat) + seq!['.']
        + spec_decimal_padded((lamports % LAMPORTS_PER_ROX) as nat, 9)
}

/// The one-character string for the decimal digit `d`.
fn digit_str(d: u64) -> (r: &'static str)
    requires
        d < 10,
    ensures
        r@ == seq![digit_char(d as int)],
{
    match d {
        0 => {
            proof {
                reveal_strlit("0");
                assert("0"@ =~= seq![digit_char(0)]);
            }
            "0"
        },
        1 => {
            proof {
                reveal_strlit("1");
                assert("1"@ =~= seq![digit_char(1)]);
            }
            "1"
        },
        2 => {
            proof {
                reveal_strlit("2");
                assert("2"@ =~= seq![digit_char(2)]);
            }
            "2"
        },
        3 => {
            proof {
                reveal_strlit("3");
                assert("3"@ =~= seq![digit_char(3)]);
            }
            "3"
        },
        4 => {
            proof {
                reveal_strlit("4");
                assert("4"@ =~= seq![digit_char(4)]);
            }
            "4"
        },
        5 => {
            proof {
                reveal_strlit("5");
                assert("5"@ =~= seq![digit_char(5)]);
            }
            "5"
        },
        6 => {
            proof {
                reveal_strlit("6");
                assert("6"@ =~= seq![digit_char(6)]);
            }
            "6"
        },
        7 => {
            proof {
                reveal_strlit("7");
                assert("7"@ =~= seq![digit_char(7)]);
            }
            "7"
        },
        8 => {
            proof {
                reveal_strlit("8");
                assert("8"@ =~= seq![digit_char(8)]);
            }
            "8"
        },
        _ => {
            proof {
                reveal_strlit("9");
                assert("9"@ =~= seq![digit_char(9)]);
            }
            "9"
        },
    }
}

/// Appends the decimal rendering of `n` to `s`.
fn append_decimal(s: &mut String, n: u64)
    ensures
        final(s)@ == old(s)@ + spec_decimal(n as nat),
    decreases n,
{
    if n >= 10 {
        append_decimal(s, n / 10);
    }
    s.append(digit_str(n % 10));
    proof {
        assert(final(s)@ =~= old(s)@ + spec_decimal(n as nat));
    }
}

/// Appends the lowest `width` decimal digits of `n` to `s`, zero-padded.
fn append_decimal_padded(s: &mut String, n: u64, width: u64)
    ensures
        final(s)@ == old(s)@ + spec_decimal_padded(n as nat, width as nat),
    decreases width,
{
    if width > 0 {
        append_decimal_padded(s, n / 10, width - 1);
        s.append(digit_str(n % 10));
    }
    proof {
        assert(final(s)@ =~= old(s)@ + spec_decimal_padded(n as nat, width as nat));
    }
}

impl Rox {
    /// Renders the wrapped lamport amount as a ROX amount: the token symbol,
    /// the whole units, and a nine-digit fraction.
    pub fn write_in_rox(&self) -> (s: String)
        ensures
            s@ == spec_rox_display(self.0),
    {
        let mut s = String::from_str("\u{25ce}");
        proof {
            reveal_strlit("\u{25ce}");
            assert(s@ =~= seq!['\u{25ce}']);
        }
        append_decimal(&mut s, self.0 / LAMPORTS_PER_ROX);
        s.append(".");
        proof {
            reveal_strlit(".");
        }
        append_decimal_padded(&mut s, self.0 % LAMPORTS_PER_ROX, 9);
        proof {
            assert(s@ =~= spec_rox_display(self.0));
        }
        s
    }
}

} // verus!

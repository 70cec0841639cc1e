//! The height readout: the height gained since the start of the session, in
//! whole world units, as decimal text.

use vstd::prelude::*;
use crate::geometry::{HALF_UNIT, UNIT};
use crate::world::{Session, SessionView};

verus! {

/// A number of sub-units, not negative, rounded to the nearest whole world
/// unit; a value halfway between two goes to the even one.
pub open spec fn spec_round_magnitude(v: int) -> int {
    let whole = v / (UNIT as int);
    let part = v % (UNIT as int);
    if part > HALF_UNIT || (part == HALF_UNIT && whole % 2 == 1) {
        whole + 1
    } else {
        whole
    }
}

/// A number of sub-units rounded to the nearest whole world unit; a value
/// halfway between two goes to the even one.
pub open spec fn spec_round_units(v: int) -> int {
    if v >= 0 {
        spec_round_magnitude(v)
    } else {
        -spec_round_magnitude(-v)
    }
}

/// The character of a decimal digit.
pub open spec fn digit_char(d: int) -> char {
    if d == 0 {
        '0'
    } else if d == 1 {
        '1'
    } else if d == 2 {
        '2'
    } else if d == 3 {
        '3'
    } else if d == 4 {
        '4'
    } else if d == 5 {
        '5'
    } else if d == 6 {
        '6'
    } else if d == 7 {
        '7'
    } else if d == 8 {
        '8'
    } else {
        '9'
    }
}

/// The decimal digits of a natural number, without leading zeros.
pub open spec fn decimal_nat(n: nat) -> Seq<char>
    decreases n,
{
    if n < 10 {
        seq![digit_char(n as int)]
    } else {
        decimal_nat(n / 10).push(digit_char((n % 10) as int))
    }
}

/// The decimal text of an integer: a minus sign for a negative number, then
/// the digits of its absolute value.
pub open spec fn decimal(v: int) -> Seq<char> {
    if v < 0 {
        seq!['-'] + decimal_nat((-v) as nat)
    } else {
        decimal_nat(v as nat)
    }
}

/// Computes [`spec_round_units`].
pub fn round_units(v: i128) -> (r: i128)
    ensures
        r == spec_round_units(v as int),
        -0x1_0000_0000_0000_0000 <= v <= 0x1_0000_0000_0000_0000 ==> -0x1_0000_0000_0000 <= r
            <= 0x1_0000_0000_0000,
{
    let size: u128 = if v >= 0 {
        v as u128
    } else if v == i128::MIN {
        0x8000_0000_0000_0000_0000_0000_0000_0000u128
    } else {
        (-v) as u128
    };
    let whole: u128 = size / (UNIT as u128);
    let part: u128 = size % (UNIT as u128);
    let rounded: u128 = if part > HALF_UNIT as u128 || (part == HALF_UNIT as u128 && whole % 2
        == 1) {
        whole + 1
    } else {
        whole
    };
    if v >= 0 {
        rounded as i128
    } else {
        -(rounded as i128)
    }
}

/// The text of one decimal digit.
fn digit_text(d: u64) -> (r: &'static str)
    requires
        d < 10,
    ensures
        r@ == seq![digit_char(d as int)],
{
    proof {
        reveal_strlit("0");
        reveal_strlit("1");
        reveal_strlit("2");
        reveal_strlit("3");
        reveal_strlit("4");
        reveal_strlit("5");
        reveal_strlit("6");
        reveal_strlit("7");
        reveal_strlit("8");
        reveal_strlit("9");
    }
    let r = if d == 0 {
        "0"
    } else if d == 1 {
        "1"
    } else if d == 2 {
        "2"
    } else if d == 3 {
        "3"
    } else if d == 4 {
        "4"
    } else if d == 5 {
        "5"
    } else if d == 6 {
        "6"
    } else if d == 7 {
        "7"
    } else if d == 8 {
        "8"
    } else {
        "9"
    };
    r
}

/// Appends the decimal digits of `n` to `text`.
fn push_decimal(text: &mut String, n: u64)
    ensures
        final(text)@ == old(text)@ + decimal_nat(n as nat),
    decreases n,
{
    if n >= 10 {
        push_decimal(text, n / 10);
    }
    text.append(digit_text(n % 10));
    assert(text@ =~= old(text)@ + decimal_nat(n as nat));
}

/// The decimal text of an integer, see [`decimal`].
pub fn decimal_text(v: i64) -> (r: String)
    ensures
        r@ == decimal(v as int),
{
    let mut text = String::new();
    if v < 0 {
        proof {
            reveal_strlit("-");
        }
        text.append("-");
        let size: u64 = if v == i64::MIN {
            0x8000_0000_0000_0000u64
        } else {
            (-v) as u64
        };
        push_decimal(&mut text, size);
    } else {
        push_decimal(&mut text, v as u64);
        assert(text@ =~= decimal_nat(v as nat));
    }
    text
}

impl SessionView {
    /// The height the readout shows: the player's height above the height at
    /// which it started the session, rounded to whole world units; 0 without a
    /// player.
    pub open spec fn height(self) -> int {
        match self.player {
            Some(p) => spec_round_units(p.y - self.origin_y),
            None => 0,
        }
    }
}

impl Session {
    /// The height the readout shows, see [`SessionView::height`].
    pub fn height(&self) -> (r: i64)
        ensures
            r == self@.height(),
    {
        match self.player {
            Some(p) => round_units(p.y as i128 - self.origin_y as i128) as i64,
            None => 0,
        }
    }

    /// The text of the height readout: the decimal text of
    /// [`SessionView::height`].
    pub fn update_height(&self) -> (r: String)
        ensures
            r@ == decimal(self@.height()),
    {
        decimal_text(self.height())
    }
}

} // verus!

//! Truecolor escape sequences: a glyph prefixed with a 24-bit foreground
//! color, and the reset that returns the terminal to its default.

use vstd::prelude::*;

verus! {

/// Relies on `String::push`: appends the given `char` to the end of the
/// `String`.
pub assume_specification [ String::push ](s: &mut String, ch: char)
    ensures
        final(s)@ == old(s)@.push(ch),
;

/// The character for one decimal digit.
pub open spec fn digit_char(d: int) -> char {
    "0123456789"@[d]
}

/// The shortest decimal rendering of a byte value.
pub open spec fn decimal_seq(n: int) -> Seq<char> {
    if n < 10 {
        seq![digit_char(n)]
    } else if n < 100 {
        seq![digit_char(n / 10), digit_char(n % 10)]
    } else {
        seq![digit_char(n / 100), digit_char((n / 10) % 10), digit_char(n % 10)]
    }
}

/// The escape that sets the truecolor foreground `r;g;b`, up to but not
/// including the glyph it colors.
pub open spec fn rgb_prefix(r: u8, g: u8, b: u8) -> Seq<char> {
    "\u{1b}[38;2;"@ + decimal_seq(r as int) + ";"@ + decimal_seq(g as int) + ";"@ + decimal_seq(
        b as int,
    ) + "m"@
}

/// The escape that resets the foreground to the terminal's default.
pub open spec fn reset_prefix() -> Seq<char> {
    "\u{1b}[39m"@
}

fn digit(d: u8) -> (c: char)
    requires
        d < 10,
    ensures
        c == digit_char(d as int),
{
    proof {
        reveal_strlit("0123456789");
    }
    match d {
        0 => '0',
        1 => '1',
        2 => '2',
        3 => '3',
        4 => '4',
        5 => '5',
        6 => '6',
        7 => '7',
        8 => '8',
        _ => '9',
    }
}

/// Appends the decimal rendering of `n`, without leading zeros.
fn push_decimal(s: &mut String, n: u8)
    ensures
        final(s)@ == old(s)@ + decimal_seq(n as int),
{
    if n >= 100 {
        s.push(digit(n / 100));
        s.push(digit((n / 10) % 10));
        s.push(digit(n % 10));
    } else if n >= 10 {
        s.push(digit(n / 10));
        s.push(digit(n % 10));
    } else {
        s.push(digit(n));
    }
    proof {
        assert(s@ =~= old(s)@ + decimal_seq(n as int));
    }
}

/// Colored-text rendering attached to a character: the character behind
/// a truecolor foreground escape, or behind the reset to the default
/// foreground.
pub trait RGBColorTextExt: Sized {
    /// The character prefixed with the truecolor foreground escape for
    /// `(r, g, b)`.
    fn rgb(self, r: u8, g: u8, b: u8) -> String;

    /// The character prefixed with the reset to the default foreground.
    fn default(self) -> String;
}

impl RGBColorTextExt for char {
    fn rgb(self, r: u8, g: u8, b: u8) -> (out: String)
        ensures
            out@ == rgb_prefix(r, g, b).push(self),
    {
        let mut s = String::new();
        s.append("\u{1b}[38;2;");
        push_decimal(&mut s, r);
        s.append(";");
        push_decimal(&mut s, g);
        s.append(";");
        push_decimal(&mut s, b);
        s.append("m");
        s.push(self);
        proof {
            assert(s@ =~= rgb_prefix(r, g, b).push(self));
        }
        s
    }

    fn default(self) -> (out: String)
        ensures
            out@ == reset_prefix().push(self),
    {
        let mut s = String::new();
        s.append("\u{1b}[39m");
        s.push(self);
        proof {
            assert(s@ =~= reset_prefix().push(self));
        }
        s
    }
}

} // verus!

//! Colours and border style of the interface, built from the configuration.
use vstd::prelude::*;
use crate::config::Config;

verus! {

/// A colour: an RGB triple, or the terminal's gray.
#[derive(Clone, Copy, Debug, PartialEq, Eq, Structural)]
pub enum Color {
    Rgb(u8, u8, u8),
    Gray,
}

/// How block borders are drawn.
#[derive(Clone, Copy, Debug, PartialEq, Eq, Structural)]
pub enum BorderType {
    Plain,
    Double,
    Thick,
    Rounded,
}

#[derive(Clone, Copy, Debug, PartialEq, Eq, Structural)]
pub struct ThemeColor {
    pub bg: Color,
    pub fg: Color,
}

#[derive(Clone, Copy, Debug, PartialEq, Eq, Structural)]
pub struct Theme {
    pub border_color: Color,
    pub highlight: ThemeColor,
    pub text_color: Color,
    pub border_type: BorderType,
}

/// The value of a hexadecimal digit (either case), if `c` is one.
pub open spec fn hex_digit_value(c: char) -> Option<nat> {
    if '0' <= c && c <= '9' {
        Some((c as nat - '0' as nat) as nat)
    } else if 'a' <= c && c <= 'f' {
        Some((c as nat - 'a' as nat + 10) as nat)
    } else if 'A' <= c && c <= 'F' {
        Some((c as nat - 'A' as nat + 10) as nat)
    } else {
        None
    }
}

/// The value of a run of hexadecimal digits, most significant first; `None`
/// if any character is not a digit. The empty run has value 0.
pub open spec fn hex_digits_value(s: Seq<char>) -> Option<nat>
    decreases s.len(),
{
    if s.len() == 0 {
        Some(0)
    } else {
        match (hex_digits_value(s.drop_last()), hex_digit_value(s.last())) {
            (Some(high), Some(low)) => Some(high * 16 + low),
            _ => None,
        }
    }
}

/// The number that a text spells in base 16: an optional '+' and then at
/// least one hexadecimal digit.
pub open spec fn radix16_value(s: Seq<char>) -> Option<nat> {
    if s.len() > 0 && s[0] == '+' {
        if s.len() > 1 {
            hex_digits_value(s.drop_first())
        } else {
            None
        }
    } else if s.len() > 0 {
        hex_digits_value(s)
    } else {
        None
    }
}

/// Relies on `u32::from_str_radix` with radix 16: an optional '+' followed by
/// hexadecimal digits of either case parses to their value, anything else is
/// an error; at most six characters cannot overflow.
#[verifier::external_body]
fn parse_radix16(s: &str) -> (r: Option<u32>)
    requires
        s@.len() <= 6,
    ensures
        match r {
            Some(v) => radix16_value(s@) == Some(v as nat),
            None => radix16_value(s@) is None,
        },
{
    u32::from_str_radix(s, 16).ok()
}

/// Index of the first character at or after `i` that is not '#'.
pub open spec fn hashes_end(s: Seq<char>, i: int) -> int
    decreases s.len() - i,
{
    if i >= s.len() {
        s.len() as int
    } else if s[i] != '#' {
        i
    } else {
        hashes_end(s, i + 1)
    }
}

/// The colour that a hex text such as "#1e1e2e" names: after any leading
/// '#', six characters that parse in base 16 give the RGB bytes, high byte
/// red; anything else is gray.
pub open spec fn hex_color_of(s: Seq<char>) -> Color {
    let digits = s.skip(hashes_end(s, 0));
    if digits.len() == 6 && radix16_value(digits) is Some {
        let v = radix16_value(digits)->0;
        Color::Rgb((v / 65536 % 256) as u8, (v / 256 % 256) as u8, (v % 256) as u8)
    } else {
        Color::Gray
    }
}

/// Parses a colour written as hex, such as "#89b4fa"; gray when it is not one.
pub fn parse_hex_color(hex: &str) -> (r: Color)
    ensures
        r == hex_color_of(hex@),
{
    let n = hex.unicode_len();
    let mut i: usize = 0;
    while i < n && hex.get_char(i) == '#'
        invariant
            i <= n,
            n == hex@.len(),
            hashes_end(hex@, 0) == hashes_end(hex@, i as int),
        decreases n - i,
    {
        i += 1;
    }
    let digits = hex.substring_char(i, n);
    assert(digits@ == hex@.skip(i as int));
    if n - i == 6 {
        match parse_radix16(digits) {
            Some(rgb) => {
                let r = ((rgb >> 16u32) & 0xFFu32) as u8;
                let g = ((rgb >> 8u32) & 0xFFu32) as u8;
                let b = (rgb & 0xFFu32) as u8;
                assert((rgb >> 16u32) & 0xFFu32 == rgb / 65536 % 256) by (bit_vector);
                assert((rgb >> 8u32) & 0xFFu32 == rgb / 256 % 256) by (bit_vector);
                assert(rgb & 0xFFu32 == rgb % 256) by (bit_vector);
                Color::Rgb(r, g, b)
            },
            None => Color::Gray,
        }
    } else {
        Color::Gray
    }
}

/// The border type that a configured name selects: "Plain", "Double" or
/// "Thick", and rounded for anything else or nothing.
pub open spec fn border_type_of(name: Option<Seq<char>>) -> BorderType {
    match name {
        Some(n) => if n == "Plain"@ {
            BorderType::Plain
        } else if n == "Double"@ {
            BorderType::Double
        } else if n == "Thick"@ {
            BorderType::Thick
        } else {
            BorderType::Rounded
        },
        None => BorderType::Rounded,
    }
}

/// The theme that a configuration describes.
pub open spec fn theme_of(cfg: Config) -> Theme {
    let tc = cfg.theme_config;
    Theme {
        border_color: hex_color_of(tc.border_color@),
        highlight: ThemeColor { bg: hex_color_of(tc.highlight.bg@), fg: hex_color_of(tc.highlight.fg@) },
        text_color: hex_color_of(tc.text_color@),
        border_type: border_type_of(
            match tc.border_type {
                Some(n) => Some(n@),
                None => None,
            },
        ),
    }
}

fn parse_border_type(name: &Option<String>) -> (r: BorderType)
    ensures
        r == border_type_of(
            match name {
                Some(n) => Some(n@),
                None => None,
            },
        ),
{
    match name {
        Some(n) => {
            if n.eq(&String::from_str("Plain")) {
                BorderType::Plain
            } else if n.eq(&String::from_str("Double")) {
                BorderType::Double
            } else if n.eq(&String::from_str("Thick")) {
                BorderType::Thick
            } else {
                BorderType::Rounded
            }
        },
        None => BorderType::Rounded,
    }
}

impl Theme {
    /// The theme that `cfg` describes: each colour parsed from its hex text,
    /// and the border type chosen by name.
    pub fn from_config(cfg: &Config) -> (r: Theme)
        ensures
            r == theme_of(*cfg),
    {
        let tc = &cfg.theme_config;
        Theme {
            border_color: parse_hex_color(tc.border_color.as_str()),
            highlight: ThemeColor {
                bg: parse_hex_color(tc.highlight.bg.as_str()),
                fg: parse_hex_color(tc.highlight.fg.as_str()),
            },
            text_color: parse_hex_color(tc.text_color.as_str()),
            border_type: parse_border_type(&tc.border_type),
        }
    }
}

} // verus!

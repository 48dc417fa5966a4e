//! Voxel colors and their textual encodings.
//!
//! Two encodings exist: 24-bit true color written as six hexadecimal digits,
//! and an 8-bit packed color (3 bits red, 3 bits green, 2 bits blue) written as
//! three octal digits. In both, the all-zero value is the vacant sentinel.

use crate::voxel::Voxel;
use vstd::prelude::*;
use vstd::string::*;

verus! {

/// 24-bit true color: red, green, blue.
#[derive(Clone, Copy, Debug, PartialEq, Eq, Structural)]
pub struct Color(pub u8, pub u8, pub u8);

/// A string that is not six hexadecimal digits. Holds the rejected input.
#[derive(Debug, PartialEq)]
pub struct InvalidColorHex(pub String);

/// 8-bit packed color: `rrrgggbb`.
#[derive(Clone, Copy, Debug, PartialEq, Eq, Structural)]
pub struct PackedColor(pub u8);

/// A string that is not three octal digits within their channel ranges.
#[derive(Debug, PartialEq)]
pub struct InvalidColorOctal {
    /// The rejected input.
    pub input: String,
    /// The first offending digit, counted from zero; `None` when the input
    /// does not have exactly three characters.
    pub digit: Option<u8>,
}

/// The value of a hexadecimal digit, or -1 for any other character.
pub open spec fn hex_value(c: char) -> int {
    if '0' <= c && c <= '9' {
        c as int - '0' as int
    } else if 'a' <= c && c <= 'f' {
        c as int - 'a' as int + 10
    } else if 'A' <= c && c <= 'F' {
        c as int - 'A' as int + 10
    } else {
        -1
    }
}

pub open spec fn is_hex_digit(c: char) -> bool {
    hex_value(c) >= 0
}

/// Exactly six hexadecimal digits.
pub open spec fn is_hex_color(s: Seq<char>) -> bool {
    s.len() == 6 && forall|i: int| 0 <= i < 6 ==> is_hex_digit(#[trigger] s[i])
}

/// The byte that two hexadecimal digits denote, most significant first.
pub open spec fn hex_byte(hi: char, lo: char) -> int {
    hex_value(hi) * 16 + hex_value(lo)
}

/// The color that six hexadecimal digits denote: `rrggbb`.
pub open spec fn hex_color(s: Seq<char>) -> Color {
    Color(hex_byte(s[0], s[1]) as u8, hex_byte(s[2], s[3]) as u8, hex_byte(s[4], s[5]) as u8)
}

/// The position of the first character that is no hexadecimal digit.
pub open spec fn first_invalid_hex(s: Seq<char>) -> Option<int> {
    if forall|i: int| 0 <= i < s.len() ==> is_hex_digit(#[trigger] s[i]) {
        None
    } else {
        Some(
            choose|i: int|
                0 <= i < s.len() && !is_hex_digit(s[i]) && forall|j: int|
                    0 <= j < i ==> is_hex_digit(#[trigger] s[j]),
        )
    }
}

/// The largest digit the channel at `position` admits: 7 for red and green, 3 for blue.
pub open spec fn octal_limit(position: int) -> int {
    if position == 2 {
        3
    } else {
        7
    }
}

/// The value of a decimal digit character, or -1 for any other character.
pub open spec fn digit_value(c: char) -> int {
    if '0' <= c && c <= '9' {
        c as int - '0' as int
    } else {
        -1
    }
}

/// Whether `c` is a digit that the channel at `position` admits.
pub open spec fn is_channel_digit(c: char, position: int) -> bool {
    0 <= digit_value(c) <= octal_limit(position)
}

/// Exactly three digits, red and green in 0..=7 and blue in 0..=3.
pub open spec fn is_octal_color(s: Seq<char>) -> bool {
    s.len() == 3 && forall|i: int| 0 <= i < 3 ==> is_channel_digit(#[trigger] s[i], i)
}

/// The packed value of three channel digits: `r * 32 + g * 4 + b`.
pub open spec fn octal_color(s: Seq<char>) -> PackedColor {
    PackedColor((digit_value(s[0]) * 32 + digit_value(s[1]) * 4 + digit_value(s[2])) as u8)
}

/// The first of the three positions whose character its channel does not admit.
pub open spec fn first_invalid_octal(s: Seq<char>) -> Option<u8> {
    if s.len() != 3 {
        None
    } else if !is_channel_digit(s[0], 0) {
        Some(0u8)
    } else if !is_channel_digit(s[1], 1) {
        Some(1u8)
    } else if !is_channel_digit(s[2], 2) {
        Some(2u8)
    } else {
        None
    }
}

/// A string of three characters that is no color is rejected for one of its
/// three digits: the first that its channel does not admit.
pub proof fn lemma_octal_error_is_digit_indexed(s: Seq<char>)
    requires
        s.len() == 3,
        !is_octal_color(s),
    ensures
        first_invalid_octal(s) is Some,
        first_invalid_octal(s)->0 < 3,
        !is_channel_digit(s[first_invalid_octal(s)->0 as int], first_invalid_octal(s)->0 as int),
        forall|i: int|
            0 <= i < first_invalid_octal(s)->0 ==> is_channel_digit(#[trigger] s[i], i),
{
}

/// The packed value of valid digits puts red in the top three bits, green in
/// the next three and blue in the last two, and never overflows a byte.
pub proof fn lemma_octal_color_packs(s: Seq<char>)
    requires
        is_octal_color(s),
    ensures
        0 <= digit_value(s[0]) * 32 + digit_value(s[1]) * 4 + digit_value(s[2]) <= 255,
        octal_color(s).0 / 32 == digit_value(s[0]),
        (octal_color(s).0 / 4) % 8 == digit_value(s[1]),
        octal_color(s).0 % 4 == digit_value(s[2]),
{
    assert(is_channel_digit(s[0], 0));
    assert(is_channel_digit(s[1], 1));
    assert(is_channel_digit(s[2], 2));
}

/// Decodes one hexadecimal digit.
fn hex_digit(c: char) -> (value: Option<u8>)
    ensures
        match value {
            Some(v) => v as int == hex_value(c),
            None => !is_hex_digit(c),
        },
{
    if '0' <= c && c <= '9' {
        Some((c as u32 - '0' as u32) as u8)
    } else if 'a' <= c && c <= 'f' {
        Some((c as u32 - 'a' as u32 + 10) as u8)
    } else if 'A' <= c && c <= 'F' {
        Some((c as u32 - 'A' as u32 + 10) as u8)
    } else {
        None
    }
}

/// Decodes one decimal digit no larger than `limit`.
fn bounded_digit(c: char, limit: u8) -> (value: Option<u8>)
    requires
        limit <= 9,
    ensures
        match value {
            Some(v) => v as int == digit_value(c) && v <= limit,
            None => !(0 <= digit_value(c) <= limit),
        },
{
    if '0' <= c && c <= '9' {
        let v: u8 = (c as u32 - '0' as u32) as u8;
        if v <= limit {
            Some(v)
        } else {
            None
        }
    } else {
        None
    }
}

impl Color {
    /// The three channels, each out of 255.
    pub fn channels(self) -> (rgb: (u8, u8, u8))
        ensures
            rgb == (self.0, self.1, self.2),
    {
        (self.0, self.1, self.2)
    }

    /// The largest value of each channel.
    pub fn channel_limits() -> (limits: (u8, u8, u8))
        ensures
            limits == (255u8, 255u8, 255u8),
    {
        (255, 255, 255)
    }

    /// Parses six hexadecimal digits `rrggbb`, upper or lower case, nothing else.
    pub fn try_from_hex_string(s: &str) -> (parsed: Result<Color, InvalidColorHex>)
        ensures
            is_hex_color(s@) ==> parsed == Ok::<Color, InvalidColorHex>(hex_color(s@)),
            !is_hex_color(s@) ==> parsed is Err && parsed->Err_0.0@ == s@,
    {
        if s.unicode_len() != 6 {
            return Err(InvalidColorHex(s.to_owned()));
        }
        let mut values: [u8; 3] = [0u8; 3];
        let mut i: usize = 0;
        while i < 3
            invariant
                i <= 3,
                s@.len() == 6,
                forall|k: int| 0 <= k < 2 * i ==> is_hex_digit(#[trigger] s@[k]),
                forall|k: int|
                    0 <= k < i ==> (#[trigger] values[k]) as int == hex_byte(
                        s@[2 * k],
                        s@[2 * k + 1],
                    ),
            decreases 3 - i,
        {
            let hi = hex_digit(s.get_char(2 * i));
            let lo = hex_digit(s.get_char(2 * i + 1));
            match (hi, lo) {
                (Some(h), Some(l)) => {
                    values[i] = h * 16 + l;
                },
                _ => {
                    return Err(InvalidColorHex(s.to_owned()));
                },
            }
            i += 1;
        }
        Ok(Color(values[0], values[1], values[2]))
    }
}

impl InvalidColorHex {
    /// Where the rejected input first leaves the hexadecimal alphabet, counted in
    /// characters from zero; `None` when every character is a hexadecimal digit
    /// and only the length is wrong.
    pub fn position(&self) -> (at: Option<usize>)
        ensures
            match at {
                Some(i) => first_invalid_hex(self.0@) == Some(i as int),
                None => first_invalid_hex(self.0@) is None,
            },
    {
        let s = self.0.as_str();
        let n = s.unicode_len();
        let mut i: usize = 0;
        while i < n
            invariant
                i <= n,
                n == s@.len(),
                s@ == self.0@,
                forall|k: int| 0 <= k < i ==> is_hex_digit(#[trigger] s@[k]),
            decreases n - i,
        {
            if hex_digit(s.get_char(i)).is_none() {
                return Some(i);
            }
            i += 1;
        }
        None
    }
}

impl PackedColor {
    /// The three channels: red and green out of 7, blue out of 3.
    pub fn channels(self) -> (rgb: (u8, u8, u8))
        ensures
            rgb.0 == self.0 / 32,
            rgb.1 == (self.0 / 4) % 8,
            rgb.2 == self.0 % 4,
            self.0 == rgb.0 * 32 + rgb.1 * 4 + rgb.2,
    {
        (self.0 / 32, (self.0 / 4) % 8, self.0 % 4)
    }

    /// The largest value of each channel.
    pub fn channel_limits() -> (limits: (u8, u8, u8))
        ensures
            limits == (7u8, 7u8, 3u8),
    {
        (7, 7, 3)
    }

    /// Parses three digits `rgb`: red and green in 0..=7, blue in 0..=3.
    pub fn try_from_octal(s: &str) -> (parsed: Result<PackedColor, InvalidColorOctal>)
        ensures
            is_octal_color(s@) ==> parsed == Ok::<PackedColor, InvalidColorOctal>(
                octal_color(s@),
            ),
            !is_octal_color(s@) ==> parsed is Err && parsed->Err_0.input@ == s@
                && parsed->Err_0.digit == first_invalid_octal(s@),
    {
        if s.unicode_len() != 3 {
            return Err(InvalidColorOctal { input: s.to_owned(), digit: None });
        }
        let r = match bounded_digit(s.get_char(0), 7) {
            Some(v) => v,
            None => {
                return Err(InvalidColorOctal { input: s.to_owned(), digit: Some(0) });
            },
        };
        let g = match bounded_digit(s.get_char(1), 7) {
            Some(v) => v,
            None => {
                return Err(InvalidColorOctal { input: s.to_owned(), digit: Some(1) });
            },
        };
        let b = match bounded_digit(s.get_char(2), 3) {
            Some(v) => v,
            None => {
                return Err(InvalidColorOctal { input: s.to_owned(), digit: Some(2) });
            },
        };
        Ok(PackedColor(r * 32 + g * 4 + b))
    }
}

impl Voxel for Color {
    open spec fn vacant(&self) -> bool {
        self.0 == 0 && self.1 == 0 && self.2 == 0
    }

    open spec fn empty_value() -> Self {
        Color(0, 0, 0)
    }

    proof fn empty_is_vacant() {
    }

    fn empty() -> (cell: Self) {
        Color(0, 0, 0)
    }

    fn is_empty(&self) -> (vacant: bool) {
        self.0 == 0 && self.1 == 0 && self.2 == 0
    }
}

impl Voxel for PackedColor {
    open spec fn vacant(&self) -> bool {
        self.0 == 0
    }

    open spec fn empty_value() -> Self {
        PackedColor(0)
    }

    proof fn empty_is_vacant() {
    }

    fn empty() -> (cell: Self) {
        PackedColor(0)
    }

    fn is_empty(&self) -> (vacant: bool) {
        self.0 == 0
    }
}

} // verus!

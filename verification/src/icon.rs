//! Colours and pixels of the tray icon, as far as they are whole
//! numbers.

use vstd::prelude::*;
use vstd::string::StringExecFns;
use crate::text::{chars_of, decimal, push_decimal, replace_all, replaced, trim, trim_bounds};

verus! {

/// The word that stands for the colour of the surroundings in a drawing.
pub const CURRENT_COLOR: &'static str = "currentColor";

/// The width and height, in pixels, of the icon that is used where no
/// drawing can be had.
pub const FALLBACK_SIZE: u32 = 256;

/// A colour as its red, green, blue and alpha components.
#[derive(Clone, Copy, Debug, PartialEq, Eq, Structural)]
pub struct Rgba {
    pub red: u8,
    pub green: u8,
    pub blue: u8,
    pub alpha: u8,
}

/// Why a text is no colour.
#[derive(Clone, Copy, Debug, PartialEq, Eq, Structural)]
pub enum ColorError {
    /// The red component is no hexadecimal number.
    Red,
    /// The green component is no hexadecimal number.
    Green,
    /// The blue component is no hexadecimal number.
    Blue,
    /// The alpha component is no hexadecimal number.
    Alpha,
    /// The text has so many characters where 6 or 8 are wanted.
    Length(usize),
}

/// The value of a hexadecimal digit.
pub open spec fn hex_value(c: char) -> Option<u8> {
    if '0' <= c <= '9' {
        Some((c as u32 - '0' as u32) as u8)
    } else if 'a' <= c <= 'f' {
        Some((c as u32 - 'a' as u32 + 10) as u8)
    } else if 'A' <= c <= 'F' {
        Some((c as u32 - 'A' as u32 + 10) as u8)
    } else {
        None
    }
}

/// The number that two characters write in base 16: two digits, or a
/// plus sign and one digit.
pub open spec fn hex_pair(high: char, low: char) -> Option<u8> {
    match hex_value(low) {
        None => None,
        Some(l) => if high == '+' {
            Some(l)
        } else {
            match hex_value(high) {
                Some(h) => Some((16 * h + l) as u8),
                None => None,
            }
        },
    }
}

/// `s` without the number signs that it begins with.
pub open spec fn without_hashes(s: Seq<char>) -> Seq<char>
    decreases s.len(),
{
    if s.len() > 0 && s.first() == '#' {
        without_hashes(s.drop_first())
    } else {
        s
    }
}

/// The digits of a colour: the text without the white space around it
/// and without the number signs before it.
pub open spec fn color_digits(hex: Seq<char>) -> Seq<char> {
    without_hashes(trim(hex))
}

/// The colour that the digits `d` write: red, green and blue, and alpha
/// where there are eight of them; six digits write an opaque colour. The
/// error names the first component that is no number.
pub open spec fn color_of(d: Seq<char>) -> Result<Rgba, ColorError> {
    if d.len() != 6 && d.len() != 8 {
        Err(ColorError::Length(d.len() as usize))
    } else if hex_pair(d[0], d[1]) is None {
        Err(ColorError::Red)
    } else if hex_pair(d[2], d[3]) is None {
        Err(ColorError::Green)
    } else if hex_pair(d[4], d[5]) is None {
        Err(ColorError::Blue)
    } else if d.len() == 8 && hex_pair(d[6], d[7]) is None {
        Err(ColorError::Alpha)
    } else {
        Ok(
            Rgba {
                red: hex_pair(d[0], d[1]).unwrap(),
                green: hex_pair(d[2], d[3]).unwrap(),
                blue: hex_pair(d[4], d[5]).unwrap(),
                alpha: if d.len() == 8 {
                    hex_pair(d[6], d[7]).unwrap()
                } else {
                    255
                },
            },
        )
    }
}

/// The value of a hexadecimal digit.
pub fn hex_digit(c: char) -> (r: Option<u8>)
    ensures
        r == hex_value(c),
{
    if '0' <= c && c <= '9' {
        Some((c as u32 - '0' as u32) as u8)
    } else if 'a' <= c && c <= 'f' {
        Some((c as u32 - 'a' as u32 + 10) as u8)
    } else if 'A' <= c && c <= 'F' {
        Some((c as u32 - 'A' as u32 + 10) as u8)
    } else {
        None
    }
}

/// The number that two characters write in base 16.
pub fn hex_byte(high: char, low: char) -> (r: Option<u8>)
    ensures
        r == hex_pair(high, low),
{
    let l = match hex_digit(low) {
        Some(l) => l,
        None => { return None; },
    };
    if high == '+' {
        return Some(l);
    }
    match hex_digit(high) {
        Some(h) => Some(16 * h + l),
        None => None,
    }
}

/// `without_hashes` drops exactly the leading run of number signs.
pub proof fn lemma_without_hashes(s: Seq<char>, k: int)
    requires
        0 <= k <= s.len(),
        forall|i: int| 0 <= i < k ==> #[trigger] s[i] == '#',
        k < s.len() ==> s[k] != '#',
    ensures
        without_hashes(s) == s.subrange(k, s.len() as int),
    decreases k,
{
    if k == 0 {
        assert(s.subrange(0, s.len() as int) == s);
    } else {
        let t = s.drop_first();
        assert forall|i: int| 0 <= i < k - 1 implies #[trigger] t[i] == '#' by {
            assert(t[i] == s[i + 1]);
        }
        lemma_without_hashes(t, k - 1);
        assert(t.subrange(k - 1, t.len() as int) == s.subrange(k, s.len() as int));
    }
}

/// Reads a colour in hexadecimal notation: `RRGGBB` or `RRGGBBAA`, with
/// or without number signs before it and white space around it.
pub fn hex_to_rgba(hex: &str) -> (r: Result<Rgba, ColorError>)
    ensures
        r == color_of(color_digits(hex@)),
{
    let v = chars_of(hex);
    let (start, to) = trim_bounds(&v);
    let mut from: usize = start;
    while from < to && v[from] == '#'
        invariant
            start <= from <= to <= v.len(),
            forall|i: int| start <= i < from ==> v@[i] == '#',
        decreases to - from,
    {
        from += 1;
    }
    proof {
        let t = v@.subrange(start as int, to as int);
        assert forall|i: int| 0 <= i < from - start implies #[trigger] t[i] == '#' by {
            assert(t[i] == v@[i + start]);
        }
        if from < to {
            assert(t[from - start] == v@[from as int]);
        }
        lemma_without_hashes(t, from - start);
        assert(t.subrange(from - start, t.len() as int) == v@.subrange(from as int, to as int));
    }
    let ghost d = v@.subrange(from as int, to as int);
    let count = to - from;
    if count != 6 && count != 8 {
        return Err(ColorError::Length(count));
    }
    proof {
        assert(d[0] == v@[from + 0] && d[1] == v@[from + 1] && d[2] == v@[from + 2]);
        assert(d[3] == v@[from + 3] && d[4] == v@[from + 4] && d[5] == v@[from + 5]);
        if count == 8 {
            assert(d[6] == v@[from + 6] && d[7] == v@[from + 7]);
        }
    }
    let red = match hex_byte(v[from], v[from + 1]) {
        Some(n) => n,
        None => { return Err(ColorError::Red); },
    };
    let green = match hex_byte(v[from + 2], v[from + 3]) {
        Some(n) => n,
        None => { return Err(ColorError::Green); },
    };
    let blue = match hex_byte(v[from + 4], v[from + 5]) {
        Some(n) => n,
        None => { return Err(ColorError::Blue); },
    };
    let alpha = if count == 8 {
        match hex_byte(v[from + 6], v[from + 7]) {
            Some(n) => n,
            None => { return Err(ColorError::Alpha); },
        }
    } else {
        255
    };
    Ok(Rgba { red, green, blue, alpha })
}

/// What is said of a text that is no colour.
pub open spec fn color_complaint(error: ColorError) -> Seq<char> {
    match error {
        ColorError::Red => "无效的红色分量"@,
        ColorError::Green => "无效的绿色分量"@,
        ColorError::Blue => "无效的蓝色分量"@,
        ColorError::Alpha => "无效的透明度分量"@,
        ColorError::Length(count) => "无效的颜色格式: 期望 6 或 8 位十六进制，得到 "@ + decimal(
            count as nat,
        ) + " 位"@,
    }
}

impl ColorError {
    /// What is said of a text that is no colour.
    pub fn message(&self) -> (r: String)
        ensures
            r@ == color_complaint(*self),
    {
        match self {
            ColorError::Red => "无效的红色分量".to_owned(),
            ColorError::Green => "无效的绿色分量".to_owned(),
            ColorError::Blue => "无效的蓝色分量".to_owned(),
            ColorError::Alpha => "无效的透明度分量".to_owned(),
            ColorError::Length(count) => {
                let mut message = "无效的颜色格式: 期望 6 或 8 位十六进制，得到 ".to_owned();
                push_decimal(&mut message, *count as u64);
                message.append(" 位");
                message
            },
        }
    }
}

/// Whether the byte at `at` of an image of `len` bytes is one of the
/// three colour components of a whole pixel.
pub open spec fn is_color_byte(len: int, at: int) -> bool {
    0 <= at < len && at % 4 != 3 && at - at % 4 + 3 < len
}

/// The byte at `at` of the image `pixels` once every pixel that is not
/// fully transparent has been given the colour `target`: the colour
/// components of such a pixel are those of `target`, and everything else
/// stays, the alpha values and what is left of a last, partial pixel
/// included.
pub open spec fn tinted_byte(pixels: Seq<u8>, target: (u8, u8, u8), at: int) -> u8 {
    if is_color_byte(pixels.len() as int, at) && pixels[at - at % 4 + 3] > 0 {
        if at % 4 == 0 {
            target.0
        } else if at % 4 == 1 {
            target.1
        } else {
            target.2
        }
    } else {
        pixels[at]
    }
}

/// The image `pixels` with every pixel that is not fully transparent
/// given the colour `target`.
pub open spec fn tinted(pixels: Seq<u8>, target: (u8, u8, u8)) -> Seq<u8> {
    Seq::new(pixels.len(), |at: int| tinted_byte(pixels, target, at))
}

/// Gives every pixel of an RGBA image that is not fully transparent the
/// colour `target_color`, and keeps its alpha value.
pub fn adjust_icon_color(rgba: Vec<u8>, target_color: (u8, u8, u8)) -> (r: Vec<u8>)
    ensures
        r@ == tinted(rgba@, target_color),
{
    let mut r = rgba;
    let ghost before = r@;
    let mut i: usize = 0;
    while i < r.len() && r.len() - i > 3
        invariant
            i <= r.len(),
            i % 4 == 0,
            r.len() == before.len(),
            forall|at: int| 0 <= at < i ==> r@[at] == tinted_byte(before, target_color, at),
            forall|at: int| i <= at < r.len() ==> r@[at] == before[at],
        decreases r.len() - i,
    {
        if r[i + 3] > 0 {
            r.set(i, target_color.0);
            r.set(i + 1, target_color.1);
            r.set(i + 2, target_color.2);
        }
        i += 4;
    }
    proof {
        assert(r@ =~= tinted(before, target_color));
    }
    r
}

/// The image of `size` by `size` pixels that is white all over and
/// opaque.
pub open spec fn white_square(size: u32) -> Seq<u8> {
    Seq::new((size * size * 4) as nat, |at: int| 255u8)
}

/// The white icon that is used where no drawing can be had.
pub fn fallback_icon() -> (r: Vec<u8>)
    ensures
        r@ == white_square(FALLBACK_SIZE),
{
    let mut r: Vec<u8> = Vec::new();
    let total: usize = 262144;
    let mut i: usize = 0;
    while i < total
        invariant
            i <= total,
            total == 262144,
            r.len() == i,
            forall|at: int| 0 <= at < i ==> r@[at] == 255u8,
        decreases total - i,
    {
        r.push(255);
        i += 1;
    }
    proof {
        assert(r@ =~= white_square(FALLBACK_SIZE));
    }
    r
}

/// A drawing with the colour `color` in every place where it asks for
/// the colour of its surroundings.
pub fn recolor(svg: &str, color: &str) -> (r: String)
    ensures
        r@ == replaced(svg@, CURRENT_COLOR@, color@),
{
    replace_all(svg, CURRENT_COLOR, color)
}

} // verus!

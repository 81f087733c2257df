//! The composed-character model.
//!
//! A keystroke buffer is rendered into a sequence of [`Glyph`]s: each glyph
//! records a base Latin letter (always stored lowercase), the shape modifier
//! carried by that letter (circumflex, breve, horn, or the stroke of "đ"),
//! the lexical tone placed on it, and whether it is displayed uppercase.
//! [`spec_glyph_char`] and its executable counterpart [`glyph_char`] map a
//! glyph to the precomposed Unicode character that appears on screen.

use vstd::prelude::*;

verus! {

/// The six lexical tones of Vietnamese.  `Level` (thanh ngang) is the
/// unmarked tone; the other five correspond to the Telex trigger keys
/// `s`, `f`, `r`, `x`, `j`.
#[derive(Clone, Copy, PartialEq, Eq, Structural, Debug)]
pub enum Tone {
    Level,
    Acute,
    Grave,
    Hook,
    Tilde,
    Dot,
}

/// The shape modifier a base letter may carry: none, a circumflex
/// (â ê ô), a breve (ă), a horn (ơ ư), or the stroke of "đ".
#[derive(Clone, Copy, PartialEq, Eq, Structural, Debug)]
pub enum Shape {
    Plain,
    Circumflex,
    Breve,
    Horn,
    Stroke,
}

/// One rendered character: a base letter in lowercase, its shape modifier,
/// its tone, and whether it is displayed uppercase.
#[derive(Clone, Copy, PartialEq, Eq, Structural, Debug)]
pub struct Glyph {
    pub base: char,
    pub shape: Shape,
    pub tone: Tone,
    pub upper: bool,
}

/// Whether `c` is an ASCII uppercase letter.
pub open spec fn is_ascii_upper(c: char) -> bool {
    'A' <= c && c <= 'Z'
}

/// Whether a lowercase base letter can carry a tone mark.
pub open spec fn is_vowel_base(c: char) -> bool {
    c == 'a' || c == 'e' || c == 'i' || c == 'o' || c == 'u' || c == 'y'
}

/// Whether the glyph's base letter is a vowel.
pub open spec fn is_vowel_glyph(g: Glyph) -> bool {
    is_vowel_base(g.base)
}

/// Lowercases an ASCII letter; every other character is unchanged.
pub open spec fn spec_lower_ascii(c: char) -> char {
    match c {
        'A' => 'a',
        'B' => 'b',
        'C' => 'c',
        'D' => 'd',
        'E' => 'e',
        'F' => 'f',
        'G' => 'g',
        'H' => 'h',
        'I' => 'i',
        'J' => 'j',
        'K' => 'k',
        'L' => 'l',
        'M' => 'm',
        'N' => 'n',
        'O' => 'o',
        'P' => 'p',
        'Q' => 'q',
        'R' => 'r',
        'S' => 's',
        'T' => 't',
        'U' => 'u',
        'V' => 'v',
        'W' => 'w',
        'X' => 'x',
        'Y' => 'y',
        'Z' => 'z',
        _ => c,
    }
}

/// Uppercases an ASCII letter; every other character is unchanged.
pub open spec fn spec_upper_ascii(c: char) -> char {
    match c {
        'a' => 'A',
        'b' => 'B',
        'c' => 'C',
        'd' => 'D',
        'e' => 'E',
        'f' => 'F',
        'g' => 'G',
        'h' => 'H',
        'i' => 'I',
        'j' => 'J',
        'k' => 'K',
        'l' => 'L',
        'm' => 'M',
        'n' => 'N',
        'o' => 'O',
        'p' => 'P',
        'q' => 'Q',
        'r' => 'R',
        's' => 'S',
        't' => 'T',
        'u' => 'U',
        'v' => 'V',
        'w' => 'W',
        'x' => 'X',
        'y' => 'Y',
        'z' => 'Z',
        _ => c,
    }
}

/// Executable ASCII lowercasing.
pub fn lower_ascii(c: char) -> (r: char)
    ensures
        r == spec_lower_ascii(c),
{
    match c {
        'A' => 'a',
        'B' => 'b',
        'C' => 'c',
        'D' => 'd',
        'E' => 'e',
        'F' => 'f',
        'G' => 'g',
        'H' => 'h',
        'I' => 'i',
        'J' => 'j',
        'K' => 'k',
        'L' => 'l',
        'M' => 'm',
        'N' => 'n',
        'O' => 'o',
        'P' => 'p',
        'Q' => 'q',
        'R' => 'r',
        'S' => 's',
        'T' => 't',
        'U' => 'u',
        'V' => 'v',
        'W' => 'w',
        'X' => 'x',
        'Y' => 'y',
        'Z' => 'z',
        _ => c,
    }
}

/// Executable ASCII uppercasing.
pub fn upper_ascii(c: char) -> (r: char)
    ensures
        r == spec_upper_ascii(c),
{
    match c {
        'a' => 'A',
        'b' => 'B',
        'c' => 'C',
        'd' => 'D',
        'e' => 'E',
        'f' => 'F',
        'g' => 'G',
        'h' => 'H',
        'i' => 'I',
        'j' => 'J',
        'k' => 'K',
        'l' => 'L',
        'm' => 'M',
        'n' => 'N',
        'o' => 'O',
        'p' => 'P',
        'q' => 'Q',
        'r' => 'R',
        's' => 'S',
        't' => 'T',
        'u' => 'U',
        'v' => 'V',
        'w' => 'W',
        'x' => 'X',
        'y' => 'Y',
        'z' => 'Z',
        _ => c,
    }
}

/// The glyph a raw keystroke renders as when it composes nothing: its
/// lowercase form as the base letter, with the case recorded separately.
pub open spec fn spec_literal_glyph(c: char) -> Glyph {
    Glyph {
        base: spec_lower_ascii(c),
        shape: Shape::Plain,
        tone: Tone::Level,
        upper: is_ascii_upper(c),
    }
}

/// Executable counterpart of [`spec_literal_glyph`].
pub fn literal_glyph(c: char) -> (g: Glyph)
    ensures
        g == spec_literal_glyph(c),
{
    let upper = 'A' <= c && c <= 'Z';
    Glyph { base: lower_ascii(c), shape: Shape::Plain, tone: Tone::Level, upper }
}

/// The precomposed lowercase character for a base letter with the given
/// shape modifier and tone.  Combinations outside Vietnamese orthography
/// fall back to the bare base letter.
pub open spec fn spec_compose_lower(base: char, shape: Shape, tone: Tone) -> char {
    match (base, shape, tone) {
        ('a', Shape::Plain, Tone::Acute) => 'á',
        ('a', Shape::Plain, Tone::Grave) => 'à',
        ('a', Shape::Plain, Tone::Hook) => 'ả',
        ('a', Shape::Plain, Tone::Tilde) => 'ã',
        ('a', Shape::Plain, Tone::Dot) => 'ạ',
        ('a', Shape::Circumflex, Tone::Level) => 'â',
        ('a', Shape::Circumflex, Tone::Acute) => 'ấ',
        ('a', Shape::Circumflex, Tone::Grave) => 'ầ',
        ('a', Shape::Circumflex, Tone::Hook) => 'ẩ',
        ('a', Shape::Circumflex, Tone::Tilde) => 'ẫ',
        ('a', Shape::Circumflex, Tone::Dot) => 'ậ',
        ('a', Shape::Breve, Tone::Level) => 'ă',
        ('a', Shape::Breve, Tone::Acute) => 'ắ',
        ('a', Shape::Breve, Tone::Grave) => 'ằ',
        ('a', Shape::Breve, Tone::Hook) => 'ẳ',
        ('a', Shape::Breve, Tone::Tilde) => 'ẵ',
        ('a', Shape::Breve, Tone::Dot) => 'ặ',
        ('e', Shape::Plain, Tone::Acute) => 'é',
        ('e', Shape::Plain, Tone::Grave) => 'è',
        ('e', Shape::Plain, Tone::Hook) => 'ẻ',
        ('e', Shape::Plain, Tone::Tilde) => 'ẽ',
        ('e', Shape::Plain, Tone::Dot) => 'ẹ',
        ('e', Shape::Circumflex, Tone::Level) => 'ê',
        ('e', Shape::Circumflex, Tone::Acute) => 'ế',
        ('e', Shape::Circumflex, Tone::Grave) => 'ề',
        ('e', Shape::Circumflex, Tone::Hook) => 'ể',
        ('e', Shape::Circumflex, Tone::Tilde) => 'ễ',
        ('e', Shape::Circumflex, Tone::Dot) => 'ệ',
        ('i', Shape::Plain, Tone::Acute) => 'í',
        ('i', Shape::Plain, Tone::Grave) => 'ì',
        ('i', Shape::Plain, Tone::Hook) => 'ỉ',
        ('i', Shape::Plain, Tone::Tilde) => 'ĩ',
        ('i', Shape::Plain, Tone::Dot) => 'ị',
        ('o', Shape::Plain, Tone::Acute) => 'ó',
        ('o', Shape::Plain, Tone::Grave) => 'ò',
        ('o', Shape::Plain, Tone::Hook) => 'ỏ',
        ('o', Shape::Plain, Tone::Tilde) => 'õ',
        ('o', Shape::Plain, Tone::Dot) => 'ọ',
        ('o', Shape::Circumflex, Tone::Level) => 'ô',
        ('o', Shape::Circumflex, Tone::Acute) => 'ố',
        ('o', Shape::Circumflex, Tone::Grave) => 'ồ',
        ('o', Shape::Circumflex, Tone::Hook) => 'ổ',
        ('o', Shape::Circumflex, Tone::Tilde) => 'ỗ',
        ('o', Shape::Circumflex, Tone::Dot) => 'ộ',
        ('o', Shape::Horn, Tone::Level) => 'ơ',
        ('o', Shape::Horn, Tone::Acute) => 'ớ',
        ('o', Shape::Horn, Tone::Grave) => 'ờ',
        ('o', Shape::Horn, Tone::Hook) => 'ở',
        ('o', Shape::Horn, Tone::Tilde) => 'ỡ',
        ('o', Shape::Horn, Tone::Dot) => 'ợ',
        ('u', Shape::Plain, Tone::Acute) => 'ú',
        ('u', Shape::Plain, Tone::Grave) => 'ù',
        ('u', Shape::Plain, Tone::Hook) => 'ủ',
        ('u', Shape::Plain, Tone::Tilde) => 'ũ',
        ('u', Shape::Plain, Tone::Dot) => 'ụ',
        ('u', Shape::Horn, Tone::Level) => 'ư',
        ('u', Shape::Horn, Tone::Acute) => 'ứ',
        ('u', Shape::Horn, Tone::Grave) => 'ừ',
        ('u', Shape::Horn, Tone::Hook) => 'ử',
        ('u', Shape::Horn, Tone::Tilde) => 'ữ',
        ('u', Shape::Horn, Tone::Dot) => 'ự',
        ('y', Shape::Plain, Tone::Acute) => 'ý',
        ('y', Shape::Plain, Tone::Grave) => 'ỳ',
        ('y', Shape::Plain, Tone::Hook) => 'ỷ',
        ('y', Shape::Plain, Tone::Tilde) => 'ỹ',
        ('y', Shape::Plain, Tone::Dot) => 'ỵ',
        ('d', Shape::Stroke, _) => 'đ',
        _ => base,
    }
}

/// The precomposed uppercase character for a (lowercase) base letter with
/// the given shape modifier and tone.  Combinations outside Vietnamese
/// orthography fall back to the uppercased base letter.
pub open spec fn spec_compose_upper(base: char, shape: Shape, tone: Tone) -> char {
    match (base, shape, tone) {
        ('a', Shape::Plain, Tone::Acute) => 'Á',
        ('a', Shape::Plain, Tone::Grave) => 'À',
        ('a', Shape::Plain, Tone::Hook) => 'Ả',
        ('a', Shape::Plain, Tone::Tilde) => 'Ã',
        ('a', Shape::Plain, Tone::Dot) => 'Ạ',
        ('a', Shape::Circumflex, Tone::Level) => 'Â',
        ('a', Shape::Circumflex, Tone::Acute) => 'Ấ',
        ('a', Shape::Circumflex, Tone::Grave) => 'Ầ',
        ('a', Shape::Circumflex, Tone::Hook) => 'Ẩ',
        ('a', Shape::Circumflex, Tone::Tilde) => 'Ẫ',
        ('a', Shape::Circumflex, Tone::Dot) => 'Ậ',
        ('a', Shape::Breve, Tone::Level) => 'Ă',
        ('a', Shape::Breve, Tone::Acute) => 'Ắ',
        ('a', Shape::Breve, Tone::Grave) => 'Ằ',
        ('a', Shape::Breve, Tone::Hook) => 'Ẳ',
        ('a', Shape::Breve, Tone::Tilde) => 'Ẵ',
        ('a', Shape::Breve, Tone::Dot) => 'Ặ',
        ('e', Shape::Plain, Tone::Acute) => 'É',
        ('e', Shape::Plain, Tone::Grave) => 'È',
        ('e', Shape::Plain, Tone::Hook) => 'Ẻ',
        ('e', Shape::Plain, Tone::Tilde) => 'Ẽ',
        ('e', Shape::Plain, Tone::Dot) => 'Ẹ',
        ('e', Shape::Circumflex, Tone::Level) => 'Ê',
        ('e', Shape::Circumflex, Tone::Acute) => 'Ế',
        ('e', Shape::Circumflex, Tone::Grave) => 'Ề',
        ('e', Shape::Circumflex, Tone::Hook) => 'Ể',
        ('e', Shape::Circumflex, Tone::Tilde) => 'Ễ',
        ('e', Shape::Circumflex, Tone::Dot) => 'Ệ',
        ('i', Shape::Plain, Tone::Acute) => 'Í',
        ('i', Shape::Plain, Tone::Grave) => 'Ì',
        ('i', Shape::Plain, Tone::Hook) => 'Ỉ',
        ('i', Shape::Plain, Tone::Tilde) => 'Ĩ',
        ('i', Shape::Plain, Tone::Dot) => 'Ị',
        ('o', Shape::Plain, Tone::Acute) => 'Ó',
        ('o', Shape::Plain, Tone::Grave) => 'Ò',
        ('o', Shape::Plain, Tone::Hook) => 'Ỏ',
        ('o', Shape::Plain, Tone::Tilde) => 'Õ',
        ('o', Shape::Plain, Tone::Dot) => 'Ọ',
        ('o', Shape::Circumflex, Tone::Level) => 'Ô',
        ('o', Shape::Circumflex, Tone::Acute) => 'Ố',
        ('o', Shape::Circumflex, Tone::Grave) => 'Ồ',
        ('o', Shape::Circumflex, Tone::Hook) => 'Ổ',
        ('o', Shape::Circumflex, Tone::Tilde) => 'Ỗ',
        ('o', Shape::Circumflex, Tone::Dot) => 'Ộ',
        ('o', Shape::Horn, Tone::Level) => 'Ơ',
        ('o', Shape::Horn, Tone::Acute) => 'Ớ',
        ('o', Shape::Horn, Tone::Grave) => 'Ờ',
        ('o', Shape::Horn, Tone::Hook) => 'Ở',
        ('o', Shape::Horn, Tone::Tilde) => 'Ỡ',
        ('o', Shape::Horn, Tone::Dot) => 'Ợ',
        ('u', Shape::Plain, Tone::Acute) => 'Ú',
        ('u', Shape::Plain, Tone::Grave) => 'Ù',
        ('u', Shape::Plain, Tone::Hook) => 'Ủ',
        ('u', Shape::Plain, Tone::Tilde) => 'Ũ',
        ('u', Shape::Plain, Tone::Dot) => 'Ụ',
        ('u', Shape::Horn, Tone::Level) => 'Ư',
        ('u', Shape::Horn, Tone::Acute) => 'Ứ',
        ('u', Shape::Horn, Tone::Grave) => 'Ừ',
        ('u', Shape::Horn, Tone::Hook) => 'Ử',
        ('u', Shape::Horn, Tone::Tilde) => 'Ữ',
        ('u', Shape::Horn, Tone::Dot) => 'Ự',
        ('y', Shape::Plain, Tone::Acute) => 'Ý',
        ('y', Shape::Plain, Tone::Grave) => 'Ỳ',
        ('y', Shape::Plain, Tone::Hook) => 'Ỷ',
        ('y', Shape::Plain, Tone::Tilde) => 'Ỹ',
        ('y', Shape::Plain, Tone::Dot) => 'Ỵ',
        ('d', Shape::Stroke, _) => 'Đ',
        _ => spec_upper_ascii(base),
    }
}

/// The character a glyph displays as.
pub open spec fn spec_glyph_char(g: Glyph) -> char {
    if g.upper {
        spec_compose_upper(g.base, g.shape, g.tone)
    } else {
        spec_compose_lower(g.base, g.shape, g.tone)
    }
}

/// Executable counterpart of [`spec_glyph_char`].
pub fn glyph_char(g: Glyph) -> (c: char)
    ensures
        c == spec_glyph_char(g),
{
    if g.upper {
        match (g.base, g.shape, g.tone) {
            ('a', Shape::Plain, Tone::Acute) => 'Á',
            ('a', Shape::Plain, Tone::Grave) => 'À',
            ('a', Shape::Plain, Tone::Hook) => 'Ả',
            ('a', Shape::Plain, Tone::Tilde) => 'Ã',
            ('a', Shape::Plain, Tone::Dot) => 'Ạ',
            ('a', Shape::Circumflex, Tone::Level) => 'Â',
            ('a', Shape::Circumflex, Tone::Acute) => 'Ấ',
            ('a', Shape::Circumflex, Tone::Grave) => 'Ầ',
            ('a', Shape::Circumflex, Tone::Hook) => 'Ẩ',
            ('a', Shape::Circumflex, Tone::Tilde) => 'Ẫ',
            ('a', Shape::Circumflex, Tone::Dot) => 'Ậ',
            ('a', Shape::Breve, Tone::Level) => 'Ă',
            ('a', Shape::Breve, Tone::Acute) => 'Ắ',
            ('a', Shape::Breve, Tone::Grave) => 'Ằ',
            ('a', Shape::Breve, Tone::Hook) => 'Ẳ',
            ('a', Shape::Breve, Tone::Tilde) => 'Ẵ',
            ('a', Shape::Breve, Tone::Dot) => 'Ặ',
            ('e', Shape::Plain, Tone::Acute) => 'É',
            ('e', Shape::Plain, Tone::Grave) => 'È',
            ('e', Shape::Plain, Tone::Hook) => 'Ẻ',
            ('e', Shape::Plain, Tone::Tilde) => 'Ẽ',
            ('e', Shape::Plain, Tone::Dot) => 'Ẹ',
            ('e', Shape::Circumflex, Tone::Level) => 'Ê',
            ('e', Shape::Circumflex, Tone::Acute) => 'Ế',
            ('e', Shape::Circumflex, Tone::Grave) => 'Ề',
            ('e', Shape::Circumflex, Tone::Hook) => 'Ể',
            ('e', Shape::Circumflex, Tone::Tilde) => 'Ễ',
            ('e', Shape::Circumflex, Tone::Dot) => 'Ệ',
            ('i', Shape::Plain, Tone::Acute) => 'Í',
            ('i', Shape::Plain, Tone::Grave) => 'Ì',
            ('i', Shape::Plain, Tone::Hook) => 'Ỉ',
            ('i', Shape::Plain, Tone::Tilde) => 'Ĩ',
            ('i', Shape::Plain, Tone::Dot) => 'Ị',
            ('o', Shape::Plain, Tone::Acute) => 'Ó',
            ('o', Shape::Plain, Tone::Grave) => 'Ò',
            ('o', Shape::Plain, Tone::Hook) => 'Ỏ',
            ('o', Shape::Plain, Tone::Tilde) => 'Õ',
            ('o', Shape::Plain, Tone::Dot) => 'Ọ',
            ('o', Shape::Circumflex, Tone::Level) => 'Ô',
            ('o', Shape::Circumflex, Tone::Acute) => 'Ố',
            ('o', Shape::Circumflex, Tone::Grave) => 'Ồ',
            ('o', Shape::Circumflex, Tone::Hook) => 'Ổ',
            ('o', Shape::Circumflex, Tone::Tilde) => 'Ỗ',
            ('o', Shape::Circumflex, Tone::Dot) => 'Ộ',
            ('o', Shape::Horn, Tone::Level) => 'Ơ',
            ('o', Shape::Horn, Tone::Acute) => 'Ớ',
            ('o', Shape::Horn, Tone::Grave) => 'Ờ',
            ('o', Shape::Horn, Tone::Hook) => 'Ở',
            ('o', Shape::Horn, Tone::Tilde) => 'Ỡ',
            ('o', Shape::Horn, Tone::Dot) => 'Ợ',
            ('u', Shape::Plain, Tone::Acute) => 'Ú',
            ('u', Shape::Plain, Tone::Grave) => 'Ù',
            ('u', Shape::Plain, Tone::Hook) => 'Ủ',
            ('u', Shape::Plain, Tone::Tilde) => 'Ũ',
            ('u', Shape::Plain, Tone::Dot) => 'Ụ',
            ('u', Shape::Horn, Tone::Level) => 'Ư',
            ('u', Shape::Horn, Tone::Acute) => 'Ứ',
            ('u', Shape::Horn, Tone::Grave) => 'Ừ',
            ('u', Shape::Horn, Tone::Hook) => 'Ử',
            ('u', Shape::Horn, Tone::Tilde) => 'Ữ',
            ('u', Shape::Horn, Tone::Dot) => 'Ự',
            ('y', Shape::Plain, Tone::Acute) => 'Ý',
            ('y', Shape::Plain, Tone::Grave) => 'Ỳ',
            ('y', Shape::Plain, Tone::Hook) => 'Ỷ',
            ('y', Shape::Plain, Tone::Tilde) => 'Ỹ',
            ('y', Shape::Plain, Tone::Dot) => 'Ỵ',
            ('d', Shape::Stroke, _) => 'Đ',
            _ => upper_ascii(g.base),
        }
    } else {
        match (g.base, g.shape, g.tone) {
            ('a', Shape::Plain, Tone::Acute) => 'á',
            ('a', Shape::Plain, Tone::Grave) => 'à',
            ('a', Shape::Plain, Tone::Hook) => 'ả',
            ('a', Shape::Plain, Tone::Tilde) => 'ã',
            ('a', Shape::Plain, Tone::Dot) => 'ạ',
            ('a', Shape::Circumflex, Tone::Level) => 'â',
            ('a', Shape::Circumflex, Tone::Acute) => 'ấ',
            ('a', Shape::Circumflex, Tone::Grave) => 'ầ',
            ('a', Shape::Circumflex, Tone::Hook) => 'ẩ',
            ('a', Shape::Circumflex, Tone::Tilde) => 'ẫ',
            ('a', Shape::Circumflex, Tone::Dot) => 'ậ',
            ('a', Shape::Breve, Tone::Level) => 'ă',
            ('a', Shape::Breve, Tone::Acute) => 'ắ',
            ('a', Shape::Breve, Tone::Grave) => 'ằ',
            ('a', Shape::Breve, Tone::Hook) => 'ẳ',
            ('a', Shape::Breve, Tone::Tilde) => 'ẵ',
            ('a', Shape::Breve, Tone::Dot) => 'ặ',
            ('e', Shape::Plain, Tone::Acute) => 'é',
            ('e', Shape::Plain, Tone::Grave) => 'è',
            ('e', Shape::Plain, Tone::Hook) => 'ẻ',
            ('e', Shape::Plain, Tone::Tilde) => 'ẽ',
            ('e', Shape::Plain, Tone::Dot) => 'ẹ',
            ('e', Shape::Circumflex, Tone::Level) => 'ê',
            ('e', Shape::Circumflex, Tone::Acute) => 'ế',
            ('e', Shape::Circumflex, Tone::Grave) => 'ề',
            ('e', Shape::Circumflex, Tone::Hook) => 'ể',
            ('e', Shape::Circumflex, Tone::Tilde) => 'ễ',
            ('e', Shape::Circumflex, Tone::Dot) => 'ệ',
            ('i', Shape::Plain, Tone::Acute) => 'í',
            ('i', Shape::Plain, Tone::Grave) => 'ì',
            ('i', Shape::Plain, Tone::Hook) => 'ỉ',
            ('i', Shape::Plain, Tone::Tilde) => 'ĩ',
            ('i', Shape::Plain, Tone::Dot) => 'ị',
            ('o', Shape::Plain, Tone::Acute) => 'ó',
            ('o', Shape::Plain, Tone::Grave) => 'ò',
            ('o', Shape::Plain, Tone::Hook) => 'ỏ',
            ('o', Shape::Plain, Tone::Tilde) => 'õ',
            ('o', Shape::Plain, Tone::Dot) => 'ọ',
            ('o', Shape::Circumflex, Tone::Level) => 'ô',
            ('o', Shape::Circumflex, Tone::Acute) => 'ố',
            ('o', Shape::Circumflex, Tone::Grave) => 'ồ',
            ('o', Shape::Circumflex, Tone::Hook) => 'ổ',
            ('o', Shape::Circumflex, Tone::Tilde) => 'ỗ',
            ('o', Shape::Circumflex, Tone::Dot) => 'ộ',
            ('o', Shape::Horn, Tone::Level) => 'ơ',
            ('o', Shape::Horn, Tone::Acute) => 'ớ',
            ('o', Shape::Horn, Tone::Grave) => 'ờ',
            ('o', Shape::Horn, Tone::Hook) => 'ở',
            ('o', Shape::Horn, Tone::Tilde) => 'ỡ',
            ('o', Shape::Horn, Tone::Dot) => 'ợ',
            ('u', Shape::Plain, Tone::Acute) => 'ú',
            ('u', Shape::Plain, Tone::Grave) => 'ù',
            ('u', Shape::Plain, Tone::Hook) => 'ủ',
            ('u', Shape::Plain, Tone::Tilde) => 'ũ',
            ('u', Shape::Plain, Tone::Dot) => 'ụ',
            ('u', Shape::Horn, Tone::Level) => 'ư',
            ('u', Shape::Horn, Tone::Acute) => 'ứ',
            ('u', Shape::Horn, Tone::Grave) => 'ừ',
            ('u', Shape::Horn, Tone::Hook) => 'ử',
            ('u', Shape::Horn, Tone::Tilde) => 'ữ',
            ('u', Shape::Horn, Tone::Dot) => 'ự',
            ('y', Shape::Plain, Tone::Acute) => 'ý',
            ('y', Shape::Plain, Tone::Grave) => 'ỳ',
            ('y', Shape::Plain, Tone::Hook) => 'ỷ',
            ('y', Shape::Plain, Tone::Tilde) => 'ỹ',
            ('y', Shape::Plain, Tone::Dot) => 'ỵ',
            ('d', Shape::Stroke, _) => 'đ',
            _ => g.base,
        }
    }
}

} // verus!

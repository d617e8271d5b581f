//! Colour assignment for request identifiers in log output.

use vstd::prelude::*;

use owo_colors::{AnsiColors, DynColors, Style};

verus! {

/// The distinct colours that make up the palette.
#[derive(Clone, Copy, Debug, PartialEq, Eq, Structural, Hash)]
pub enum PaletteColor {
    Red,
    Green,
    Yellow,
    Blue,
    Magenta,
    Cyan,
    BrightRed,
    BrightGreen,
    BrightYellow,
    BrightBlue,
    BrightMagenta,
    BrightCyan,
}

/// Number of entries in the palette.
pub const PALETTE_SIZE: u32 = 32;

/// Number of distinct colours; the palette repeats them in this order.
pub const DISTINCT_COLORS: u32 = 12;

/// The colour at `index` of the repeating palette.
pub open spec fn palette_color(index: nat) -> PaletteColor {
    let k = index % (DISTINCT_COLORS as nat);
    if k == 0 {
        PaletteColor::Red
    } else if k == 1 {
        PaletteColor::Green
    } else if k == 2 {
        PaletteColor::Yellow
    } else if k == 3 {
        PaletteColor::Blue
    } else if k == 4 {
        PaletteColor::Magenta
    } else if k == 5 {
        PaletteColor::Cyan
    } else if k == 6 {
        PaletteColor::BrightRed
    } else if k == 7 {
        PaletteColor::BrightGreen
    } else if k == 8 {
        PaletteColor::BrightYellow
    } else if k == 9 {
        PaletteColor::BrightBlue
    } else if k == 10 {
        PaletteColor::BrightMagenta
    } else {
        PaletteColor::BrightCyan
    }
}

/// The 32-bit fold `acc = acc * 31 + code(c)`, wrapping on overflow, over `s`.
pub open spec fn id_hash(s: Seq<char>) -> u32
    decreases s.len(),
{
    if s.len() == 0 {
        0
    } else {
        ((id_hash(s.drop_last()) as nat * 31 + (s.last() as u32) as nat) % 0x1_0000_0000) as u32
    }
}

/// The colour assigned to an identifier.
pub open spec fn id_color(s: Seq<char>) -> PaletteColor {
    palette_color((id_hash(s) % PALETTE_SIZE) as nat)
}

/// Palette lookup.
pub fn palette_entry(index: u32) -> (c: PaletteColor)
    requires
        index < PALETTE_SIZE,
    ensures
        c == palette_color(index as nat),
{
    let k: u32 = index % DISTINCT_COLORS;
    if k == 0 {
        PaletteColor::Red
    } else if k == 1 {
        PaletteColor::Green
    } else if k == 2 {
        PaletteColor::Yellow
    } else if k == 3 {
        PaletteColor::Blue
    } else if k == 4 {
        PaletteColor::Magenta
    } else if k == 5 {
        PaletteColor::Cyan
    } else if k == 6 {
        PaletteColor::BrightRed
    } else if k == 7 {
        PaletteColor::BrightGreen
    } else if k == 8 {
        PaletteColor::BrightYellow
    } else if k == 9 {
        PaletteColor::BrightBlue
    } else if k == 10 {
        PaletteColor::BrightMagenta
    } else {
        PaletteColor::BrightCyan
    }
}

/// One step of the fold equals the wrapping operations performed at run time.
proof fn lemma_hash_step(acc: u32, c: u32)
    ensures
        ((acc as nat * 31 + c as nat) % 0x1_0000_0000) as u32 == u32_wrapping_step(acc, c),
{
    let m = acc.wrapping_mul(31);
    assert(m == (acc as nat * 31) % 0x1_0000_0000);
    vstd::arithmetic::div_mod::lemma_add_mod_noop(acc as int * 31, c as int, 0x1_0000_0000);
    vstd::arithmetic::div_mod::lemma_mod_twice(c as int, 0x1_0000_0000);
}

spec fn u32_wrapping_step(acc: u32, c: u32) -> u32 {
    vstd::wrapping::u32_specs::wrapping_add(vstd::wrapping::u32_specs::wrapping_mul(acc, 31), c)
}

/// Folds the identifier's characters into the 32-bit hash.
pub fn hash_id(id: &str) -> (h: u32)
    ensures
        h == id_hash(id@),
{
    let n = id.unicode_len();
    let mut acc: u32 = 0;
    let mut i: usize = 0;
    while i < n
        invariant
            n == id@.len(),
            i <= n,
            acc == id_hash(id@.subrange(0, i as int)),
        decreases n - i,
    {
        let c = id.get_char(i);
        proof {
            let pre = id@.subrange(0, i as int);
            let next = id@.subrange(0, i + 1);
            assert(next.drop_last() =~= pre);
            assert(next.last() == c);
            lemma_hash_step(acc, c as u32);
        }
        acc = acc.wrapping_mul(31).wrapping_add(c as u32);
        i = i + 1;
    }
    assert(id@.subrange(0, n as int) =~= id@);
    acc
}

/// Deterministically maps a request identifier to one of the palette's colours.
pub fn get_color_for_id(id: &str) -> (c: PaletteColor)
    ensures
        c == id_color(id@),
{
    let h = hash_id(id);
    palette_entry(h % PALETTE_SIZE)
}

/// The SGR parameter that selects `color` as the foreground colour.
pub open spec fn ansi_code(color: PaletteColor) -> Seq<char> {
    match color {
        PaletteColor::Red => "31"@,
        PaletteColor::Green => "32"@,
        PaletteColor::Yellow => "33"@,
        PaletteColor::Blue => "34"@,
        PaletteColor::Magenta => "35"@,
        PaletteColor::Cyan => "36"@,
        PaletteColor::BrightRed => "91"@,
        PaletteColor::BrightGreen => "92"@,
        PaletteColor::BrightYellow => "93"@,
        PaletteColor::BrightBlue => "94"@,
        PaletteColor::BrightMagenta => "95"@,
        PaletteColor::BrightCyan => "96"@,
    }
}

/// `text` in the foreground `color`: the colour's escape sequence before it
/// and the reset sequence after it.
pub open spec fn painted(text: Seq<char>, color: PaletteColor) -> Seq<char> {
    "\x1b["@ + ansi_code(color) + "m"@ + text + "\x1b[0m"@
}

/// Relies on `owo_colors::Style` with an ANSI foreground colour, displayed
/// around `text` and collected into a `String`: the style's prefix
/// `ESC [ code m`, the text, then the reset suffix `ESC [ 0 m`.
#[verifier::external_body]
fn paint(text: &str, color: PaletteColor) -> (r: String)
    ensures
        r@ == painted(text@, color),
{
    let ansi = match color {
        PaletteColor::Red => AnsiColors::Red,
        PaletteColor::Green => AnsiColors::Green,
        PaletteColor::Yellow => AnsiColors::Yellow,
        PaletteColor::Blue => AnsiColors::Blue,
        PaletteColor::Magenta => AnsiColors::Magenta,
        PaletteColor::Cyan => AnsiColors::Cyan,
        PaletteColor::BrightRed => AnsiColors::BrightRed,
        PaletteColor::BrightGreen => AnsiColors::BrightGreen,
        PaletteColor::BrightYellow => AnsiColors::BrightYellow,
        PaletteColor::BrightBlue => AnsiColors::BrightBlue,
        PaletteColor::BrightMagenta => AnsiColors::BrightMagenta,
        PaletteColor::BrightCyan => AnsiColors::BrightCyan,
    };
    Style::new().color(DynColors::Ansi(ansi)).style(text).to_string()
}

/// An identifier in square brackets.
pub open spec fn bracketed(id: Seq<char>) -> Seq<char> {
    "["@ + id + "]"@
}

/// Formats a request identifier in brackets, in the identifier's colour.
pub fn colored_id(id: &str) -> (r: String)
    ensures
        r@ == painted(bracketed(id@), id_color(id@)),
{
    let color = get_color_for_id(id);
    let mut text = String::from_str("[");
    text.append(id);
    text.append("]");
    paint(text.as_str(), color)
}

/// The colour of an identifier depends on nothing but its characters.
pub proof fn lemma_color_is_function_of_id(a: Seq<char>, b: Seq<char>)
    requires
        a == b,
    ensures
        id_color(a) == id_color(b),
{
}

} // verus!

//! The status line that is shown while the local daemon starts: a label over which a band of light
//! moves.
use vstd::prelude::*;
use vstd::string::StringExecFns;

use crate::text::{chars_of, concat, decimal_text, text_contains};

verus! {

/// The label, with its bullet in front.
pub open spec fn label() -> Seq<char> {
    "\u{2022} Starting up..."@
}

/// How many characters wide the dark is on each side of the label.
pub const PADDING: usize = 10;

/// How strongly a character is drawn where the terminal has no colors.
#[derive(Debug, Clone, Copy, PartialEq, Eq, Structural)]
pub enum Emphasis {
    Bold,
    Plain,
    Dim,
}

/// How a character is drawn.
#[derive(Debug, Clone, Copy, PartialEq, Eq, Structural)]
pub struct Shade {
    pub red: u8,
    pub green: u8,
    pub blue: u8,
    pub emphasis: Emphasis,
}

/// The band of light.
#[derive(Debug, PartialEq, Eq)]
pub struct Band {
    /// How the characters are drawn, by their distance from the middle of the band.
    pub shades: Vec<Shade>,
    /// How the characters outside the band are drawn.
    pub resting: Shade,
}

/// How far the character at `index` is from the middle of the band.
pub open spec fn distance(index: int, position: int) -> int {
    if index + PADDING >= position {
        index + PADDING - position
    } else {
        position - (index + PADDING)
    }
}

/// How a character at `distance` from the middle of the band is drawn.
pub open spec fn shade_at(band: Band, distance: int) -> Shade {
    if distance < band.shades@.len() {
        band.shades@[distance]
    } else {
        band.resting
    }
}

/// A character with the codes by which the terminal draws it so.
pub open spec fn drawn(shade: Shade, truecolor: bool, ch: char) -> Seq<char> {
    if truecolor {
        ("\u{1b}[1;38;2;"@ + crate::text::decimal(shade.red as nat) + ";"@
            + crate::text::decimal(shade.green as nat) + ";"@ + crate::text::decimal(
            shade.blue as nat,
        ) + "m"@).push(ch)
    } else {
        match shade.emphasis {
            Emphasis::Bold => "\u{1b}[1m"@.push(ch) + "\u{1b}[22m"@,
            Emphasis::Dim => "\u{1b}[2m"@.push(ch) + "\u{1b}[22m"@,
            Emphasis::Plain => seq![ch],
        }
    }
}

/// The first `count` characters of the label, each drawn as its distance from the band has it.
pub open spec fn drawn_label(band: Band, position: int, truecolor: bool, count: int) -> Seq<char>
    decreases count,
{
    if count <= 0 {
        Seq::empty()
    } else {
        drawn_label(band, position, truecolor, count - 1) + drawn(
            shade_at(band, distance(count - 1, position)),
            truecolor,
            label()[count - 1],
        )
    }
}

/// A character with the codes by which the terminal draws it so.
fn draw(shade: &Shade, truecolor: bool, ch: char) -> (out: String)
    ensures
        out@ == drawn(*shade, truecolor, ch),
{
    if truecolor {
        let mut out = concat("\u{1b}[1;38;2;", decimal_text(shade.red as usize).as_str());
        out.append(";");
        out.append(decimal_text(shade.green as usize).as_str());
        out.append(";");
        out.append(decimal_text(shade.blue as usize).as_str());
        out.append("m");
        out.push(ch);
        out
    } else {
        match shade.emphasis {
            Emphasis::Bold => {
                let mut out = "\u{1b}[1m".to_owned();
                out.push(ch);
                out.append("\u{1b}[22m");
                out
            },
            Emphasis::Dim => {
                let mut out = "\u{1b}[2m".to_owned();
                out.push(ch);
                out.append("\u{1b}[22m");
                out
            },
            Emphasis::Plain => {
                let mut out = String::new();
                out.push(ch);
                assert(out@ =~= seq![ch]);
                out
            },
        }
    }
}

/// How many positions the band runs through in one sweep: the label, and the dark on both sides.
pub fn sweep_length() -> (length: usize)
    ensures
        length == label().len() + 2 * PADDING,
{
    proof {
        reveal_strlit("\u{2022} Starting up...");
    }
    chars_of("\u{2022} Starting up...").len() + 2 * PADDING
}

/// The status line with the middle of the band at `position`, and the drawing reset behind it.
pub fn render_frame(position: i64, truecolor: bool, band: &Band) -> (frame: String)
    ensures
        frame@ == drawn_label(*band, position as int, truecolor, label().len() as int)
            + "\u{1b}[0m"@,
{
    let chars = chars_of("\u{2022} Starting up...");
    let mut out = String::new();
    let mut i: usize = 0;
    while i < chars.len()
        invariant
            i <= chars@.len(),
            chars@ == label(),
            out@ == drawn_label(*band, position as int, truecolor, i as int),
        decreases chars@.len() - i,
    {
        let offset: i128 = i as i128 + PADDING as i128 - position as i128;
        let away: i128 = if offset >= 0 {
            offset
        } else {
            -offset
        };
        assert(away == distance(i as int, position as int));
        let shade = if away < band.shades.len() as i128 {
            &band.shades[away as usize]
        } else {
            &band.resting
        };
        let cell = draw(shade, truecolor, chars[i]);
        out.append(cell.as_str());
        i += 1;
    }
    out.append("\u{1b}[0m");
    out
}

/// Whether the terminal says that it has all colors. `colorterm` is the value of the variable
/// `COLORTERM`.
pub fn supports_truecolor(colorterm: &Option<String>) -> (yes: bool)
    ensures
        yes == (colorterm matches Some(value) && (crate::text::contains_text(
            value@,
            "truecolor"@,
        ) || crate::text::contains_text(value@, "24bit"@))),
{
    match colorterm {
        Some(value) => text_contains(value.as_str(), "truecolor") || text_contains(
            value.as_str(),
            "24bit",
        ),
        None => false,
    }
}

/// Whether the status line is shown: only while the daemon has to be started, and only on a terminal.
pub fn shows_status_line(daemon_running: bool, terminal: bool) -> (yes: bool)
    ensures
        yes == (!daemon_running && terminal),
{
    !daemon_running && terminal
}

/// The band passes over the line without a trace: where it is too far away to touch any character,
/// every character is drawn at rest.
pub proof fn law_characters_outside_the_band_rest(
    band: Band,
    position: int,
    truecolor: bool,
    index: int,
)
    requires
        0 <= index < label().len(),
        distance(index, position) >= band.shades@.len(),
    ensures
        drawn_label(band, position, truecolor, index + 1) == drawn_label(
            band,
            position,
            truecolor,
            index,
        ) + drawn(band.resting, truecolor, label()[index]),
{
}

/// The band looks the same on both of its sides.
pub proof fn law_band_is_symmetric(band: Band, position: int, offset: int)
    ensures
        shade_at(band, distance(position - PADDING + offset, position)) == shade_at(
            band,
            distance(position - PADDING - offset, position),
        ),
{
}

} // verus!

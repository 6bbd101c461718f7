//! Colours of the dark theme.

use vstd::prelude::*;
use vstd::string::*;
use crate::types::{DownloadStatus, StatusView};

verus! {

/// A colour as red, green and blue.
#[derive(Debug, Clone, Copy, PartialEq, Eq, Structural)]
pub struct Rgb {
    pub r: u8,
    pub g: u8,
    pub b: u8,
}

/// The byte of the character `#`.
pub const HASH: u8 = 0x23;

/// The byte of the character `+`.
pub const PLUS: u8 = 0x2b;

/// Whether `b` is the byte of a hexadecimal digit.
pub open spec fn is_hex(b: u8) -> bool {
    (0x30 <= b && b <= 0x39) || (0x41 <= b && b <= 0x46) || (0x61 <= b && b <= 0x66)
}

/// The number that the hexadecimal digit `b` stands for.
pub open spec fn hex_value(b: u8) -> int {
    if 0x30 <= b && b <= 0x39 {
        b - 0x30
    } else if 0x41 <= b && b <= 0x46 {
        b - 0x41 + 10
    } else {
        b - 0x61 + 10
    }
}

/// The number that two bytes write in base sixteen: two digits, or a plus
/// sign and one digit; zero for anything else.
pub open spec fn hex_pair(hi: u8, lo: u8) -> int {
    if is_hex(hi) && is_hex(lo) {
        16 * hex_value(hi) + hex_value(lo)
    } else if hi == PLUS && is_hex(lo) {
        hex_value(lo)
    } else {
        0
    }
}

/// The position of the first byte at or after `from` that is no `#`, or the
/// length of `s`.
pub open spec fn skip_hashes(s: Seq<u8>, from: int) -> int
    decreases s.len() - from,
{
    if from < 0 || from >= s.len() {
        s.len() as int
    } else if s[from] != HASH {
        from
    } else {
        skip_hashes(s, from + 1)
    }
}

/// The colour that the bytes of a text name: after any `#` at the beginning
/// there must be six bytes, which are read as three numbers in base
/// sixteen; a text of any other length names black.
pub open spec fn colour_of(bytes: Seq<u8>) -> Rgb {
    let at = skip_hashes(bytes, 0);
    if bytes.len() - at != 6 {
        Rgb { r: 0, g: 0, b: 0 }
    } else {
        Rgb {
            r: hex_pair(bytes[at], bytes[at + 1]) as u8,
            g: hex_pair(bytes[at + 2], bytes[at + 3]) as u8,
            b: hex_pair(bytes[at + 4], bytes[at + 5]) as u8,
        }
    }
}

/// The number that the hexadecimal digit `b` stands for, if it is one.
fn hex_digit(b: u8) -> (r: Option<u8>)
    ensures
        r is Some == is_hex(b),
        r is Some ==> r->0 == hex_value(b) && r->0 < 16,
{
    if 0x30 <= b && b <= 0x39 {
        Some(b - 0x30)
    } else if 0x41 <= b && b <= 0x46 {
        Some(b - 0x41 + 10)
    } else if 0x61 <= b && b <= 0x66 {
        Some(b - 0x61 + 10)
    } else {
        None
    }
}

/// The number that two bytes write in base sixteen, as `hex_pair` says.
fn read_pair(hi: u8, lo: u8) -> (r: u8)
    ensures
        r == hex_pair(hi, lo),
{
    match hex_digit(lo) {
        None => 0,
        Some(l) => match hex_digit(hi) {
            Some(h) => 16 * h + l,
            None => if hi == PLUS {
                l
            } else {
                0
            },
        },
    }
}

/// Reads a colour from its name in hexadecimal, such as `#1e1e2e`.
pub fn hex_color(hex: &str) -> (c: Rgb)
    ensures
        c == colour_of(hex.spec_bytes()),
{
    let bytes = hex.as_bytes_vec();
    let mut at: usize = 0;
    while at < bytes.len() && bytes[at] == HASH
        invariant
            at <= bytes.len(),
            skip_hashes(bytes@, 0) == skip_hashes(bytes@, at as int),
        decreases bytes.len() - at,
    {
        at += 1;
    }
    if bytes.len() - at != 6 {
        return Rgb { r: 0, g: 0, b: 0 };
    }
    Rgb {
        r: read_pair(bytes[at], bytes[at + 1]),
        g: read_pair(bytes[at + 2], bytes[at + 3]),
        b: read_pair(bytes[at + 4], bytes[at + 5]),
    }
}

/// What a name of the form `#rrggbb` names: its three pairs of digits.
proof fn lemma_colour_name(name: &str)
    requires
        name@.len() == 7,
        is_ascii(name),
        name@[0] == '#',
        name@[1] != '#',
    ensures
        colour_of(name.spec_bytes()) == (Rgb {
            r: hex_pair(name@[1] as u8, name@[2] as u8) as u8,
            g: hex_pair(name@[3] as u8, name@[4] as u8) as u8,
            b: hex_pair(name@[5] as u8, name@[6] as u8) as u8,
        }),
{
    is_ascii_spec_bytes(name);
    let b = name.spec_bytes();
    assert(b.len() == 7);
    assert(b[0] == HASH);
    assert(b[1] != HASH) by {
        assert('\0' <= name@[1] <= '\u{7f}');
    }
    assert(skip_hashes(b, 1) == 1);
    assert(skip_hashes(b, 0) == 1);
}

/// The look of the window's background.
#[derive(Debug, Clone, Copy, PartialEq, Eq, Structural)]
pub struct DarkBackgroundStyle;

impl DarkBackgroundStyle {
    /// The background: `#1e1e2e`.
    pub fn background(&self) -> (c: Rgb)
        ensures
            c == (Rgb { r: 0x1e, g: 0x1e, b: 0x2e }),
    {
        let name = "#1e1e2e";
        proof {
            reveal_strlit("#1e1e2e");
            lemma_colour_name(name);
        }
        hex_color(name)
    }

    /// The colour of text: white.
    pub fn text_color(&self) -> (c: Rgb)
        ensures
            c == (Rgb { r: 255, g: 255, b: 255 }),
    {
        Rgb { r: 255, g: 255, b: 255 }
    }
}

/// The look of the card that shows one job.
#[derive(Debug, Clone, Copy, PartialEq, Eq, Structural)]
pub struct DarkCardStyle;

impl DarkCardStyle {
    /// The background: `#313244`.
    pub fn background(&self) -> (c: Rgb)
        ensures
            c == (Rgb { r: 0x31, g: 0x32, b: 0x44 }),
    {
        let name = "#313244";
        proof {
            reveal_strlit("#313244");
            lemma_colour_name(name);
        }
        hex_color(name)
    }

    /// The colour of the border: `#45475a`.
    pub fn border_color(&self) -> (c: Rgb)
        ensures
            c == (Rgb { r: 0x45, g: 0x47, b: 0x5a }),
    {
        let name = "#45475a";
        proof {
            reveal_strlit("#45475a");
            lemma_colour_name(name);
        }
        hex_color(name)
    }

    /// The width of the border.
    pub fn border_width(&self) -> (w: u8)
        ensures
            w == 1,
    {
        1
    }

    /// The radius of the border's corners.
    pub fn border_radius(&self) -> (w: u8)
        ensures
            w == 8,
    {
        8
    }
}

/// The look of a progress bar in a given colour.
#[derive(Debug, Clone, Copy, PartialEq, Eq, Structural)]
pub struct BarStyle {
    pub color: Rgb,
}

impl BarStyle {
    /// The background of the bar: `#45475a`.
    pub fn background(&self) -> (c: Rgb)
        ensures
            c == (Rgb { r: 0x45, g: 0x47, b: 0x5a }),
    {
        let name = "#45475a";
        proof {
            reveal_strlit("#45475a");
            lemma_colour_name(name);
        }
        hex_color(name)
    }

    /// The colour of the part that is filled.
    pub fn bar(&self) -> (c: Rgb)
        ensures
            c == self.color,
    {
        self.color
    }

    /// The radius of the bar's corners.
    pub fn border_radius(&self) -> (w: u8)
        ensures
            w == 4,
    {
        4
    }
}

/// The colour that marks a job in a given state.
pub open spec fn status_rgb(status: StatusView) -> Rgb {
    match status {
        StatusView::Queued => Rgb { r: 0xa6, g: 0xad, b: 0xc8 },
        StatusView::Downloading => Rgb { r: 0x89, g: 0xb4, b: 0xfa },
        StatusView::Finished => Rgb { r: 0xa6, g: 0xe3, b: 0xa1 },
        StatusView::Failed(_) => Rgb { r: 0xf3, g: 0x8b, b: 0xa8 },
        StatusView::Cancelled => Rgb { r: 0xfa, g: 0xb3, b: 0x87 },
    }
}

/// The colour that marks a job in the given state.
pub fn status_color(status: &DownloadStatus) -> (c: Rgb)
    ensures
        c == status_rgb(status@),
{
    match status {
        DownloadStatus::Queued => {
            let name = "#a6adc8";
            proof {
                reveal_strlit("#a6adc8");
                lemma_colour_name(name);
            }
            hex_color(name)
        },
        DownloadStatus::Downloading => {
            let name = "#89b4fa";
            proof {
                reveal_strlit("#89b4fa");
                lemma_colour_name(name);
            }
            hex_color(name)
        },
        DownloadStatus::Finished => {
            let name = "#a6e3a1";
            proof {
                reveal_strlit("#a6e3a1");
                lemma_colour_name(name);
            }
            hex_color(name)
        },
        DownloadStatus::Failed(_) => {
            let name = "#f38ba8";
            proof {
                reveal_strlit("#f38ba8");
                lemma_colour_name(name);
            }
            hex_color(name)
        },
        DownloadStatus::Cancelled => {
            let name = "#fab387";
            proof {
                reveal_strlit("#fab387");
                lemma_colour_name(name);
            }
            hex_color(name)
        },
    }
}

} // verus!

//! The attributed cell: one character code with foreground and background
//! colors, the atomic unit of the display grid.

use vstd::prelude::*;

verus! {

/// Number of colors the display can show. Colors are 6-bit values; wider
/// values wrap silently to this depth, matching the hardware color depth.
pub const COLOR_DEPTH: u8 = 64;

/// One grid cell: a character code and its two colors.
///
/// A well-formed cell keeps both colors below [`COLOR_DEPTH`]; every
/// constructor truncates its color arguments to that range.
#[derive(Clone, Copy, Debug, PartialEq, Eq, Structural)]
pub struct AChar {
    pub code: u8,
    pub foreground: u8,
    pub background: u8,
}

impl AChar {
    /// Both colors fit the hardware color depth.
    pub open spec fn wf(self) -> bool {
        self.foreground < COLOR_DEPTH && self.background < COLOR_DEPTH
    }

    /// The zero value: character code 0 with both colors 0, the
    /// well-defined blank.
    pub open spec fn blank() -> AChar {
        AChar { code: 0, foreground: 0, background: 0 }
    }

    /// The cell written for character `code` under pen colors `fg` and `bg`,
    /// with both colors truncated to the hardware depth.
    pub open spec fn attributed(code: u8, fg: u8, bg: u8) -> AChar {
        AChar {
            code,
            foreground: (fg % COLOR_DEPTH) as u8,
            background: (bg % COLOR_DEPTH) as u8,
        }
    }

    /// A cell for the given character with both colors 0.
    pub fn from_character(code: u8) -> (r: AChar)
        ensures
            r == (AChar { code, foreground: 0, background: 0 }),
            r.wf(),
    {
        AChar { code, foreground: 0, background: 0 }
    }

    /// A copy of this cell with its foreground replaced by `color`,
    /// truncated to the hardware color depth.
    pub fn with_foreground(self, color: u8) -> (r: AChar)
        ensures
            r.code == self.code,
            r.background == self.background,
            r.foreground == color % COLOR_DEPTH,
    {
        AChar { code: self.code, foreground: color % COLOR_DEPTH, background: self.background }
    }

    /// A copy of this cell with its background replaced by `color`,
    /// truncated to the hardware color depth.
    pub fn with_background(self, color: u8) -> (r: AChar)
        ensures
            r.code == self.code,
            r.foreground == self.foreground,
            r.background == color % COLOR_DEPTH,
    {
        AChar { code: self.code, foreground: self.foreground, background: color % COLOR_DEPTH }
    }

    /// The packed form handed to the scan-out path: the character code in
    /// the low byte, then the foreground, then the background.
    pub fn packed(self) -> (r: u32)
        requires
            self.wf(),
        ensures
            r == self.code + self.foreground * 0x100 + self.background * 0x10000,
    {
        let c = self.code as u32;
        let f = self.foreground as u32;
        let b = self.background as u32;
        proof {
            assert(c | (f << 8) | (b << 16) == c + f * 0x100 + b * 0x10000) by (bit_vector)
                requires
                    c < 0x100,
                    f < 64,
                    b < 64,
            ;
        }
        c | (f << 8) | (b << 16)
    }
}

impl Default for AChar {
    /// The blank cell: character code 0 with both colors 0.
    fn default() -> (r: Self)
        ensures
            r == AChar::blank(),
    {
        AChar { code: 0, foreground: 0, background: 0 }
    }
}

} // verus!

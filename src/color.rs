//! Colors as raw channel levels, and the channel ranges of a color format.
use vstd::prelude::*;

verus! {

/// A color as the raw level of each of its three channels.
#[derive(Clone, Copy, Debug, PartialEq, Eq, Structural)]
pub struct Rgb {
    pub r: u8,
    pub g: u8,
    pub b: u8,
}

impl Rgb {
    pub fn new(r: u8, g: u8, b: u8) -> (c: Self)
        ensures
            c.r == r,
            c.g == g,
            c.b == b,
    {
        Rgb { r, g, b }
    }
}

/// The largest level that each channel of a color format can hold.
#[derive(Clone, Copy, Debug, PartialEq, Eq, Structural)]
pub struct RgbFormat {
    pub max_r: u8,
    pub max_g: u8,
    pub max_b: u8,
}

impl RgbFormat {
    pub fn new(max_r: u8, max_g: u8, max_b: u8) -> (f: Self)
        ensures
            f.max_r == max_r,
            f.max_g == max_g,
            f.max_b == max_b,
    {
        RgbFormat { max_r, max_g, max_b }
    }

    /// Every channel has a positive range whose levels all index a table of `len` entries.
    pub open spec fn fits_table(self, len: nat) -> bool {
        &&& 0 < self.max_r < len
        &&& 0 < self.max_g < len
        &&& 0 < self.max_b < len
    }

    /// No channel of `c` is above this format's range.
    pub open spec fn admits(self, c: Rgb) -> bool {
        &&& c.r <= self.max_r
        &&& c.g <= self.max_g
        &&& c.b <= self.max_b
    }

    pub fn fits_table_len(&self, len: usize) -> (ok: bool)
        ensures
            ok == self.fits_table(len as nat),
    {
        let r = 0 < self.max_r && (self.max_r as usize) < len;
        let g = 0 < self.max_g && (self.max_g as usize) < len;
        let b = 0 < self.max_b && (self.max_b as usize) < len;
        r && g && b
    }

    pub fn contains(&self, c: Rgb) -> (ok: bool)
        ensures
            ok == self.admits(c),
    {
        c.r <= self.max_r && c.g <= self.max_g && c.b <= self.max_b
    }
}

} // verus!

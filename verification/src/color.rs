//! An RGB color with saturating brightness adjustment.

use vstd::prelude::*;

verus! {

/// An RGB color, one byte per channel.
#[derive(Clone, Copy, Debug, PartialEq, Eq, Structural)]
pub struct Color {
    red: u8,
    green: u8,
    blue: u8,
}

/// `v` lowered by `amount`, stopping at zero.
pub open spec fn darkened(v: u8, amount: u8) -> u8 {
    if v >= amount {
        (v - amount) as u8
    } else {
        0
    }
}

/// `v` raised by `amount`, stopping at the channel maximum.
pub open spec fn lightened(v: u8, amount: u8) -> u8 {
    if v + amount <= u8::MAX {
        (v + amount) as u8
    } else {
        u8::MAX
    }
}

impl Color {
    /// The three channel values.
    pub closed spec fn rgb(&self) -> (u8, u8, u8) {
        (self.red, self.green, self.blue)
    }

    /// A color from its three channel values.
    pub fn new(red: u8, green: u8, blue: u8) -> (c: Color)
        ensures
            c.rgb() == (red, green, blue),
    {
        Color { red, green, blue }
    }

    /// The three channel values.
    pub fn channels(&self) -> (c: (u8, u8, u8))
        ensures
            c == self.rgb(),
    {
        (self.red, self.green, self.blue)
    }

    /// Darken every channel by `amount`, saturating at zero.
    pub fn darker(&mut self, amount: u8)
        ensures
            final(self).rgb() == (
                darkened(old(self).rgb().0, amount),
                darkened(old(self).rgb().1, amount),
                darkened(old(self).rgb().2, amount),
            ),
    {
        self.red = if self.red >= amount {
            self.red - amount
        } else {
            0
        };
        self.green = if self.green >= amount {
            self.green - amount
        } else {
            0
        };
        self.blue = if self.blue >= amount {
            self.blue - amount
        } else {
            0
        };
    }

    /// Lighten every channel by `amount`, saturating at the channel
    /// maximum.
    pub fn lighter(&mut self, amount: u8)
        ensures
            final(self).rgb() == (
                lightened(old(self).rgb().0, amount),
                lightened(old(self).rgb().1, amount),
                lightened(old(self).rgb().2, amount),
            ),
    {
        self.red = if self.red <= u8::MAX - amount {
            self.red + amount
        } else {
            u8::MAX
        };
        self.green = if self.green <= u8::MAX - amount {
            self.green + amount
        } else {
            u8::MAX
        };
        self.blue = if self.blue <= u8::MAX - amount {
            self.blue + amount
        } else {
            u8::MAX
        };
    }
}

impl Default for Color {
    /// Black: all channels zero.
    fn default() -> (c: Self)
        ensures
            c.rgb() == (0u8, 0u8, 0u8),
    {
        Color { red: 0, green: 0, blue: 0 }
    }
}

} // verus!

//! The color wheel: a cursor into a fixed, ordered, circular palette of named
//! colors, advanced one entry at a time in either direction with wrap-around.

use vstd::prelude::*;

verus! {

/// The colors of the fixed palette, in wheel order.
///
/// Each variant names one palette entry; the pixel values (RGBA channels) that
/// an entry stands for are a concern of the renderer, not of the wheel.
#[derive(Clone, Copy, Debug, PartialEq, Eq, Structural)]
pub enum WheelColor {
    Black,
    White,
    DarkGray,
    LightGray,
    Blue,
    LightBlue,
    Cyan,
    Green,
    LightGreen,
    Yellow,
    Brown,
    Tan,
    Orange,
    Purple,
    Red,
    Pink,
}

/// Number of entries in the palette.
pub const PALETTE_LEN: usize = 16;

/// The palette in its fixed wheel order; the wheel starts on `Black`.
pub open spec fn palette() -> Seq<WheelColor> {
    seq![
        WheelColor::Black,
        WheelColor::White,
        WheelColor::DarkGray,
        WheelColor::LightGray,
        WheelColor::Blue,
        WheelColor::LightBlue,
        WheelColor::Cyan,
        WheelColor::Green,
        WheelColor::LightGreen,
        WheelColor::Yellow,
        WheelColor::Brown,
        WheelColor::Tan,
        WheelColor::Orange,
        WheelColor::Purple,
        WheelColor::Red,
        WheelColor::Pink,
    ]
}

/// One step towards the next palette entry, wrapping from the last entry back
/// to the first.
pub open spec fn step_forward(i: int) -> int {
    if i == PALETTE_LEN as int - 1 {
        0
    } else {
        i + 1
    }
}

/// One step towards the previous palette entry, wrapping from the first entry
/// to the last.
pub open spec fn step_backward(i: int) -> int {
    if i == 0 {
        PALETTE_LEN as int - 1
    } else {
        i - 1
    }
}

/// The wheel position reached from `i` after `n` forward steps.
pub open spec fn advanced_by(i: int, n: nat) -> int
    decreases n,
{
    if n == 0 {
        i
    } else {
        step_forward(advanced_by(i, (n - 1) as nat))
    }
}

proof fn lemma_advanced_by_value(i: int, n: nat)
    requires
        0 <= i < PALETTE_LEN as int,
        n <= PALETTE_LEN as nat,
    ensures
        advanced_by(i, n) == if i + n < PALETTE_LEN as int {
            i + n
        } else {
            i + n - PALETTE_LEN as int
        },
    decreases n,
{
    if n > 0 {
        lemma_advanced_by_value(i, (n - 1) as nat);
    }
}

/// Cyclic closure: one forward step per palette entry returns the wheel to its
/// starting position, and so to its starting color.
pub proof fn lemma_forward_cycle(i: int)
    requires
        0 <= i < PALETTE_LEN as int,
    ensures
        advanced_by(i, PALETTE_LEN as nat) == i,
{
    lemma_advanced_by_value(i, PALETTE_LEN as nat);
}

/// A cursor into the fixed circular palette.
pub struct ColorWheel {
    pub index: usize,
}

impl ColorWheel {
    /// The wheel points at a real palette entry.
    pub open spec fn wf(self) -> bool {
        self.index < PALETTE_LEN
    }

    /// The palette entry the wheel currently points at.
    pub open spec fn current_color(self) -> WheelColor
        recommends
            self.wf(),
    {
        palette()[self.index as int]
    }

    /// A fresh wheel, pointing at the first palette entry.
    pub fn new() -> (w: ColorWheel)
        ensures
            w.wf(),
            w.index == 0,
            w.current_color() == WheelColor::Black,
    {
        ColorWheel { index: 0 }
    }

    /// Advance the wheel one entry, wrapping from the last entry to the first.
    pub fn forward(&mut self)
        requires
            old(self).wf(),
        ensures
            final(self).wf(),
            final(self).index as int == step_forward(old(self).index as int),
    {
        if self.index + 1 == PALETTE_LEN {
            self.index = 0;
        } else {
            self.index = self.index + 1;
        }
    }

    /// Retreat the wheel one entry, wrapping from the first entry to the last.
    pub fn backward(&mut self)
        requires
            old(self).wf(),
        ensures
            final(self).wf(),
            final(self).index as int == step_backward(old(self).index as int),
    {
        if self.index == 0 {
            self.index = PALETTE_LEN - 1;
        } else {
            self.index = self.index - 1;
        }
    }

    /// The color currently selected, without moving the wheel.
    pub fn get_color(&self) -> (c: WheelColor)
        requires
            self.wf(),
        ensures
            c == self.current_color(),
    {
        match self.index {
            0 => WheelColor::Black,
            1 => WheelColor::White,
            2 => WheelColor::DarkGray,
            3 => WheelColor::LightGray,
            4 => WheelColor::Blue,
            5 => WheelColor::LightBlue,
            6 => WheelColor::Cyan,
            7 => WheelColor::Green,
            8 => WheelColor::LightGreen,
            9 => WheelColor::Yellow,
            10 => WheelColor::Brown,
            11 => WheelColor::Tan,
            12 => WheelColor::Orange,
            13 => WheelColor::Purple,
            14 => WheelColor::Red,
            _ => WheelColor::Pink,
        }
    }
}

/// `get_color` is idempotent: two results read from the same wheel state, with
/// no `forward` or `backward` between them, are the same color.
pub proof fn lemma_get_color_idempotent(w: ColorWheel, c1: WheelColor, c2: WheelColor)
    requires
        c1 == w.current_color(),
        c2 == w.current_color(),
    ensures
        c1 == c2,
{
}

} // verus!

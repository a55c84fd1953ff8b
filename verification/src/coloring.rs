//! The colours of the board and the rules that pick among them.

use crate::labels::Verdict;
use vstd::prelude::*;

verus! {

/// A colour as four channels, colour channels already multiplied by alpha.
#[derive(Clone, Copy, Debug, PartialEq, Eq, Structural)]
pub struct Rgba {
    pub r: u8,
    pub g: u8,
    pub b: u8,
    pub a: u8,
}

impl Rgba {
    /// The opaque colour with the given channels.
    pub open spec fn opaque(r: u8, g: u8, b: u8) -> Rgba {
        Rgba { r, g, b, a: 255 }
    }

    /// No colour at all.
    pub open spec fn transparent() -> Rgba {
        Rgba { r: 0, g: 0, b: 0, a: 0 }
    }

    /// Opaque white.
    pub open spec fn white() -> Rgba {
        Rgba { r: 255, g: 255, b: 255, a: 255 }
    }

    /// The opaque colour with the given channels.
    pub fn from_rgb(r: u8, g: u8, b: u8) -> (c: Rgba)
        ensures
            c == Rgba::opaque(r, g, b),
    {
        Rgba { r, g, b, a: 255 }
    }
}

/// How a circle on the board is drawn: radius and line width in pixels,
/// and the two colours.
#[derive(Clone, Copy, Debug, PartialEq, Eq, Structural)]
pub struct CircleStyle {
    pub radius: u8,
    pub width: u8,
    pub fill: Rgba,
    pub stroke: Rgba,
}

/// Every colour the interface uses.
#[derive(Clone, Copy, Debug, PartialEq, Eq, Structural)]
pub struct AbaloneColors {
    pub color_empty_fill: Rgba,
    pub color_empty_stroke: Rgba,
    pub color_black_fill: Rgba,
    pub color_black_stroke: Rgba,
    pub move_black_stroke: Rgba,
    pub color_white_fill: Rgba,
    pub color_white_stroke: Rgba,
    pub move_white_stroke: Rgba,
    pub text_color: Rgba,
}

impl AbaloneColors {
    /// The palette the interface starts with.
    pub open spec fn standard() -> AbaloneColors {
        AbaloneColors {
            color_empty_fill: Rgba::opaque(220, 220, 220),
            color_empty_stroke: Rgba::opaque(255, 255, 255),
            color_black_fill: Rgba::transparent(),
            color_black_stroke: Rgba::opaque(117, 162, 216),
            move_black_stroke: Rgba::opaque(158, 190, 228),
            color_white_fill: Rgba::transparent(),
            color_white_stroke: Rgba::opaque(247, 201, 11),
            move_white_stroke: Rgba::opaque(249, 217, 84),
            text_color: Rgba::white(),
        }
    }

    /// The colour of the status line: the winner's colour once the game is
    /// won, white for a draw, else the colour of the side to move.
    pub open spec fn text_color_of(self, verdict: Verdict) -> Rgba {
        match verdict {
            Verdict::BlackWon => self.color_black_stroke,
            Verdict::Draw => Rgba::white(),
            Verdict::WhiteWon => self.color_white_stroke,
            Verdict::BlackToMove => self.color_black_stroke,
            Verdict::WhiteToMove => self.color_white_stroke,
        }
    }

    /// The small ring that marks a field without a marble.
    pub open spec fn empty_ring(self) -> CircleStyle {
        CircleStyle {
            radius: 10,
            width: 5,
            fill: self.color_empty_fill,
            stroke: self.color_empty_stroke,
        }
    }

    /// The ring round a marble that belongs to `black`, or to white, with
    /// either the plain outline of that side or the one that marks a move.
    pub open spec fn marble_ring(self, black: bool, moved: bool) -> CircleStyle {
        CircleStyle {
            radius: 32,
            width: 2,
            fill: if black {
                self.color_black_fill
            } else {
                self.color_white_fill
            },
            stroke: if black {
                if moved {
                    self.move_black_stroke
                } else {
                    self.color_black_stroke
                }
            } else {
                if moved {
                    self.move_white_stroke
                } else {
                    self.color_white_stroke
                }
            },
        }
    }

    /// Sets the colour of the status line for `verdict`.
    pub fn set_text_color(&mut self, verdict: Verdict)
        ensures
            *final(self) == (AbaloneColors {
                text_color: old(self).text_color_of(verdict),
                ..*old(self)
            }),
    {
        self.text_color = match verdict {
            Verdict::BlackWon => self.color_black_stroke,
            Verdict::Draw => Rgba { r: 255, g: 255, b: 255, a: 255 },
            Verdict::WhiteWon => self.color_white_stroke,
            Verdict::BlackToMove => self.color_black_stroke,
            Verdict::WhiteToMove => self.color_white_stroke,
        };
    }

    /// The ring of a field without a marble.
    pub fn empty_field(&self) -> (s: CircleStyle)
        ensures
            s == self.empty_ring(),
    {
        CircleStyle {
            radius: 10,
            width: 5,
            fill: self.color_empty_fill,
            stroke: self.color_empty_stroke,
        }
    }

    /// The ring round a selected marble of the side to move.
    pub fn selection(&self, black_to_move: bool) -> (s: CircleStyle)
        ensures
            s == self.marble_ring(black_to_move, false),
    {
        if black_to_move {
            CircleStyle {
                radius: 32,
                width: 2,
                fill: self.color_black_fill,
                stroke: self.color_black_stroke,
            }
        } else {
            CircleStyle {
                radius: 32,
                width: 2,
                fill: self.color_white_fill,
                stroke: self.color_white_stroke,
            }
        }
    }

    /// The ring round a field that the move just played touched, in the
    /// colours of the side that made it.
    pub fn moved(&self, black_moved: bool) -> (s: CircleStyle)
        ensures
            s == self.marble_ring(black_moved, true),
    {
        if black_moved {
            CircleStyle {
                radius: 32,
                width: 2,
                fill: self.color_black_fill,
                stroke: self.move_black_stroke,
            }
        } else {
            CircleStyle {
                radius: 32,
                width: 2,
                fill: self.color_white_fill,
                stroke: self.move_white_stroke,
            }
        }
    }

    /// The ring round the marble that was lost last. It was pushed off by
    /// the other side, so it is drawn in the colours of that side's move:
    /// a black marble lost carries white's, and the other way round.
    pub fn fresh_loss(&self, black_lost: bool) -> (s: CircleStyle)
        ensures
            s == self.marble_ring(!black_lost, true),
    {
        self.moved(!black_lost)
    }
}

impl Default for AbaloneColors {
    fn default() -> (c: AbaloneColors)
        ensures
            c == AbaloneColors::standard(),
    {
        AbaloneColors {
            color_empty_fill: Rgba::from_rgb(220, 220, 220),
            color_empty_stroke: Rgba::from_rgb(255, 255, 255),
            color_black_fill: Rgba { r: 0, g: 0, b: 0, a: 0 },
            color_black_stroke: Rgba::from_rgb(117, 162, 216),
            move_black_stroke: Rgba::from_rgb(158, 190, 228),
            color_white_fill: Rgba { r: 0, g: 0, b: 0, a: 0 },
            color_white_stroke: Rgba::from_rgb(247, 201, 11),
            move_white_stroke: Rgba::from_rgb(249, 217, 84),
            text_color: Rgba { r: 255, g: 255, b: 255, a: 255 },
        }
    }
}

} // verus!

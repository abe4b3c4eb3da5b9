//! Rectangles on the character grid and how the widgets divide them.

use vstd::prelude::*;
use vstd::arithmetic::div_mod::{
    lemma_basic_div,
    lemma_fundamental_div_mod,
    lemma_mod_pos_bound,
};

verus! {

/// A rectangle of the character grid: its top left corner and its size.
#[derive(Clone, Copy, PartialEq, Eq, Structural, Debug)]
pub struct Rect {
    pub x: u16,
    pub y: u16,
    pub width: u16,
    pub height: u16,
}

/// `area` with one cell taken off each side. An area too small to hold both
/// margins shrinks to the empty rectangle at the origin.
pub open spec fn inset(area: Rect) -> Rect {
    if area.width < 2 || area.height < 2 {
        Rect { x: 0, y: 0, width: 0, height: 0 }
    } else {
        Rect {
            x: if area.x < u16::MAX { (area.x + 1) as u16 } else { u16::MAX },
            y: if area.y < u16::MAX { (area.y + 1) as u16 } else { u16::MAX },
            width: (area.width - 2) as u16,
            height: (area.height - 2) as u16,
        }
    }
}

/// The height of each of `count` equal bands of `area`: the area's height
/// divided by `count`, rounded down.
pub open spec fn band_height(area: Rect, count: nat) -> nat
    recommends
        count > 0,
{
    area.height as nat / count
}

/// The band at position `i` of `count` equal bands stacked from the top of
/// `area`. A band that would start below the last row of the grid starts on
/// that row.
pub open spec fn band(area: Rect, count: nat, i: nat) -> Rect
    recommends
        count > 0,
{
    let h = band_height(area, count);
    let y = area.y + i * h;
    Rect {
        x: area.x,
        y: if y <= u16::MAX {
            y as u16
        } else {
            u16::MAX
        },
        width: area.width,
        height: h as u16,
    }
}

/// Bands lie inside their area: a band is as wide as the area, starts at or
/// below the area's top, and ends at or above the row that follows the
/// area's last.
pub proof fn lemma_band_inside(area: Rect, count: nat, i: nat)
    requires
        0 <= i < count,
    ensures
        band(area, count, i).x == area.x,
        band(area, count, i).width == area.width,
        band(area, count, i).height == band_height(area, count),
        band(area, count, i).y >= area.y,
        area.y + (i + 1) * band_height(area, count) <= area.y + area.height,
{
    let h = band_height(area, count);
    lemma_fundamental_div_mod(area.height as int, count as int);
    lemma_mod_pos_bound(area.height as int, count as int);
    assert(count * h <= area.height) by (nonlinear_arith)
        requires
            area.height == count * h + (area.height as int % count as int),
            0 <= area.height as int % count as int,
    ;
    assert((i + 1) * h <= count * h) by (nonlinear_arith)
        requires
            i + 1 <= count,
            0 <= h,
    ;
    assert(0 <= i * h) by (nonlinear_arith)
        requires
            0 <= i,
            0 <= h,
    ;
}

impl Rect {
    /// The rectangle with the given corner and size.
    pub fn new(x: u16, y: u16, width: u16, height: u16) -> (area: Rect)
        ensures
            area == (Rect { x, y, width, height }),
    {
        Rect { x, y, width, height }
    }

    /// The band at position `i` of `count` equal bands of this rectangle.
    pub fn band(self, count: usize, i: usize) -> (area: Rect)
        requires
            count > 0,
        ensures
            area == band(self, count as nat, i as nat),
    {
        let h: u16 = if count > self.height as usize {
            proof {
                lemma_basic_div(self.height as int, count as int);
            }
            0
        } else {
            self.height / (count as u16)
        };
        let y: u16 = if h == 0 {
            assert(i * 0 == 0) by (nonlinear_arith);
            self.y
        } else if i > 0xffff {
            assert(i * h > 0xffff) by (nonlinear_arith)
                requires
                    i > 0xffff,
                    h >= 1,
            ;
            u16::MAX
        } else {
            assert(i * h <= 0xffff * 0xffff) by (nonlinear_arith)
                requires
                    0 <= i <= 0xffff,
                    0 <= h <= 0xffff,
            ;
            let below: u64 = self.y as u64 + (i as u64) * (h as u64);
            if below > 0xffff {
                u16::MAX
            } else {
                below as u16
            }
        };
        Rect { x: self.x, y, width: self.width, height: h }
    }

    /// The inside of a border drawn round this rectangle, as
    /// `ratatui::layout::Rect::inner` computes it for a margin of one cell on
    /// every side: the empty rectangle at the origin where the width or the
    /// height is under two cells, else the corner moved in by one cell
    /// (saturating) and two cells taken off the width and the height.
    #[verifier::external_body]
    pub(crate) fn inner(self) -> (area: Rect)
        ensures
            area == inset(self),
    {
        let outer = ratatui::layout::Rect {
            x: self.x,
            y: self.y,
            width: self.width,
            height: self.height,
        };
        let r = outer.inner(ratatui::layout::Margin { horizontal: 1, vertical: 1 });
        Rect { x: r.x, y: r.y, width: r.width, height: r.height }
    }
}

} // verus!

//! Where a card goes on the screen: plain arithmetic on rectangles of
//! terminal cells.

use vstd::prelude::*;

verus! {

/// A rectangle of terminal cells: the corner at the top left, and the size.
#[derive(Debug, PartialEq, Eq, Clone, Copy, Structural)]
pub struct Area {
    pub x: u16,
    pub y: u16,
    pub width: u16,
    pub height: u16,
}

/// The smaller of two numbers.
pub open spec fn lesser(a: int, b: int) -> int {
    if a <= b {
        a
    } else {
        b
    }
}

/// The larger of two numbers.
pub open spec fn greater(a: int, b: int) -> int {
    if a >= b {
        a
    } else {
        b
    }
}

impl Area {
    /// The first column to the right of the rectangle, held to the largest
    /// column there is.
    pub open spec fn right(self) -> int {
        lesser(self.x + self.width, u16::MAX as int)
    }

    /// The first row below the rectangle, held to the largest row there is.
    pub open spec fn bottom(self) -> int {
        lesser(self.y + self.height, u16::MAX as int)
    }

    /// Whether the rectangle holds no cell.
    pub open spec fn empty(self) -> bool {
        self.width == 0 || self.height == 0
    }

    /// The cells that two rectangles share. Its corner is the larger of the
    /// two corners in each direction; where the rectangles do not meet, the
    /// size in that direction is zero.
    pub open spec fn meet(self, other: Area) -> Area {
        let x = greater(self.x as int, other.x as int);
        let y = greater(self.y as int, other.y as int);
        let right = lesser(self.right(), other.right());
        let bottom = lesser(self.bottom(), other.bottom());
        Area {
            x: x as u16,
            y: y as u16,
            width: greater(right - x, 0) as u16,
            height: greater(bottom - y, 0) as u16,
        }
    }
}

/// The size of the largest square of whole cards' cells, three by three and
/// its multiples, that fits into `width` by `height`.
pub open spec fn ideal_side(width: int, height: int) -> int {
    3 * lesser(width / 3, height / 3)
}

/// The place of a card drawn into `area` on a screen that covers `frame`:
/// the largest square of side 3, 6, 9 and so on that fits into the part of
/// `area` on the screen, in the middle of that part. There is no place if
/// no part of `area` is on the screen.
pub open spec fn card_place(area: Area, frame: Area) -> Option<Area> {
    let seen = area.meet(frame);
    if seen.empty() {
        None
    } else {
        let side = ideal_side(seen.width as int, seen.height as int);
        Some(
            Area {
                x: (seen.x + (seen.width - side) / 2) as u16,
                y: (seen.y + (seen.height - side) / 2) as u16,
                width: side as u16,
                height: side as u16,
            },
        )
    }
}

/// `Rect::intersection` of ratatui, on rectangles given by their four
/// numbers. The contract states what that function computes: the corner is
/// the larger of the two corners, the far edges are the smaller of the two
/// far edges, each held to `u16::MAX`, and a size that would be negative is
/// zero.
#[verifier::external_body]
fn intersection(a: Area, b: Area) -> (r: Area)
    ensures
        r == a.meet(b),
{
    let first = ratatui::layout::Rect { x: a.x, y: a.y, width: a.width, height: a.height };
    let second = ratatui::layout::Rect { x: b.x, y: b.y, width: b.width, height: b.height };
    let both = first.intersection(second);
    Area { x: both.x, y: both.y, width: both.width, height: both.height }
}

/// `Rect::is_empty` of ratatui, on a rectangle given by its four numbers:
/// true exactly if the width or the height is zero.
#[verifier::external_body]
fn is_empty(a: Area) -> (r: bool)
    ensures
        r == a.empty(),
{
    let rect = ratatui::layout::Rect { x: a.x, y: a.y, width: a.width, height: a.height };
    rect.is_empty()
}

/// The width and height of the largest square with a side of 3, 6, 9 and so
/// on that fits into `width` by `height`.
pub fn find_ideal_area(width: u16, height: u16) -> (r: (u16, u16))
    ensures
        r.0 == ideal_side(width as int, height as int),
        r.1 == r.0,
        r.0 <= width,
        r.1 <= height,
        r.0 % 3 == 0,
{
    let w_ratio: u16 = width / 3;
    let h_ratio: u16 = height / 3;
    let ratio: u16 = if w_ratio <= h_ratio {
        w_ratio
    } else {
        h_ratio
    };
    (3 * ratio, 3 * ratio)
}

/// The place of a card drawn into `area` on a screen that covers `frame`, if
/// any part of `area` is on the screen.
pub fn card_area(area: Area, frame: Area) -> (r: Option<Area>)
    ensures
        r == card_place(area, frame),
        r matches Some(place) ==> place.x + place.width <= u16::MAX && place.y + place.height
            <= u16::MAX,
{
    let seen = intersection(area, frame);
    if is_empty(seen) {
        return None;
    }
    let (width, height) = find_ideal_area(seen.width, seen.height);
    let left: u16 = (seen.width - width) / 2;
    let top: u16 = (seen.height - height) / 2;
    Some(Area { x: seen.x + left, y: seen.y + top, width, height })
}

/// The shares for `amount` cards side by side: as many pairs of one part in
/// `amount`.
pub fn split_equally(amount: usize) -> (r: Vec<(u32, u32)>)
    requires
        amount <= u32::MAX,
    ensures
        r@.len() == amount,
        forall|i: int| 0 <= i < amount ==> r@[i] == (1u32, amount as u32),
{
    let mut list: Vec<(u32, u32)> = Vec::new();
    let whole: u32 = amount as u32;
    let mut i: usize = 0;
    while i < amount
        invariant
            0 <= i <= amount,
            whole == amount,
            list@.len() == i,
            forall|j: int| 0 <= j < i ==> list@[j] == (1u32, whole),
        decreases amount - i,
    {
        list.push((1, whole));
        i += 1;
    }
    list
}

/// The three shares, in hundredths, that put a part of `percent` hundredths
/// in the middle: what is left over is halved, rounded down, for each side.
pub fn centered_shares(percent: u16) -> (r: (u16, u16, u16))
    requires
        percent <= 100,
    ensures
        r.0 == (100 - percent) / 2,
        r.1 == percent,
        r.2 == (100 - percent) / 2,
{
    let side: u16 = (100 - percent) / 2;
    (side, percent, side)
}

} // verus!

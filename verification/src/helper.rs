//! Rectangle geometry: the cell rectangle of a terminal surface and the
//! centring rule that places a box of a wanted size inside an available area.

use vstd::prelude::*;
use crate::layout::{is_part, is_split, split, Constraint, Direction};

verus! {

/// A rectangle of terminal cells: the column and row of its top-left corner,
/// and its extent in cells.
#[derive(Debug, Clone, Copy, PartialEq, Eq, Structural)]
pub struct Rect {
    pub x: u16,
    pub y: u16,
    pub width: u16,
    pub height: u16,
}

/// The smaller of two integers.
pub open spec fn least(a: int, b: int) -> int {
    if a <= b {
        a
    } else {
        b
    }
}

/// The larger of two integers.
pub open spec fn greatest(a: int, b: int) -> int {
    if a >= b {
        a
    } else {
        b
    }
}

impl Rect {
    /// The column just past the right edge.
    pub open spec fn right(self) -> int {
        self.x + self.width
    }

    /// The row just past the bottom edge.
    pub open spec fn bottom(self) -> int {
        self.y + self.height
    }

    /// Whether no cell of `self` lies outside `outer`. A rectangle without
    /// cells still has a corner, and that corner must not leave `outer`.
    pub open spec fn within(self, outer: Rect) -> bool {
        &&& outer.x <= self.x
        &&& outer.y <= self.y
        &&& self.right() <= outer.right()
        &&& self.bottom() <= outer.bottom()
    }

    /// Whether the cell in column `x` and row `y` belongs to the rectangle.
    pub open spec fn covers(self, x: int, y: int) -> bool {
        self.x <= x < self.right() && self.y <= y < self.bottom()
    }

    /// Whether the rectangle has no cell.
    pub open spec fn is_empty(self) -> bool {
        self.width == 0 || self.height == 0
    }

    /// The cells that `self` and `other` share: from the later of the two
    /// left edges to the earlier of the two right edges, and so from top to
    /// bottom; a rectangle without cells where those edges do not leave room.
    pub open spec fn overlap(self, other: Rect) -> Rect {
        let x = greatest(self.x as int, other.x as int);
        let y = greatest(self.y as int, other.y as int);
        Rect {
            x: x as u16,
            y: y as u16,
            width: greatest(least(self.right(), other.right()) - x, 0) as u16,
            height: greatest(least(self.bottom(), other.bottom()) - y, 0) as u16,
        }
    }

    /// The cells that `self` and `other` share.
    ///
    /// Rectangles that share no cell give a rectangle without cells. A
    /// rectangle that lies within `other` is its own intersection with it.
    pub fn intersection(self, other: Rect) -> (r: Rect)
        ensures
            r == self.overlap(other),
            r.is_empty() || (r.within(self) && r.within(other)),
            r.is_empty() <==> (self.is_empty() || other.is_empty() || self.right() <= other.x
                || other.right() <= self.x || self.bottom() <= other.y || other.bottom()
                <= self.y),
            r.x == greatest(self.x as int, other.x as int),
            r.y == greatest(self.y as int, other.y as int),
            r.width == greatest(
                least(self.right(), other.right()) - greatest(self.x as int, other.x as int),
                0,
            ),
            r.height == greatest(
                least(self.bottom(), other.bottom()) - greatest(self.y as int, other.y as int),
                0,
            ),
            self.within(other) ==> r == self,
    {
        let x: u16 = if self.x >= other.x { self.x } else { other.x };
        let y: u16 = if self.y >= other.y { self.y } else { other.y };
        let self_right: u32 = self.x as u32 + self.width as u32;
        let other_right: u32 = other.x as u32 + other.width as u32;
        let self_bottom: u32 = self.y as u32 + self.height as u32;
        let other_bottom: u32 = other.y as u32 + other.height as u32;
        let right: u32 = if self_right <= other_right { self_right } else { other_right };
        let bottom: u32 = if self_bottom <= other_bottom { self_bottom } else { other_bottom };
        let width: u16 = if right > x as u32 { (right - x as u32) as u16 } else { 0 };
        let height: u16 = if bottom > y as u32 { (bottom - y as u32) as u16 } else { 0 };
        Rect { x, y, width, height }
    }

    /// Builds a rectangle from its corner and extent.
    pub fn new(x: u16, y: u16, width: u16, height: u16) -> (r: Rect)
        ensures
            r == (Rect { x, y, width, height }),
    {
        Rect { x, y, width, height }
    }
}

/// The rectangle of the wanted size centred in `r`.
///
/// The wanted size is first clamped to the size of `r`. The space left over on
/// each axis is halved by floor division, and that half is the margin before
/// the rectangle, so an odd remainder puts the rectangle one cell nearer to
/// the top and to the left. A corner that would pass the last representable
/// column or row stays on it.
pub open spec fn centered(width: int, height: int, r: Rect) -> Rect {
    let w = least(width, r.width as int);
    let h = least(height, r.height as int);
    Rect {
        x: least(r.x + (r.width - w) / 2, u16::MAX as int) as u16,
        y: least(r.y + (r.height - h) / 2, u16::MAX as int) as u16,
        width: w as u16,
        height: h as u16,
    }
}

/// However large the wanted size and whatever the area, an area without cells
/// included, the centred rectangle does not leave the area and is no larger
/// than wanted.
pub proof fn law_centered_stays_inside(width: int, height: int, r: Rect)
    requires
        0 <= width,
        0 <= height,
    ensures
        centered(width, height, r).within(r),
        centered(width, height, r).width <= width,
        centered(width, height, r).height <= height,
{
}

/// Centres a rectangle of `width` by `height` cells in `r`, clamping the size
/// to what `r` offers.
pub fn centered_rect_with_size(width: u16, height: u16, r: Rect) -> (c: Rect)
    ensures
        c == centered(width as int, height as int, r),
        c.width == least(width as int, r.width as int),
        c.height == least(height as int, r.height as int),
        c.within(r),
{
    let w: u16 = if width <= r.width { width } else { r.width };
    let h: u16 = if height <= r.height { height } else { r.height };
    let left: u16 = (r.width - w) / 2;
    let top: u16 = (r.height - h) / 2;
    Rect { x: r.x.saturating_add(left), y: r.y.saturating_add(top), width: w, height: h }
}

/// The three constraints that centre a part of `percent` hundredths: the
/// part, and before and after it half of what is left of the whole, rounded
/// down. A `percent` above one hundred leaves nothing.
pub open spec fn percent_constraints(percent: u16) -> Seq<Constraint> {
    let margin = if percent <= 100 {
        ((100 - percent) / 2) as u16
    } else {
        0
    };
    seq![Constraint::Percentage(margin), Constraint::Percentage(percent), Constraint::Percentage(margin)]
}

/// The constraints that centre a part of `percent` hundredths.
pub fn centering_constraints(percent: u16) -> (constraints: Vec<Constraint>)
    ensures
        constraints@ == percent_constraints(percent),
{
    let margin: u16 = 100u16.saturating_sub(percent) / 2;
    let mut constraints: Vec<Constraint> = Vec::new();
    constraints.push(Constraint::Percentage(margin));
    constraints.push(Constraint::Percentage(percent));
    constraints.push(Constraint::Percentage(margin));
    assert(constraints@ =~= percent_constraints(percent));
    constraints
}

/// The middle one of the three parts of a split: the part between the two
/// margins.
pub fn middle_part(parts: &Vec<Rect>) -> (middle: Rect)
    requires
        parts@.len() == 3,
    ensures
        middle == parts@[1],
{
    parts[1]
}

/// Whether `c` can be the rectangle of `percent_x` by `percent_y` hundredths
/// centred in `r`: `rows` is an answer of the layout solver to
/// `percent_constraints(percent_y)` on `r` from top to bottom, `columns` one
/// to `percent_constraints(percent_x)` on the middle row from left to right,
/// and `c` is the middle column.
pub open spec fn is_centered(
    c: Rect,
    percent_x: u16,
    percent_y: u16,
    r: Rect,
    rows: Seq<Rect>,
    columns: Seq<Rect>,
) -> bool {
    &&& is_split(Direction::Vertical, percent_constraints(percent_y), r, rows)
    &&& is_split(Direction::Horizontal, percent_constraints(percent_x), rows[1], columns)
    &&& c == columns[1]
}

/// A rectangle that takes `percent_x` hundredths of the width of `r` and
/// `percent_y` hundredths of its height, centred by the layout solver.
///
/// `r` is split from top to bottom by `percent_constraints(percent_y)`, and
/// the middle part from left to right by `percent_constraints(percent_x)`;
/// the result is the middle part of that second split. How the solver rounds
/// is its own matter; what holds of every answer is that the result lies in
/// `r`.
pub fn centered_rect(percent_x: u16, percent_y: u16, r: Rect) -> (c: Rect)
    ensures
        exists|rows: Seq<Rect>, columns: Seq<Rect>| #[trigger]
            is_centered(c, percent_x, percent_y, r, rows, columns),
        c.within(r),
{
    let rows = split(Direction::Vertical, &centering_constraints(percent_y), r);
    let row = middle_part(&rows);
    assert(is_part(row, r, Direction::Vertical));
    let columns = split(Direction::Horizontal, &centering_constraints(percent_x), row);
    let c = middle_part(&columns);
    assert(is_part(c, row, Direction::Horizontal));
    assert(is_centered(c, percent_x, percent_y, r, rows@, columns@));
    c
}

} // verus!

//! Splitting a rectangle along one axis under size constraints, done by the
//! terminal toolkit's layout solver.

use vstd::prelude::*;
use ratatui::layout as toolkit;
use crate::helper::Rect;

verus! {

/// What one part of a split is asked to be.
#[derive(Debug, Clone, Copy, PartialEq, Eq, Structural)]
pub enum Constraint {
    /// At least this many cells.
    Min(u16),
    /// At most this many cells.
    Max(u16),
    /// This many cells.
    Length(u16),
    /// This share, in hundredths, of the rectangle that is split.
    Percentage(u16),
}

/// The axis along which a rectangle is split.
#[derive(Debug, Clone, Copy, PartialEq, Eq, Structural)]
pub enum Direction {
    /// Into parts side by side.
    Horizontal,
    /// Into parts one below the other.
    Vertical,
}

/// Whether `part` can be a part of `area` split along `direction`: it lies in
/// `area`, and across the axis it spans `area`.
pub open spec fn is_part(part: Rect, area: Rect, direction: Direction) -> bool {
    &&& part.within(area)
    &&& match direction {
        Direction::Horizontal => part.y == area.y && part.height == area.height,
        Direction::Vertical => part.x == area.x && part.width == area.width,
    }
}

/// Whether `parts` is an answer of the toolkit's `Layout::split` to the
/// constraints `constraints` on `area` along `direction`. The solver's answer
/// is not fixed where the constraints leave a choice, so this is a relation
/// and no function; it holds of what `split` hands back.
pub uninterp spec fn split_of(
    direction: Direction,
    constraints: Seq<Constraint>,
    area: Rect,
    parts: Seq<Rect>,
) -> bool;

/// Whether `parts` is an answer of the layout solver to `constraints` on
/// `area` along `direction`, with what holds of every answer: one part for
/// each constraint, each in `area` and spanning it across the axis.
pub open spec fn is_split(
    direction: Direction,
    constraints: Seq<Constraint>,
    area: Rect,
    parts: Seq<Rect>,
) -> bool {
    &&& split_of(direction, constraints, area, parts)
    &&& parts.len() == constraints.len()
    &&& forall|i: int| 0 <= i < parts.len() ==> is_part(#[trigger] parts[i], area, direction)
}

/// Splits `area` with `Layout::split` of the toolkit, on a layout that
/// `Layout::new` makes: the toolkit's defaults for margin, spacing and the
/// placing of spare room.
///
/// The toolkit hands the constraints to a numeric solver, and where they leave
/// a choice its answer is not fixed, so the answer has no name as a function
/// of what is asked: `split_of` only says that it is an answer to this
/// asking. Beside that, what holds of every answer is claimed. There is one
/// part for each constraint, in order. The solver must keep both edges of
/// every part between the edges of `area` along the axis, and the toolkit
/// copies the place and extent across the axis from `area`: so each part lies
/// in `area` and spans it across the axis.
#[verifier::external_body]
pub(crate) fn split(direction: Direction, constraints: &Vec<Constraint>, area: Rect) -> (parts: Vec<
    Rect,
>)
    ensures
        split_of(direction, constraints@, area, parts@),
        parts@.len() == constraints@.len(),
        forall|i: int| 0 <= i < parts@.len() ==> is_part(#[trigger] parts@[i], area, direction),
{
    let axis = match direction {
        Direction::Horizontal => toolkit::Direction::Horizontal,
        Direction::Vertical => toolkit::Direction::Vertical,
    };
    let sizes = constraints.iter().map(|c| match *c {
        Constraint::Min(n) => toolkit::Constraint::Min(n),
        Constraint::Max(n) => toolkit::Constraint::Max(n),
        Constraint::Length(n) => toolkit::Constraint::Length(n),
        Constraint::Percentage(n) => toolkit::Constraint::Percentage(n),
    });
    toolkit::Layout::new(axis, sizes)
        .split(toolkit::Rect { x: area.x, y: area.y, width: area.width, height: area.height })
        .iter()
        .map(|p| Rect { x: p.x, y: p.y, width: p.width, height: p.height })
        .collect()
}

} // verus!

use vstd::prelude::*;
use ratatui::layout::{Constraint, Direction, Layout, Rect};

verus! {

/// A rectangle of terminal cells.
#[derive(Debug, Clone, Copy, PartialEq, Eq, Structural)]
pub struct Area {
    pub x: u16,
    pub y: u16,
    pub width: u16,
    pub height: u16,
}

/// The direction in which an area is cut.
#[derive(Debug, Clone, Copy, PartialEq, Eq, Structural)]
pub enum Axis {
    /// Into bands stacked top to bottom.
    Vertical,
    /// Into columns side by side.
    Horizontal,
}

/// A size constraint for one part of a split.
#[derive(Debug, Clone, Copy, PartialEq, Eq, Structural)]
pub enum Span {
    /// Takes a share of the space left over, in proportion to the weight.
    Fill(u16),
    /// A fixed number of cells.
    Length(u16),
    /// A percentage of the space.
    Percentage(u16),
}

/// Where a span starting at `start` of `size` cells ends, saturating at the
/// largest coordinate.
pub open spec fn far_end(start: u16, size: u16) -> int {
    if start + size <= u16::MAX {
        start + size
    } else {
        u16::MAX as int
    }
}

/// `inner` lies within `outer`.
pub open spec fn within(inner: Area, outer: Area) -> bool {
    &&& outer.x <= inner.x
    &&& inner.x + inner.width <= far_end(outer.x, outer.width)
    &&& outer.y <= inner.y
    &&& inner.y + inner.height <= far_end(outer.y, outer.height)
}

/// Where `area` starts along `axis`.
pub open spec fn lo(area: Area, axis: Axis) -> int {
    match axis {
        Axis::Vertical => area.y as int,
        Axis::Horizontal => area.x as int,
    }
}

/// Where `area` ends along `axis` (saturating at the largest coordinate).
pub open spec fn hi(area: Area, axis: Axis) -> int {
    match axis {
        Axis::Vertical => far_end(area.y, area.height),
        Axis::Horizontal => far_end(area.x, area.width),
    }
}

/// How long `area` is along `axis`.
pub open spec fn len_along(area: Area, axis: Axis) -> int {
    match axis {
        Axis::Vertical => area.height as int,
        Axis::Horizontal => area.width as int,
    }
}

/// `part` leaves margins before and after it inside `area`, along `axis`,
/// that differ by at most one cell.
pub open spec fn balanced(part: Area, area: Area, axis: Axis) -> bool {
    let before = lo(part, axis) - lo(area, axis);
    let after = hi(area, axis) - (lo(part, axis) + len_along(part, axis));
    -1 <= before - after <= 1
}

/// The length `n` when the constraints are a fixed length between two equal
/// fills: `[Fill(1), Length(n), Fill(1)]`.
pub open spec fn length_between_fills(c: Seq<Span>) -> Option<u16> {
    if c.len() == 3 && c[0] == Span::Fill(1) && c[2] == Span::Fill(1) {
        match c[1] {
            Span::Length(n) => Some(n),
            _ => None,
        }
    } else {
        None
    }
}

/// The middle percentage `q` when the constraints are three percentages
/// `[Percentage(p), Percentage(q), Percentage(p)]` adding up to 100.
pub open spec fn balanced_percentages(c: Seq<Span>) -> Option<u16> {
    if c.len() == 3 {
        match (c[0], c[1], c[2]) {
            (Span::Percentage(p), Span::Percentage(q), Span::Percentage(p2)) => if p == p2 && p + q
                + p2 == 100 {
                Some(q)
            } else {
                None
            },
            _ => None,
        }
    } else {
        None
    }
}

/// Splits `area` along `axis` with `ratatui::layout::Layout::split` (no
/// margin, no spacing, default flex).
///
/// The contract states what the source guarantees of every outcome:
/// - one part per constraint, each spanning the whole of `area` across the
///   axis and lying within `area` along it (the source adds, as required
///   constraints, that every cut point lies between the area's start and end
///   and that each part ends no earlier than it starts, then only rounds
///   those points to cells and clamps lengths at 0; the area's end is
///   `start + size`, saturating at `u16::MAX`);
/// - for `[Fill(1), Length(n), Fill(1)]` with `n` cells available, the
///   middle part is `n` cells long and centred to within a cell: Length is
///   weighted above Fill (documented constraint priority; strengths 1e7
///   against 1e3), the inner spacers are held at 0 and the first one empty,
///   and two equal fills are held equal, so the middle part starts half the
///   free space in; both of its ends carry the same fraction before rounding;
/// - for three percentages `[p, q, p]` adding up to 100, the middle part is
///   within one cell of `q`% of the length and centred to within a cell:
///   percentages are weighted above the spacers' growth, can all be met at
///   once, and each end is rounded to the nearest cell.
///
/// Beyond these, where each part starts and how long it is along the axis is
/// left unsaid: the documentation calls some results indeterminate, and the
/// solver breaks ties in the iteration order of hash maps seeded per
/// process. The source panics ("failed to split") only if the solver rejects
/// a required constraint; the required constraints of a split always hold.
#[verifier::external_body]
pub(crate) fn split(area: Area, axis: Axis, constraints: &Vec<Span>) -> (r: Vec<Area>)
    ensures
        r@.len() == constraints@.len(),
        forall|i: int|
            0 <= i < r@.len() ==> match axis {
                Axis::Vertical => {
                    &&& (#[trigger] r@[i]).x == area.x
                    &&& r@[i].width == area.width
                    &&& area.y <= r@[i].y
                    &&& r@[i].y + r@[i].height <= far_end(area.y, area.height)
                },
                Axis::Horizontal => {
                    &&& (#[trigger] r@[i]).y == area.y
                    &&& r@[i].height == area.height
                    &&& area.x <= r@[i].x
                    &&& r@[i].x + r@[i].width <= far_end(area.x, area.width)
                },
            },
        length_between_fills(constraints@) matches Some(n) ==> (n <= hi(area, axis) - lo(area, axis)
            ==> len_along(r@[1], axis) == n && balanced(r@[1], area, axis)),
        balanced_percentages(constraints@) matches Some(q) ==> {
            &&& -100 <= 100 * len_along(r@[1], axis) - q * (hi(area, axis) - lo(area, axis)) <= 100
            &&& balanced(r@[1], area, axis)
        },
{
    let rect = Rect { x: area.x, y: area.y, width: area.width, height: area.height };
    let direction = match axis {
        Axis::Vertical => Direction::Vertical,
        Axis::Horizontal => Direction::Horizontal,
    };
    let parts = constraints.iter().map(|c| match *c {
        Span::Fill(w) => Constraint::Fill(w),
        Span::Length(n) => Constraint::Length(n),
        Span::Percentage(p) => Constraint::Percentage(p),
    });
    let rects = Layout::default().direction(direction).constraints(parts).split(rect);
    rects.iter().map(|r| Area { x: r.x, y: r.y, width: r.width, height: r.height }).collect()
}

/// The middle one of three parts.
pub fn middle_part(parts: &Vec<Area>) -> (r: Area)
    requires
        parts@.len() == 3,
    ensures
        r == parts@[1],
{
    parts[1]
}

} // verus!

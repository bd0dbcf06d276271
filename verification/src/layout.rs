//! Rectangles of the screen, and the division of one into parts.

use vstd::prelude::*;
use tui::layout::{
    Constraint as SolverConstraint, Direction as SolverDirection, Layout as SolverLayout, Rect as SolverRect,
};

verus! {

/// A rectangle of the screen, in cells.
#[derive(Clone, Copy, Debug, PartialEq, Eq, Structural)]
pub struct Rect {
    pub x: u16,
    pub y: u16,
    pub width: u16,
    pub height: u16,
}

impl Rect {
    /// The column of the left edge.
    pub fn left(self) -> (x: u16)
        ensures
            x == self.x,
    {
        self.x
    }

    /// The row of the top edge.
    pub fn top(self) -> (y: u16)
        ensures
            y == self.y,
    {
        self.y
    }

    /// The empty rectangle at the origin.
    pub open spec fn zero() -> Rect {
        Rect { x: 0, y: 0, width: 0, height: 0 }
    }
}

impl Default for Rect {
    fn default() -> (rect: Rect)
        ensures
            rect == Rect::zero(),
    {
        Rect { x: 0, y: 0, width: 0, height: 0 }
    }
}

/// The direction in which an area is divided.
#[derive(Clone, Copy, Debug, PartialEq, Eq, Structural)]
pub enum Direction {
    Horizontal,
    Vertical,
}

/// What one part of a divided area asks for.
#[derive(Clone, Copy, Debug, PartialEq, Eq, Structural)]
pub enum Constraint {
    /// A percentage of the area.
    Percentage(u16),
    /// A number of cells.
    Length(u16),
    /// At least a number of cells.
    Min(u16),
}

/// How to place text in its area.
#[derive(Clone, Copy, Debug, PartialEq, Eq, Structural)]
pub enum Alignment {
    Left,
    Center,
    Right,
}

/// A division of an area into parts, one for each constraint, side by
/// side in one direction, inside a margin.
pub struct Layout {
    pub direction: Direction,
    pub margin: u16,
    pub constraints: Vec<Constraint>,
}

impl Default for Layout {
    fn default() -> (layout: Layout)
        ensures
            layout.direction == Direction::Vertical,
            layout.margin == 0,
            layout.constraints@ == Seq::<Constraint>::empty(),
    {
        Layout { direction: Direction::Vertical, margin: 0, constraints: Vec::new() }
    }
}

/// What is left of `area` inside a margin of `margin` cells on each side:
/// the empty rectangle at the origin where the margin does not fit.
pub open spec fn inner(area: Rect, margin: u16) -> Rect {
    if area.width < 2 * margin || area.height < 2 * margin {
        Rect::zero()
    } else {
        Rect {
            x: (area.x + margin) as u16,
            y: (area.y + margin) as u16,
            width: (area.width - 2 * margin) as u16,
            height: (area.height - 2 * margin) as u16,
        }
    }
}

/// The extent, in the direction of the division, of what is left of
/// `area` inside the margin.
pub open spec fn extent(direction: Direction, margin: u16, area: Rect) -> int {
    match direction {
        Direction::Horizontal => inner(area, margin).width as int,
        Direction::Vertical => inner(area, margin).height as int,
    }
}

/// Whether the solver can divide `area`: its arithmetic stays within 16
/// bits and its demands can be met. The margin fits twice into 16 bits;
/// what is left inside the margin starts and ends at coordinates of 16 bits;
/// and each percentage of its extent fits into 16 bits.
pub open spec fn divisible(direction: Direction, margin: u16, constraints: Seq<Constraint>, area: Rect) -> bool {
    &&& 2 * margin <= u16::MAX
    &&& (area.width >= 2 * margin && area.height >= 2 * margin) ==> {
        &&& area.x + area.width - margin <= u16::MAX
        &&& area.y + area.height - margin <= u16::MAX
    }
    &&& forall|i: int| 0 <= i < constraints.len() ==> (#[trigger] constraints[i] matches Constraint::Percentage(p)
        ==> p * extent(direction, margin, area) <= u16::MAX)
}

/// Whether the last of `parts` ends where what is left of `area` inside
/// the margin ends, in the direction of the division. No parts end nowhere.
pub open spec fn fills(direction: Direction, margin: u16, area: Rect, parts: Seq<Rect>) -> bool {
    parts.len() > 0 ==> match direction {
        Direction::Horizontal => parts.last().x + parts.last().width == inner(area, margin).x + inner(
            area,
            margin,
        ).width,
        Direction::Vertical => parts.last().y + parts.last().height == inner(area, margin).y + inner(
            area,
            margin,
        ).height,
    }
}

/// Whether `parts` is an outcome of dividing `area`: where the area can be
/// divided, one part for each constraint, the last of which ends where the
/// inside of the area ends; and none where it cannot.
pub open spec fn splits(
    direction: Direction,
    margin: u16,
    constraints: Seq<Constraint>,
    area: Rect,
    parts: Option<Seq<Rect>>,
) -> bool {
    match parts {
        Some(parts) => {
            &&& divisible(direction, margin, constraints, area)
            &&& parts.len() == constraints.len()
            &&& fills(direction, margin, area, parts)
        },
        None => !divisible(direction, margin, constraints, area),
    }
}

/// The mathematical value of what `Layout::split` hands back.
pub open spec fn parts_view(parts: Option<Vec<Rect>>) -> Option<Seq<Rect>> {
    match parts {
        Some(parts) => Some(parts@),
        None => None,
    }
}

/// Divides `area` with the constraint solver of `tui`
/// (`tui::layout::Layout::split`). Claimed: on an area that is `divisible`
/// the call returns, with one part for each constraint, and the last part
/// is stretched to end where the inside of the area ends. Where the parts
/// lie otherwise is the solver's decision; it is not stated, since the
/// solver may settle equal-ranking demands differently from one run to the
/// next.
#[verifier::external_body]
fn solve(direction: Direction, margin: u16, constraints: &Vec<Constraint>, area: Rect) -> (parts: Vec<Rect>)
    requires
        divisible(direction, margin, constraints@, area),
    ensures
        parts@.len() == constraints@.len(),
        fills(direction, margin, area, parts@),
{
    let wanted: Vec<_> = constraints.iter().map(|c| match *c {
        Constraint::Percentage(p) => SolverConstraint::Percentage(p),
        Constraint::Length(l) => SolverConstraint::Length(l),
        Constraint::Min(m) => SolverConstraint::Min(m),
    }).collect();
    let along = match direction {
        Direction::Horizontal => SolverDirection::Horizontal,
        Direction::Vertical => SolverDirection::Vertical,
    };
    let plan = SolverLayout::default().direction(along).margin(margin).constraints(wanted);
    let Rect { x, y, width, height } = area;
    let parts = plan.split(SolverRect { x, y, width, height });
    parts.iter().map(|&SolverRect { x, y, width, height }| Rect { x, y, width, height }).collect()
}

impl Layout {
    /// The layout with the direction `direction`.
    pub fn direction(self, direction: Direction) -> (layout: Layout)
        ensures
            layout.direction == direction,
            layout.margin == self.margin,
            layout.constraints@ == self.constraints@,
    {
        Layout { direction, margin: self.margin, constraints: self.constraints }
    }

    /// The layout with the margin `margin` on all four sides.
    pub fn margin(self, margin: u16) -> (layout: Layout)
        ensures
            layout.direction == self.direction,
            layout.margin == margin,
            layout.constraints@ == self.constraints@,
    {
        Layout { direction: self.direction, margin, constraints: self.constraints }
    }

    /// The layout with the constraints `constraints`.
    pub fn constraints(self, constraints: Vec<Constraint>) -> (layout: Layout)
        ensures
            layout.direction == self.direction,
            layout.margin == self.margin,
            layout.constraints@ == constraints@,
    {
        Layout { direction: self.direction, margin: self.margin, constraints }
    }

    /// Whether `area` can be divided by this layout.
    pub open spec fn divides(&self, area: Rect) -> bool {
        divisible(self.direction, self.margin, self.constraints@, area)
    }

    /// Tests whether `area` can be divided by this layout.
    pub fn can_split(&self, area: Rect) -> (ok: bool)
        ensures
            ok == self.divides(area),
    {
        if self.margin > 32767 {
            return false;
        }
        let twice: u16 = 2 * self.margin;
        let mut extent: u16 = 0;
        if area.width >= twice && area.height >= twice {
            let right: u32 = area.x as u32 + area.width as u32 - self.margin as u32;
            let bottom: u32 = area.y as u32 + area.height as u32 - self.margin as u32;
            if right > 65535 || bottom > 65535 {
                return false;
            }
            extent = match self.direction {
                Direction::Horizontal => area.width - twice,
                Direction::Vertical => area.height - twice,
            };
        }
        assert(extent == crate::layout::extent(self.direction, self.margin, area));
        let mut at: usize = 0;
        while at < self.constraints.len()
            invariant
                at <= self.constraints@.len(),
                extent == crate::layout::extent(self.direction, self.margin, area),
                forall|i: int| 0 <= i < at ==> (#[trigger] self.constraints@[i] matches Constraint::Percentage(p)
                    ==> p * extent <= u16::MAX),
            decreases self.constraints@.len() - at,
        {
            match self.constraints[at] {
                Constraint::Percentage(p) => {
                    assert(p * extent <= 65535 * 65535) by (nonlinear_arith)
                        requires
                            0 <= p <= 65535,
                            0 <= extent <= 65535,
                    ;
                    let product: u32 = (p as u32) * (extent as u32);
                    if product > 65535 {
                        return false;
                    }
                },
                _ => {},
            }
            at += 1;
        }
        true
    }

    /// Divides `area` into one part for each constraint, or gives `None`
    /// where the area cannot be divided. The last part ends where the inside
    /// of the area ends; where the parts lie otherwise is left to the solver.
    pub fn split(&self, area: Rect) -> (parts: Option<Vec<Rect>>)
        ensures
            parts is Some <==> self.divides(area),
            parts is Some ==> parts.unwrap()@.len() == self.constraints@.len(),
            splits(self.direction, self.margin, self.constraints@, area, parts_view(parts)),
    {
        if self.can_split(area) {
            Some(solve(self.direction, self.margin, &self.constraints, area))
        } else {
            None
        }
    }
}

} // verus!

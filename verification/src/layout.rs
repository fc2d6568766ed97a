//! Rectangles of the terminal and how `ratatui` divides one.

use ratatui::layout::Constraint as Share;
use ratatui::layout::Direction as Axis;
use ratatui::layout::{Layout, Rect};
use vstd::prelude::*;

verus! {

/// A rectangle of terminal cells: the column and row of its top left
/// corner, and its size.
#[derive(Clone, Copy, PartialEq, Eq, Debug, Structural)]
pub struct Area {
    pub x: u16,
    pub y: u16,
    pub width: u16,
    pub height: u16,
}

/// The axis along which an area is divided.
#[derive(Clone, Copy, PartialEq, Eq, Debug, Structural)]
pub enum Direction {
    Horizontal,
    Vertical,
}

/// What one part of a divided area asks for along the axis: a share of the
/// whole in percent, an exact number of cells, or at least so many cells.
#[derive(Clone, Copy, PartialEq, Eq, Debug, Structural)]
pub enum Constraint {
    Percentage(u16),
    Length(u16),
    Min(u16),
}

impl Area {
    /// The column just past the area, or the last column there is if the
    /// area reaches beyond it.
    pub open spec fn right(self) -> int {
        if self.x + self.width > u16::MAX {
            u16::MAX as int
        } else {
            self.x + self.width
        }
    }

    /// The row just past the area, or the last row there is if the area
    /// reaches beyond it.
    pub open spec fn bottom(self) -> int {
        if self.y + self.height > u16::MAX {
            u16::MAX as int
        } else {
            self.y + self.height
        }
    }

    /// The area lies inside `outer`.
    pub open spec fn within(self, outer: Area) -> bool {
        &&& outer.x <= self.x
        &&& self.x + self.width <= outer.right()
        &&& outer.y <= self.y
        &&& self.y + self.height <= outer.bottom()
    }
}

/// What is left of `area` inside a margin of `margin` cells on every side,
/// as `ratatui::layout::Rect::inner()` has it: an area too small for the
/// margin leaves the empty area at the origin.
pub open spec fn shrunk(area: Area, margin: u16) -> Area {
    let doubled: int = if 2 * margin > u16::MAX {
        u16::MAX as int
    } else {
        2 * margin
    };
    if area.width < doubled || area.height < doubled {
        Area { x: 0, y: 0, width: 0, height: 0 }
    } else {
        Area {
            x: if area.x + margin > u16::MAX {
                u16::MAX
            } else {
                (area.x + margin) as u16
            },
            y: if area.y + margin > u16::MAX {
                u16::MAX
            } else {
                (area.y + margin) as u16
            },
            width: (area.width - doubled) as u16,
            height: (area.height - doubled) as u16,
        }
    }
}

/// How a part of `inner` divided along `direction` lies in it: across the
/// direction it spans all of `inner`, and along the direction it stays
/// between the two ends of `inner`.
pub open spec fn placed(direction: Direction, inner: Area, part: Area) -> bool {
    match direction {
        Direction::Vertical => {
            &&& part.x == inner.x
            &&& part.width == inner.width
            &&& inner.y <= part.y
            &&& part.y + part.height <= inner.bottom()
        },
        Direction::Horizontal => {
            &&& part.y == inner.y
            &&& part.height == inner.height
            &&& inner.x <= part.x
            &&& part.x + part.width <= inner.right()
        },
    }
}

/// `ratatui::layout::Layout::split()`: divides `area`, less a margin of
/// `margin` cells on every side, along `direction`.
///
/// The parts come from a constraint solver that is free to choose among
/// equally good solutions, so their sizes along the direction are not
/// stated. What holds of every solution: there is one part for each
/// constraint, in the order of the constraints; every part spans what is
/// left of the area across the direction; and along the direction every
/// part stays inside it, which the layout demands of the solver for every
/// edge of every part.
#[verifier::external_body]
pub(crate) fn split(
    direction: Direction,
    margin: u16,
    constraints: &Vec<Constraint>,
    area: Area,
) -> (parts: Vec<Area>)
    ensures
        parts.len() == constraints.len(),
        forall|i: int|
            0 <= i < parts.len() ==> placed(direction, shrunk(area, margin), #[trigger] parts[i]),
{
    let direction = match direction {
        Direction::Horizontal => Axis::Horizontal,
        Direction::Vertical => Axis::Vertical,
    };
    let constraints = constraints.iter().map(|c| match *c {
        Constraint::Percentage(p) => Share::Percentage(p),
        Constraint::Length(n) => Share::Length(n),
        Constraint::Min(n) => Share::Min(n),
    });
    let rect = Rect { x: area.x, y: area.y, width: area.width, height: area.height };
    let parts = Layout::default().direction(direction).margin(margin).constraints(constraints).split(rect);
    parts.iter().map(|r| Area { x: r.x, y: r.y, width: r.width, height: r.height }).collect()
}

} // verus!

//! How the neighbourhood of a cell is resolved at the edges of the grid.

use vstd::prelude::*;

verus! {

/// `Clamp` leaves out the neighbours that fall outside the grid; `Wrap` takes
/// them from the opposite edge.
#[derive(Clone, Copy, Debug, PartialEq, Eq, Structural)]
pub enum BorderPolicy {
    Clamp,
    Wrap,
}

/// Whether `delta` is a step of at most one cell.
pub open spec fn unit_step(delta: int) -> bool {
    -1 <= delta <= 1
}

impl BorderPolicy {
    /// The other policy.
    pub open spec fn switched(self) -> BorderPolicy {
        match self {
            BorderPolicy::Clamp => BorderPolicy::Wrap,
            BorderPolicy::Wrap => BorderPolicy::Clamp,
        }
    }

    /// Where one step of `delta` from `position` leads along an axis of
    /// `size` cells. Under `Clamp` a step off the axis leads nowhere. Under
    /// `Wrap` a step below the first cell leads to the last, and a step past
    /// the last cell leads to the first.
    pub open spec fn resolved_axis(self, position: int, delta: int, size: int) -> Option<int> {
        let target = position + delta;
        match self {
            BorderPolicy::Clamp => if 0 <= target < size {
                Some(target)
            } else {
                None
            },
            BorderPolicy::Wrap => if target < 0 {
                Some(size - 1)
            } else if target >= size {
                Some(0)
            } else {
                Some(target)
            },
        }
    }

    /// The neighbour of `(x, y)` at offset `(dx, dy)` on a grid of `width` by
    /// `height` cells: each axis is resolved on its own, and the neighbour is
    /// absent as soon as it is absent along one axis.
    pub open spec fn resolved(
        self,
        x: int,
        y: int,
        dx: int,
        dy: int,
        width: int,
        height: int,
    ) -> Option<(int, int)> {
        match (self.resolved_axis(x, dx, width), self.resolved_axis(y, dy, height)) {
            (Some(nx), Some(ny)) => Some((nx, ny)),
            _ => None,
        }
    }

    pub fn switch(&mut self)
        ensures
            *final(self) == old(self).switched(),
    {
        *self = match self {
            BorderPolicy::Clamp => BorderPolicy::Wrap,
            BorderPolicy::Wrap => BorderPolicy::Clamp,
        };
    }

    /// Resolves one step along a single axis.
    fn resolve_axis(&self, position: usize, delta: i32, size: usize) -> (target: Option<usize>)
        requires
            position < size,
            unit_step(delta as int),
        ensures
            target is Some <==> self.resolved_axis(position as int, delta as int, size as int)
                is Some,
            target matches Some(t) ==> t < size && self.resolved_axis(
                position as int,
                delta as int,
                size as int,
            ) == Some(t as int),
    {
        if delta < 0 {
            if position > 0 {
                Some(position - 1)
            } else {
                match self {
                    BorderPolicy::Clamp => None,
                    BorderPolicy::Wrap => Some(size - 1),
                }
            }
        } else if delta > 0 {
            if position < size - 1 {
                Some(position + 1)
            } else {
                match self {
                    BorderPolicy::Clamp => None,
                    BorderPolicy::Wrap => Some(0),
                }
            }
        } else {
            Some(position)
        }
    }

    /// Resolves the neighbour of `(x, y)` at offset `(dx, dy)`.
    pub fn resolve(
        &self,
        x: usize,
        y: usize,
        dx: i32,
        dy: i32,
        width: usize,
        height: usize,
    ) -> (neighbour: Option<(usize, usize)>)
        requires
            x < width,
            y < height,
            unit_step(dx as int),
            unit_step(dy as int),
        ensures
            neighbour is Some <==> self.resolved(
                x as int,
                y as int,
                dx as int,
                dy as int,
                width as int,
                height as int,
            ) is Some,
            neighbour matches Some((nx, ny)) ==> nx < width && ny < height && self.resolved(
                x as int,
                y as int,
                dx as int,
                dy as int,
                width as int,
                height as int,
            ) == Some((nx as int, ny as int)),
            *self == BorderPolicy::Wrap ==> neighbour is Some,
    {
        match (self.resolve_axis(x, dx, width), self.resolve_axis(y, dy, height)) {
            (Some(nx), Some(ny)) => Some((nx, ny)),
            _ => None,
        }
    }
}

} // verus!

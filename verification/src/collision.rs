//! Collision of a moving circle with an axis-aligned rectangle.
//!
//! The circle is tested as its bounding square. Besides plain overlap the
//! test compares the separation of the two centres with a second one, taken
//! against the rectangle moved back by one frame of the body's own motion: a
//! change of sign between the two counts as a hit, so a fast body is stopped
//! at a thin rectangle instead of being carried across it. A hit is resolved
//! along the axis of least penetration only.

use vstd::prelude::*;
use crate::fixed::{sat_abs, sat_add, sat_sub, sign_flip};
use crate::vector::Vector2;
use crate::world::Rect;

verus! {

/// The outcome of testing a body against a rectangle: no hit, or the side of
/// the rectangle on which the body is put.
#[derive(Clone, Copy, PartialEq, Eq, Structural, Debug)]
pub enum Contact {
    /// No collision.
    Clear,
    /// The body came from above and rests on the top edge.
    Top,
    /// The body came from below and is put under the bottom edge.
    Bottom,
    /// The body is put against the left edge.
    Left,
    /// The body is put against the right edge.
    Right,
}

/// What the resolver needs to know of a moving body.
#[derive(Clone, Copy, PartialEq, Eq, Structural, Debug)]
pub struct MovingCircle {
    pub position: Vector2,
    pub velocity: Vector2,
    pub radius: i64,
}

/// Largest magnitude of a coordinate for which no sum in the resolver
/// saturates.
pub const RANGE: i64 = 0x1000_0000_0000_0000;

pub open spec fn in_range(v: i64) -> bool {
    -RANGE <= v <= RANGE
}

impl Rect {
    /// Centre within range and half extents non-negative and within range.
    pub open spec fn bounded(self) -> bool {
        &&& in_range(self.center.x)
        &&& in_range(self.center.y)
        &&& 0 <= self.half.x <= RANGE
        &&& 0 <= self.half.y <= RANGE
    }
}

impl MovingCircle {
    /// Position within range and radius non-negative and within range.
    pub open spec fn bounded(self) -> bool {
        &&& in_range(self.position.x)
        &&& in_range(self.position.y)
        &&& 0 <= self.radius <= RANGE
    }

    /// From the rectangle's centre to the body's.
    pub open spec fn separation(self, rect: Rect) -> Vector2 {
        self.position.sub(&rect.center)
    }

    /// The separation from the rectangle moved back by one frame of the
    /// body's motion: `position - (center - velocity * dt)`.
    pub open spec fn swept_separation(self, rect: Rect, dt: i64) -> Vector2 {
        self.position.sub(&rect.center.sub(&self.velocity.mul(dt)))
    }

    /// The distance between centres, per axis, under which the two overlap.
    pub open spec fn reach(self, rect: Rect) -> Vector2 {
        Vector2 {
            x: sat_add(rect.half.x, self.radius),
            y: sat_add(rect.half.y, self.radius),
        }
    }

    pub open spec fn within_x(self, rect: Rect) -> bool {
        sat_abs(self.separation(rect).x) < self.reach(rect).x
    }

    pub open spec fn within_y(self, rect: Rect) -> bool {
        sat_abs(self.separation(rect).y) < self.reach(rect).y
    }

    /// The two separations lie on opposite sides of the centre along x.
    pub open spec fn crossed_x(self, rect: Rect, dt: i64) -> bool {
        sign_flip(self.swept_separation(rect, dt).x, self.separation(rect).x)
    }

    /// The two separations lie on opposite sides of the centre along y.
    pub open spec fn crossed_y(self, rect: Rect, dt: i64) -> bool {
        sign_flip(self.swept_separation(rect, dt).y, self.separation(rect).y)
    }

    /// Whether the body hits the rectangle this frame: it overlaps it, or it
    /// crossed on one axis while within reach on the other, or it crossed on
    /// both.
    pub open spec fn collides(self, rect: Rect, dt: i64) -> bool {
        ||| self.within_x(rect) && self.within_y(rect)
        ||| self.crossed_x(rect, dt) && self.within_y(rect)
        ||| self.crossed_y(rect, dt) && self.within_x(rect)
        ||| self.crossed_x(rect, dt) && self.crossed_y(rect, dt)
    }

    /// Depth per axis: from the body's near edge to the rectangle's edge on
    /// the side of the centre where the body is.
    pub open spec fn penetration(self, rect: Rect) -> Vector2 {
        let d = self.separation(rect);
        Vector2 {
            x: if d.x > 0 {
                sat_sub(
                    sat_add(rect.center.x, rect.half.x),
                    sat_sub(self.position.x, self.radius),
                )
            } else {
                sat_sub(
                    sat_add(self.position.x, self.radius),
                    sat_sub(rect.center.x, rect.half.x),
                )
            },
            y: if d.y > 0 {
                sat_sub(
                    sat_add(rect.center.y, rect.half.y),
                    sat_sub(self.position.y, self.radius),
                )
            } else {
                sat_sub(
                    sat_add(self.position.y, self.radius),
                    sat_sub(rect.center.y, rect.half.y),
                )
            },
        }
    }

    /// The side on which a hit is resolved: along y where the penetration
    /// there is strictly the smaller, else along x; on each axis the side of
    /// the centre where the body is, the far side at equality.
    pub open spec fn contact(self, rect: Rect, dt: i64) -> Contact {
        let d = self.separation(rect);
        let depth = self.penetration(rect);
        if !self.collides(rect, dt) {
            Contact::Clear
        } else if depth.y < depth.x {
            if d.y < 0 {
                Contact::Top
            } else {
                Contact::Bottom
            }
        } else {
            if d.x < 0 {
                Contact::Left
            } else {
                Contact::Right
            }
        }
    }

    /// Where the body stands once it is put on the given side: one axis
    /// moves so that the body's edge meets the rectangle's, the other stays.
    pub open spec fn pushed_out(self, rect: Rect, contact: Contact) -> Vector2 {
        match contact {
            Contact::Clear => self.position,
            Contact::Top => Vector2 {
                x: self.position.x,
                y: sat_sub(sat_sub(rect.center.y, rect.half.y), self.radius),
            },
            Contact::Bottom => Vector2 {
                x: self.position.x,
                y: sat_add(sat_add(rect.center.y, rect.half.y), self.radius),
            },
            Contact::Left => Vector2 {
                x: sat_sub(sat_sub(rect.center.x, rect.half.x), self.radius),
                y: self.position.y,
            },
            Contact::Right => Vector2 {
                x: sat_add(sat_add(rect.center.x, rect.half.x), self.radius),
                y: self.position.y,
            },
        }
    }

    /// Computes the penetration depth per axis.
    pub fn overlap(&self, rect: &Rect) -> (depth: Vector2)
        ensures
            depth == self.penetration(*rect),
    {
        let d = self.position.sub(&rect.center);
        Vector2 {
            x: if d.x > 0 {
                sat_sub(
                    sat_add(rect.center.x, rect.half.x),
                    sat_sub(self.position.x, self.radius),
                )
            } else {
                sat_sub(
                    sat_add(self.position.x, self.radius),
                    sat_sub(rect.center.x, rect.half.x),
                )
            },
            y: if d.y > 0 {
                sat_sub(
                    sat_add(rect.center.y, rect.half.y),
                    sat_sub(self.position.y, self.radius),
                )
            } else {
                sat_sub(
                    sat_add(self.position.y, self.radius),
                    sat_sub(rect.center.y, rect.half.y),
                )
            },
        }
    }

    /// Tests the body against one rectangle for a frame of length `dt`.
    pub fn detect(&self, rect: &Rect, dt: i64) -> (contact: Contact)
        ensures
            contact == self.contact(*rect, dt),
            contact != Contact::Clear <==> self.collides(*rect, dt),
    {
        let dist = self.position.sub(&rect.center);
        let swept = self.position.sub(&rect.center.sub(&self.velocity.mul(dt)));
        let in_x: bool = sat_abs(dist.x) < sat_add(rect.half.x, self.radius);
        let in_y: bool = sat_abs(dist.y) < sat_add(rect.half.y, self.radius);
        let flip_x: bool = sign_flip(swept.x, dist.x);
        let flip_y: bool = sign_flip(swept.y, dist.y);
        if (in_x && in_y) || (flip_x && in_y) || (flip_y && in_x) || (flip_x && flip_y) {
            let depth = self.overlap(rect);
            if depth.y < depth.x {
                if dist.y < 0 {
                    Contact::Top
                } else {
                    Contact::Bottom
                }
            } else {
                if dist.x < 0 {
                    Contact::Left
                } else {
                    Contact::Right
                }
            }
        } else {
            Contact::Clear
        }
    }

    /// The position after the body is put on the given side of the rectangle.
    pub fn push_out(&self, rect: &Rect, contact: Contact) -> (position: Vector2)
        ensures
            position == self.pushed_out(*rect, contact),
    {
        match contact {
            Contact::Clear => self.position,
            Contact::Top => Vector2 {
                x: self.position.x,
                y: sat_sub(sat_sub(rect.center.y, rect.half.y), self.radius),
            },
            Contact::Bottom => Vector2 {
                x: self.position.x,
                y: sat_add(sat_add(rect.center.y, rect.half.y), self.radius),
            },
            Contact::Left => Vector2 {
                x: sat_sub(sat_sub(rect.center.x, rect.half.x), self.radius),
                y: self.position.y,
            },
            Contact::Right => Vector2 {
                x: sat_add(sat_add(rect.center.x, rect.half.x), self.radius),
                y: self.position.y,
            },
        }
    }
}

/// A resolved hit leaves no penetration on the axis it was resolved on: once
/// pushed out, the body's edge meets the rectangle's edge exactly, the depth
/// measured there is zero, and the two no longer overlap.
pub proof fn lemma_push_out_separates(body: MovingCircle, rect: Rect, dt: i64)
    requires
        body.bounded(),
        rect.bounded(),
    ensures
        ({
            let hit = body.contact(rect, dt);
            let after = MovingCircle { position: body.pushed_out(rect, hit), ..body };
            &&& hit == Contact::Top || hit == Contact::Bottom ==> after.penetration(rect).y == 0
                && !after.within_y(rect)
            &&& hit == Contact::Left || hit == Contact::Right ==> after.penetration(rect).x == 0
                && !after.within_x(rect)
            &&& hit != Contact::Clear ==> !(after.within_x(rect) && after.within_y(rect))
        }),
{
}

/// A body that overlaps a rectangle, stands above its centre and is less
/// deep in it vertically than horizontally lands on its top edge, whatever
/// its velocity.
pub proof fn lemma_overlap_from_above_lands(body: MovingCircle, rect: Rect, dt: i64)
    requires
        body.within_x(rect),
        body.within_y(rect),
        body.separation(rect).y < 0,
        body.penetration(rect).y < body.penetration(rect).x,
    ensures
        body.contact(rect, dt) == Contact::Top,
{
}

/// A body whose two separations differ in sign on both axes is caught even
/// where it is within reach of the rectangle on neither.
pub proof fn lemma_double_crossing_is_caught(body: MovingCircle, rect: Rect, dt: i64)
    requires
        body.crossed_x(rect, dt),
        body.crossed_y(rect, dt),
    ensures
        body.contact(rect, dt) != Contact::Clear,
{
}

} // verus!

//! The static part of the world: its extent and its platforms.

use vstd::prelude::*;
use crate::fixed::{half, sat_add, sat_neg, sat_sub, ONE};
use crate::vector::Vector2;

verus! {

/// Width and height of the visible surface, in world units.
#[derive(Clone, Copy, PartialEq, Eq, Structural, Debug)]
pub struct WorldBounds {
    pub width: i64,
    pub height: i64,
}

/// An axis-aligned rectangle given by its centre and its half extents: what
/// a moving body collides with.
#[derive(Clone, Copy, PartialEq, Eq, Structural, Debug)]
pub struct Rect {
    pub center: Vector2,
    pub half: Vector2,
}

/// Where to draw a filled rectangle: top-left corner, width and height.
#[derive(Clone, Copy, PartialEq, Eq, Structural, Debug)]
pub struct Sprite {
    pub x: i64,
    pub y: i64,
    pub w: i64,
    pub h: i64,
}

/// Where to draw a filled circle: centre and radius.
#[derive(Clone, Copy, PartialEq, Eq, Structural, Debug)]
pub struct Disc {
    pub x: i64,
    pub y: i64,
    pub radius: i64,
}

/// A platform. `position` is its centre, `dimensions` its full width and
/// height; neither changes after creation. `scroll` shifts it on screen only.
#[derive(Clone, Copy, PartialEq, Eq, Structural, Debug)]
pub struct Plat {
    pub position: Vector2,
    pub dimensions: Vector2,
    pub scroll: i64,
}

pub const PLATFORM_COUNT: usize = 16;

pub const PLATFORM_THICKNESS: i64 = 25 * ONE;

pub const PLATFORM_SPACING: i64 = 100 * ONE;

pub const WIDE_PLATFORM: i64 = 300 * ONE;

pub const NARROW_PLATFORM: i64 = 150 * ONE;

pub const NARROW_PLATFORM_INSET: i64 = 400 * ONE;

impl Plat {
    pub fn new(x: i64, y: i64, w: i64, h: i64) -> (r: Self)
        ensures
            r == (Plat { position: Vector2 { x, y }, dimensions: Vector2 { x: w, y: h }, scroll: 0 }),
    {
        Self { position: Vector2::new(x, y), dimensions: Vector2::new(w, h), scroll: 0 }
    }

    pub open spec fn spec_rect(&self) -> Rect {
        Rect {
            center: self.position,
            half: Vector2 { x: half(self.dimensions.x), y: half(self.dimensions.y) },
        }
    }

    /// The platform as a collider, in world coordinates.
    #[verifier::when_used_as_spec(spec_rect)]
    pub fn rect(&self) -> (r: Rect)
        ensures
            r == self.spec_rect(),
    {
        Rect {
            center: self.position,
            half: Vector2 { x: half(self.dimensions.x), y: half(self.dimensions.y) },
        }
    }

    pub open spec fn spec_adjusted_y(&self) -> i64 {
        sat_add(self.position.y, self.scroll)
    }

    /// The centre's height on screen.
    #[verifier::when_used_as_spec(spec_adjusted_y)]
    pub fn adjusted_y(&self) -> (r: i64)
        ensures
            r == sat_add(self.position.y, self.scroll),
    {
        sat_add(self.position.y, self.scroll)
    }

    /// Whether any part of the platform may show on a surface of the given
    /// height: its scrolled centre lies strictly between one platform height
    /// above the top and one below the bottom.
    pub open spec fn visible(&self, bounds: WorldBounds) -> bool {
        sat_neg(self.dimensions.y) < self.adjusted_y() < sat_add(bounds.height, self.dimensions.y)
    }

    /// The rectangle to draw this frame, or `None` while the platform is
    /// off screen.
    pub fn update(&self, bounds: WorldBounds) -> (r: Option<Sprite>)
        ensures
            self.visible(bounds) <==> r.is_some(),
            r.is_some() ==> r.unwrap() == (Sprite {
                x: sat_sub(self.position.x, half(self.dimensions.x)),
                y: sat_sub(self.adjusted_y(), half(self.dimensions.y)),
                w: self.dimensions.x,
                h: self.dimensions.y,
            }),
    {
        let adjusted_y: i64 = self.adjusted_y();
        if adjusted_y > sat_neg(self.dimensions.y) && adjusted_y < sat_add(
            bounds.height,
            self.dimensions.y,
        ) {
            Some(
                Sprite {
                    x: sat_sub(self.position.x, half(self.dimensions.x)),
                    y: sat_sub(adjusted_y, half(self.dimensions.y)),
                    w: self.dimensions.x,
                    h: self.dimensions.y,
                },
            )
        } else {
            None
        }
    }

    pub fn set_scroll(&mut self, scroll: i64)
        ensures
            *final(self) == (Plat { scroll, ..*old(self) }),
    {
        self.scroll = scroll;
    }
}

/// The `i`-th platform of the level, counted from the bottom. Each stands one
/// spacing above the last; they alternate between a wide one centred on the
/// left wall, a narrow one inset from the right wall, a wide one centred on
/// the right wall, and the narrow one again.
pub open spec fn platform_at(bounds: WorldBounds, i: int) -> Plat {
    let y = sat_sub(bounds.height, ((i + 1) * PLATFORM_SPACING) as i64);
    if i % 4 == 0 {
        Plat {
            position: Vector2 { x: 0, y },
            dimensions: Vector2 { x: WIDE_PLATFORM, y: PLATFORM_THICKNESS },
            scroll: 0,
        }
    } else if i % 4 == 2 {
        Plat {
            position: Vector2 { x: bounds.width, y },
            dimensions: Vector2 { x: WIDE_PLATFORM, y: PLATFORM_THICKNESS },
            scroll: 0,
        }
    } else {
        Plat {
            position: Vector2 { x: sat_sub(bounds.width, NARROW_PLATFORM_INSET), y },
            dimensions: Vector2 { x: NARROW_PLATFORM, y: PLATFORM_THICKNESS },
            scroll: 0,
        }
    }
}

/// The level: sixteen platforms climbing from the floor.
pub fn generate_platforms(bounds: WorldBounds) -> (platforms: Vec<Plat>)
    ensures
        platforms@.len() == PLATFORM_COUNT,
        forall|i: int| 0 <= i < PLATFORM_COUNT ==> platforms@[i] == platform_at(bounds, i),
{
    let mut platforms: Vec<Plat> = Vec::new();
    let mut i: usize = 0;
    while i < PLATFORM_COUNT
        invariant
            i <= PLATFORM_COUNT,
            platforms@.len() == i,
            forall|k: int| 0 <= k < i ==> platforms@[k] == platform_at(bounds, k),
        decreases PLATFORM_COUNT - i,
    {
        let rise: i64 = (i as i64 + 1) * PLATFORM_SPACING;
        let y: i64 = sat_sub(bounds.height, rise);
        let plat = if i % 4 == 0 {
            Plat::new(0, y, WIDE_PLATFORM, PLATFORM_THICKNESS)
        } else if i % 4 == 2 {
            Plat::new(bounds.width, y, WIDE_PLATFORM, PLATFORM_THICKNESS)
        } else {
            Plat::new(
                sat_sub(bounds.width, NARROW_PLATFORM_INSET),
                y,
                NARROW_PLATFORM,
                PLATFORM_THICKNESS,
            )
        };
        platforms.push(plat);
        i += 1;
    }
    platforms
}

} // verus!

//! The enemy: a ball that falls, bounces off the ground on its own, and
//! turns round at walls, at the sides of platforms and at the player.

use vstd::prelude::*;
use crate::collision::{Contact, MovingCircle};
use crate::fixed::{fx_mul, sat_add, sat_neg, sat_sub, spec_clamp, ONE};
use crate::guarantees::{
    between_walls, flush_with_one, left_stop, lemma_enemy_frame_ends_between_walls_or_flush,
    lemma_enemy_hit_leaves_no_penetration, right_stop,
};
use crate::player::{Player, GRAVITY};
use crate::vector::Vector2;
use crate::world::{Disc, Plat, Rect, WorldBounds};

verus! {

/// Radius of the enemy's circle.
pub const DIMENSION: i64 = 16 * ONE;

/// Upward speed that a grounded enemy is given at the start of a frame.
pub const BOUNCE_SPEED: i64 = 2000 * ONE;

#[derive(Clone, Copy, PartialEq, Eq, Structural, Debug)]
pub struct Enemy {
    /// Centre, in world coordinates.
    pub position: Vector2,
    /// World units per second.
    pub velocity: Vector2,
    /// Whether the last frame left the enemy standing on something.
    pub grounded: bool,
    /// Shift applied when drawing; physics never reads it.
    pub scroll: i64,
}

impl Enemy {
    /// An enemy in mid-air at `(x, y)` that moves sideways at `vel_x`.
    pub fn new(x: i64, y: i64, vel_x: i64) -> (r: Self)
        ensures
            r == (Enemy {
                position: Vector2 { x, y },
                velocity: Vector2 { x: vel_x, y: 0 },
                grounded: false,
                scroll: 0,
            }),
    {
        Self {
            position: Vector2::new(x, y),
            velocity: Vector2::new(vel_x, 0),
            grounded: false,
            scroll: 0,
        }
    }

    pub open spec fn spec_circle(&self) -> MovingCircle {
        MovingCircle { position: self.position, velocity: self.velocity, radius: DIMENSION }
    }

    /// The enemy as the resolver sees it.
    #[verifier::when_used_as_spec(spec_circle)]
    pub fn circle(&self) -> (c: MovingCircle)
        ensures
            c == self.spec_circle(),
    {
        MovingCircle { position: self.position, velocity: self.velocity, radius: DIMENSION }
    }

    pub open spec fn spec_adjusted_y(&self) -> i64 {
        sat_add(self.position.y, self.scroll)
    }

    /// The centre's height on screen.
    #[verifier::when_used_as_spec(spec_adjusted_y)]
    pub fn adjusted_y(&self) -> (r: i64)
        ensures
            r == sat_add(self.position.y, self.scroll),
    {
        sat_add(self.position.y, self.scroll)
    }

    pub fn set_scroll(&mut self, scroll: i64)
        ensures
            *final(self) == (Enemy { scroll, ..*old(self) }),
    {
        self.scroll = scroll;
    }

    /// Whether any part of the enemy may show on a surface of the given
    /// height.
    pub open spec fn visible(&self, bounds: WorldBounds) -> bool {
        -DIMENSION < self.adjusted_y() < sat_add(bounds.height, DIMENSION)
    }

    /// The circle to draw this frame, or `None` while the enemy is off
    /// screen.
    pub fn disc(&self, bounds: WorldBounds) -> (r: Option<Disc>)
        ensures
            self.visible(bounds) <==> r.is_some(),
            r.is_some() ==> r.unwrap() == (Disc {
                x: self.position.x,
                y: self.adjusted_y(),
                radius: DIMENSION,
            }),
    {
        let adjusted_y: i64 = self.adjusted_y();
        if adjusted_y > -DIMENSION && adjusted_y < sat_add(bounds.height, DIMENSION) {
            Some(Disc { x: self.position.x, y: adjusted_y, radius: DIMENSION })
        } else {
            None
        }
    }

    // ---- the stages of a frame, as functions of the state ----

    /// After the bounce impulse and gravity: a grounded enemy takes off at
    /// the bounce speed, and gravity then acts on every enemy.
    pub open spec fn launched(self, dt: i64) -> Enemy {
        let vy = if self.grounded {
            sat_neg(BOUNCE_SPEED)
        } else {
            self.velocity.y
        };
        Enemy {
            velocity: Vector2 { x: self.velocity.x, y: sat_add(vy, fx_mul(GRAVITY, dt)) },
            ..self
        }
    }

    /// After the position has advanced by the velocity for `dt`.
    pub open spec fn moved(self, dt: i64) -> Enemy {
        Enemy { position: self.position.add(&self.velocity.mul(dt)), ..self }
    }

    /// Lowest height the centre can have: the floor line.
    pub open spec fn floor_line(bounds: WorldBounds) -> i64 {
        sat_sub(bounds.height, DIMENSION)
    }

    /// After the world's edges have acted: the centre is clamped between the
    /// side walls and above the floor line. The floor stops the fall and
    /// grounds the enemy; a side wall turns it round.
    pub open spec fn confined(self, bounds: WorldBounds) -> Enemy {
        let floor = Self::floor_line(bounds);
        let stopped = self.position.y > floor;
        let x = spec_clamp(self.position.x, DIMENSION, sat_sub(bounds.width, DIMENSION));
        Enemy {
            position: Vector2 {
                x,
                y: if stopped {
                    floor
                } else {
                    self.position.y
                },
            },
            velocity: Vector2 {
                x: if x != self.position.x {
                    sat_neg(self.velocity.x)
                } else {
                    self.velocity.x
                },
                y: if stopped {
                    0
                } else {
                    self.velocity.y
                },
            },
            grounded: stopped,
            ..self
        }
    }

    /// After one rectangle has been tested and, on a hit, resolved. Landing
    /// on top grounds the enemy; a hit from above or below stops the
    /// vertical motion; a hit from the side reverses the horizontal motion.
    pub open spec fn collided(self, rect: Rect, dt: i64) -> Enemy {
        let hit = self.circle().contact(rect, dt);
        let position = self.circle().pushed_out(rect, hit);
        match hit {
            Contact::Clear => self,
            Contact::Top => Enemy {
                position,
                velocity: Vector2 { x: self.velocity.x, y: 0 },
                grounded: true,
                ..self
            },
            Contact::Bottom => Enemy {
                position,
                velocity: Vector2 { x: self.velocity.x, y: 0 },
                ..self
            },
            Contact::Left | Contact::Right => Enemy {
                position,
                velocity: Vector2 { x: sat_neg(self.velocity.x), y: self.velocity.y },
                ..self
            },
        }
    }

    /// After every platform has been tested in order, each against the state
    /// that the ones before it left.
    pub open spec fn after_platforms(self, platforms: Seq<Plat>, dt: i64) -> Enemy
        decreases platforms.len(),
    {
        if platforms.len() == 0 {
            self
        } else {
            self.after_platforms(platforms.drop_last(), dt).collided(platforms.last().rect(), dt)
        }
    }

    /// The state after a whole frame: impulse and gravity, motion, the
    /// world's edges, the platforms in order, and last the player, who
    /// counts as the square around their circle.
    pub open spec fn after_update(
        self,
        dt: i64,
        bounds: WorldBounds,
        platforms: Seq<Plat>,
        player: Player,
    ) -> Enemy {
        self.launched(dt).moved(dt).confined(bounds).after_platforms(platforms, dt).collided(
            player.rect(),
            dt,
        )
    }

    // ---- the stages, executed ----

    /// Applies the bounce impulse and gravity.
    pub fn launch(&mut self, dt: i64)
        ensures
            *final(self) == old(self).launched(dt),
    {
        if self.grounded {
            self.velocity.y = sat_neg(BOUNCE_SPEED);
        }
        self.velocity.y = sat_add(self.velocity.y, fx_mul(GRAVITY, dt));
    }

    /// Advances the position by the velocity.
    pub fn integrate(&mut self, dt: i64)
        ensures
            *final(self) == old(self).moved(dt),
    {
        self.position = self.position.add(&self.velocity.mul(dt));
    }

    /// Keeps the enemy between the side walls and above the floor.
    pub fn confine(&mut self, bounds: WorldBounds)
        ensures
            *final(self) == old(self).confined(bounds),
            bounds.width >= 2 * DIMENSION ==> DIMENSION <= final(self).position.x <= bounds.width
                - DIMENSION,
            final(self).position.y <= Self::floor_line(bounds),
            final(self).grounded <==> old(self).position.y > Self::floor_line(bounds),
    {
        self.grounded = false;
        let floor: i64 = sat_sub(bounds.height, DIMENSION);
        let cut = self.position.clamp(DIMENSION, sat_sub(bounds.width, DIMENSION), i64::MIN, floor);
        if cut.y != 0 {
            self.velocity.y = 0;
            if self.position.y == floor {
                self.grounded = true;
            }
        }
        if cut.x != 0 {
            self.velocity.x = sat_neg(self.velocity.x);
        }
    }

    /// Tests one rectangle and resolves a hit. Returns what was found.
    pub fn collide(&mut self, rect: &Rect, dt: i64) -> (hit: Contact)
        ensures
            hit == old(self).circle().contact(*rect, dt),
            *final(self) == old(self).collided(*rect, dt),
            hit == Contact::Clear ==> *final(self) == *old(self),
            hit == Contact::Top ==> final(self).grounded && final(self).velocity.y == 0,
            ({
                let before = old(self).circle();
                before.within_x(*rect) && before.within_y(*rect) && before.separation(*rect).y < 0
                    && before.penetration(*rect).y < before.penetration(*rect).x ==> hit
                    == Contact::Top
            }),
            ({
                let before = old(self).circle();
                let after = final(self).circle();
                before.bounded() && rect.bounded() && hit != Contact::Clear ==> !(after.within_x(
                    *rect,
                ) && after.within_y(*rect))
            }),
    {
        proof {
            if self.circle().bounded() && rect.bounded() {
                lemma_enemy_hit_leaves_no_penetration(*self, *rect, dt);
            }
        }
        let body = self.circle();
        let hit = body.detect(rect, dt);
        let position = body.push_out(rect, hit);
        match hit {
            Contact::Clear => {},
            Contact::Top => {
                self.grounded = true;
                self.position = position;
                self.velocity.y = 0;
            },
            Contact::Bottom => {
                self.position = position;
                self.velocity.y = 0;
            },
            Contact::Left | Contact::Right => {
                self.position = position;
                self.velocity.x = sat_neg(self.velocity.x);
            },
        }
        hit
    }

    /// Tests every platform in order. With no platform nothing changes.
    pub fn resolve(&mut self, platforms: &[Plat], dt: i64)
        ensures
            *final(self) == old(self).after_platforms(platforms@, dt),
            platforms@.len() == 0 ==> *final(self) == *old(self),
    {
        let ghost start = *self;
        let mut i: usize = 0;
        while i < platforms.len()
            invariant
                i <= platforms@.len(),
                *self == start.after_platforms(platforms@.take(i as int), dt),
            decreases platforms@.len() - i,
        {
            proof {
                let next = platforms@.take(i + 1);
                assert(next.drop_last() =~= platforms@.take(i as int));
                assert(next.last() == platforms@[i as int]);
            }
            let rect = platforms[i].rect();
            self.collide(&rect, dt);
            i += 1;
        }
        proof {
            assert(platforms@.take(i as int) =~= platforms@);
        }
    }

    /// One frame of the enemy.
    pub fn update(&mut self, dt: i64, bounds: WorldBounds, platforms: &[Plat], player: &Player)
        ensures
            *final(self) == old(self).after_update(dt, bounds, platforms@, *player),
            bounds.width >= 2 * DIMENSION ==> ({
                let x = final(self).position.x;
                ||| between_walls(x, DIMENSION, bounds)
                ||| flush_with_one(x, DIMENSION, platforms@)
                ||| x == left_stop(player.rect(), DIMENSION)
                ||| x == right_stop(player.rect(), DIMENSION)
            }),
    {
        proof {
            if bounds.width >= 2 * DIMENSION {
                lemma_enemy_frame_ends_between_walls_or_flush(
                    *self,
                    dt,
                    bounds,
                    platforms@,
                    *player,
                );
            }
        }
        self.launch(dt);
        self.integrate(dt);
        self.confine(bounds);
        self.resolve(platforms, dt);
        let obstacle = player.rect();
        self.collide(&obstacle, dt);
    }
}

} // verus!

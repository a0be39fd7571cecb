//! The player: keyboard-driven running and jumping under gravity.

use vstd::prelude::*;
use crate::collision::{Contact, MovingCircle};
use crate::fixed::{
    clamp, fx_mul, half, sat_abs, sat_add, sat_neg, sat_sub, spec_clamp, ONE,
};
use crate::guarantees::{
    between_walls, flush_with_one, lemma_frame_caps_speed, lemma_frame_ends_between_walls_or_flush,
    lemma_frame_grounds_at_rest, lemma_platforms_keep_policy,
    lemma_player_hit_leaves_no_penetration, lemma_run_ends_between_walls_or_flush,
};
use crate::vector::Vector2;
use crate::world::{Disc, Plat, Rect, WorldBounds};

verus! {

/// Downward acceleration.
pub const GRAVITY: i64 = 4000 * ONE;

/// Greatest horizontal speed.
pub const X_MOVEMENT_SPEED: i64 = 500 * ONE;

/// Horizontal acceleration on the ground, and braking everywhere.
pub const X_RESPONSIVENESS: i64 = 3000 * ONE;

/// Horizontal acceleration in the air.
pub const X_RESPONSIVENESS_AIR: i64 = 1500 * ONE;

/// Upward speed at take-off.
pub const JUMP_SPEED: i64 = 600 * ONE;

/// Radius of the player's circle.
pub const CIRCLE_RADIUS: i64 = 16 * ONE;

/// How long a held jump key keeps gravity off, under
/// [`JumpPolicy::VariableHeight`].
pub const JUMP_WINDOW: i64 = 300_000;

/// How long after leaving the ground a jump may still start, under
/// [`JumpPolicy::CooldownGuard`].
pub const JUMP_COOLDOWN: i64 = 200_000;

/// Where on the surface a new player stands, as a fraction of its height.
pub const START_HEIGHT: i64 = 750_000;

/// The keys held during a frame.
#[derive(Clone, Copy, PartialEq, Eq, Structural, Debug)]
pub struct Keys {
    pub left: bool,
    pub right: bool,
    pub jump: bool,
}

/// What one frame brings from outside: its length and the keys held.
#[derive(Clone, Copy, PartialEq, Eq, Structural, Debug)]
pub struct Frame {
    pub dt: i64,
    pub keys: Keys,
}

/// What `jump_time` means and how the jump key acts.
#[derive(Clone, Copy, PartialEq, Eq, Structural, Debug)]
pub enum JumpPolicy {
    /// A jump starts on the ground only. `jump_time` is what is left of the
    /// window in which the held key keeps gravity off; letting go, or the
    /// end of the window, brings gravity back at once, and the time by which
    /// the window was overrun is added to that frame's fall.
    VariableHeight,
    /// `jump_time` is the time since the player last stood on something: zero
    /// while grounded, growing otherwise. The key starts a jump while that
    /// time is at most [`JUMP_COOLDOWN`]. Gravity acts in every frame.
    CooldownGuard,
}

#[derive(Clone, Copy, PartialEq, Eq, Structural, Debug)]
pub struct Player {
    /// Centre, in world coordinates.
    pub position: Vector2,
    /// World units per second.
    pub velocity: Vector2,
    /// Whether the last frame left the player standing on the floor or on a
    /// platform.
    pub grounded: bool,
    pub jump_time: i64,
    /// Shift applied when drawing; physics never reads it.
    pub scroll: i64,
    pub policy: JumpPolicy,
}

/// The horizontal velocity after a frame of steering. With exactly one
/// direction held the player speeds up that way; otherwise they brake toward
/// rest, stopping dead once a step would overshoot. The result is capped at
/// the movement speed either way.
pub open spec fn steered_velocity(vx: i64, grounded: bool, dt: i64, keys: Keys) -> i64 {
    let rate = if grounded {
        X_RESPONSIVENESS
    } else {
        X_RESPONSIVENESS_AIR
    };
    let brake = fx_mul(X_RESPONSIVENESS, dt);
    let pushed = if keys.right && !keys.left {
        sat_add(vx, fx_mul(rate, dt))
    } else if keys.left && !keys.right {
        sat_sub(vx, fx_mul(rate, dt))
    } else if sat_abs(vx) > brake {
        if vx > 0 {
            sat_sub(vx, brake)
        } else {
            sat_add(vx, brake)
        }
    } else {
        0
    };
    spec_clamp(pushed, sat_neg(X_MOVEMENT_SPEED), X_MOVEMENT_SPEED)
}

impl Player {
    /// A player at rest in mid-air, half-way across the surface and three
    /// quarters down.
    pub fn new(bounds: WorldBounds) -> (r: Self)
        ensures
            r == (Player {
                position: Vector2 { x: half(bounds.width), y: fx_mul(bounds.height, START_HEIGHT) },
                velocity: Vector2 { x: 0, y: 0 },
                grounded: false,
                jump_time: 0,
                scroll: 0,
                policy: JumpPolicy::VariableHeight,
            }),
    {
        Self {
            position: Vector2 { x: half(bounds.width), y: fx_mul(bounds.height, START_HEIGHT) },
            velocity: Vector2 { x: 0, y: 0 },
            grounded: false,
            jump_time: 0,
            scroll: 0,
            policy: JumpPolicy::VariableHeight,
        }
    }

    /// The same player under another jump policy.
    pub fn with_policy(self, policy: JumpPolicy) -> (r: Self)
        ensures
            r == (Player { policy, ..self }),
    {
        Player { policy, ..self }
    }

    pub open spec fn spec_circle(&self) -> MovingCircle {
        MovingCircle { position: self.position, velocity: self.velocity, radius: CIRCLE_RADIUS }
    }

    /// The player as the resolver sees them.
    #[verifier::when_used_as_spec(spec_circle)]
    pub fn circle(&self) -> (c: MovingCircle)
        ensures
            c == self.spec_circle(),
    {
        MovingCircle { position: self.position, velocity: self.velocity, radius: CIRCLE_RADIUS }
    }

    pub open spec fn spec_rect(&self) -> Rect {
        Rect { center: self.position, half: Vector2 { x: CIRCLE_RADIUS, y: CIRCLE_RADIUS } }
    }

    /// The player as an obstacle to other bodies: the square around the
    /// circle.
    #[verifier::when_used_as_spec(spec_rect)]
    pub fn rect(&self) -> (r: Rect)
        ensures
            r == self.spec_rect(),
    {
        Rect { center: self.position, half: Vector2 { x: CIRCLE_RADIUS, y: CIRCLE_RADIUS } }
    }

    pub open spec fn spec_adjusted_y(&self) -> i64 {
        sat_add(self.position.y, self.scroll)
    }

    /// The centre's height on screen.
    #[verifier::when_used_as_spec(spec_adjusted_y)]
    pub fn adjusted_y(&self) -> (r: i64)
        ensures
            r == sat_add(self.position.y, self.scroll),
    {
        sat_add(self.position.y, self.scroll)
    }

    /// The circle to draw this frame.
    pub fn disc(&self) -> (r: Disc)
        ensures
            r == (Disc { x: self.position.x, y: self.adjusted_y(), radius: CIRCLE_RADIUS }),
    {
        Disc { x: self.position.x, y: self.adjusted_y(), radius: CIRCLE_RADIUS }
    }

    pub fn set_scroll(&mut self, scroll: i64)
        ensures
            *final(self) == (Player { scroll, ..*old(self) }),
    {
        self.scroll = scroll;
    }

    // ---- the stages of a frame, as functions of the state ----

    /// After steering: only the horizontal velocity changes.
    pub open spec fn steered(self, dt: i64, keys: Keys) -> Player {
        Player {
            velocity: Vector2 {
                x: steered_velocity(self.velocity.x, self.grounded, dt, keys),
                y: self.velocity.y,
            },
            ..self
        }
    }

    /// After the jump key and gravity have acted on the vertical velocity
    /// and on `jump_time`.
    pub open spec fn jumped(self, dt: i64, keys: Keys) -> Player {
        match self.policy {
            JumpPolicy::VariableHeight => {
                let taking_off = keys.jump && self.grounded;
                let vy = if taking_off {
                    sat_neg(JUMP_SPEED)
                } else {
                    self.velocity.y
                };
                let left = if !keys.jump {
                    0
                } else if self.grounded {
                    JUMP_WINDOW
                } else if self.jump_time != 0 {
                    sat_sub(self.jump_time, dt)
                } else {
                    self.jump_time
                };
                if left <= 0 {
                    Player {
                        velocity: Vector2 {
                            x: self.velocity.x,
                            y: sat_add(vy, fx_mul(GRAVITY, sat_add(dt, sat_abs(left)))),
                        },
                        jump_time: 0,
                        ..self
                    }
                } else {
                    Player {
                        velocity: Vector2 { x: self.velocity.x, y: vy },
                        jump_time: left,
                        ..self
                    }
                }
            },
            JumpPolicy::CooldownGuard => {
                let airtime = if self.grounded {
                    0
                } else {
                    sat_add(self.jump_time, dt)
                };
                let vy = if keys.jump && airtime <= JUMP_COOLDOWN {
                    sat_neg(JUMP_SPEED)
                } else {
                    self.velocity.y
                };
                Player {
                    velocity: Vector2 {
                        x: self.velocity.x,
                        y: sat_add(vy, fx_mul(GRAVITY, dt)),
                    },
                    jump_time: airtime,
                    ..self
                }
            },
        }
    }

    /// After the position has advanced by the velocity for `dt`.
    pub open spec fn moved(self, dt: i64) -> Player {
        Player { position: self.position.add(&self.velocity.mul(dt)), ..self }
    }

    /// Lowest height the centre can have: the floor line.
    pub open spec fn floor_line(bounds: WorldBounds) -> i64 {
        sat_sub(bounds.height, CIRCLE_RADIUS)
    }

    /// After the world's edges have acted: the centre is clamped between the
    /// side walls and above the floor line (there is no ceiling). A player
    /// stopped by the floor loses their vertical velocity and is grounded;
    /// any other is not grounded.
    pub open spec fn confined(self, bounds: WorldBounds) -> Player {
        let floor = Self::floor_line(bounds);
        let stopped = self.position.y > floor;
        Player {
            position: Vector2 {
                x: spec_clamp(
                    self.position.x,
                    CIRCLE_RADIUS,
                    sat_sub(bounds.width, CIRCLE_RADIUS),
                ),
                y: if stopped {
                    floor
                } else {
                    self.position.y
                },
            },
            velocity: Vector2 {
                x: self.velocity.x,
                y: if stopped {
                    0
                } else {
                    self.velocity.y
                },
            },
            grounded: stopped,
            ..self
        }
    }

    /// After one rectangle has been tested and, on a hit, resolved. Landing
    /// on top grounds the player; hitting the underside ends a jump that is
    /// being held; either stops the vertical motion. A hit from the side
    /// stops the horizontal motion.
    pub open spec fn collided(self, rect: Rect, dt: i64) -> Player {
        let hit = self.circle().contact(rect, dt);
        let position = self.circle().pushed_out(rect, hit);
        match hit {
            Contact::Clear => self,
            Contact::Top => Player {
                position,
                velocity: Vector2 { x: self.velocity.x, y: 0 },
                grounded: true,
                ..self
            },
            Contact::Bottom => Player {
                position,
                velocity: Vector2 { x: self.velocity.x, y: 0 },
                jump_time: if self.policy == JumpPolicy::VariableHeight {
                    0
                } else {
                    self.jump_time
                },
                ..self
            },
            Contact::Left | Contact::Right => Player {
                position,
                velocity: Vector2 { x: 0, y: self.velocity.y },
                ..self
            },
        }
    }

    /// After every platform has been tested in order, each against the state
    /// that the ones before it left.
    pub open spec fn after_platforms(self, platforms: Seq<Plat>, dt: i64) -> Player
        decreases platforms.len(),
    {
        if platforms.len() == 0 {
            self
        } else {
            self.after_platforms(platforms.drop_last(), dt).collided(platforms.last().rect(), dt)
        }
    }

    /// The state after a whole frame.
    pub open spec fn after_update(
        self,
        dt: i64,
        keys: Keys,
        bounds: WorldBounds,
        platforms: Seq<Plat>,
    ) -> Player {
        self.steered(dt, keys).jumped(dt, keys).moved(dt).confined(bounds).after_platforms(
            platforms,
            dt,
        )
    }

    /// The state after a run of frames in an unchanging world.
    pub open spec fn after_frames(
        self,
        frames: Seq<Frame>,
        bounds: WorldBounds,
        platforms: Seq<Plat>,
    ) -> Player
        decreases frames.len(),
    {
        if frames.len() == 0 {
            self
        } else {
            self.after_frames(frames.drop_last(), bounds, platforms).after_update(
                frames.last().dt,
                frames.last().keys,
                bounds,
                platforms,
            )
        }
    }

    // ---- the stages, executed ----

    /// Applies the direction keys to the horizontal velocity.
    pub fn steer(&mut self, dt: i64, keys: Keys)
        ensures
            *final(self) == old(self).steered(dt, keys),
            -X_MOVEMENT_SPEED <= final(self).velocity.x <= X_MOVEMENT_SPEED,
    {
        let rate: i64 = if self.grounded {
            X_RESPONSIVENESS
        } else {
            X_RESPONSIVENESS_AIR
        };
        let brake: i64 = fx_mul(X_RESPONSIVENESS, dt);
        let vx: i64 = self.velocity.x;
        let pushed: i64 = if keys.right && !keys.left {
            sat_add(vx, fx_mul(rate, dt))
        } else if keys.left && !keys.right {
            sat_sub(vx, fx_mul(rate, dt))
        } else if sat_abs(vx) > brake {
            if vx > 0 {
                sat_sub(vx, brake)
            } else {
                sat_add(vx, brake)
            }
        } else {
            0
        };
        self.velocity.x = clamp(pushed, sat_neg(X_MOVEMENT_SPEED), X_MOVEMENT_SPEED);
    }

    /// Applies the jump key and gravity to the vertical velocity.
    pub fn jump(&mut self, dt: i64, keys: Keys)
        ensures
            *final(self) == old(self).jumped(dt, keys),
    {
        match self.policy {
            JumpPolicy::VariableHeight => {
                if keys.jump {
                    if self.grounded {
                        self.velocity.y = sat_neg(JUMP_SPEED);
                        self.jump_time = JUMP_WINDOW;
                    } else if self.jump_time != 0 {
                        self.jump_time = sat_sub(self.jump_time, dt);
                    }
                } else {
                    self.jump_time = 0;
                }
                if self.jump_time <= 0 {
                    let fall: i64 = sat_add(dt, sat_abs(self.jump_time));
                    self.velocity.y = sat_add(self.velocity.y, fx_mul(GRAVITY, fall));
                    self.jump_time = 0;
                }
            },
            JumpPolicy::CooldownGuard => {
                if self.grounded {
                    self.jump_time = 0;
                } else {
                    self.jump_time = sat_add(self.jump_time, dt);
                }
                if keys.jump && self.jump_time <= JUMP_COOLDOWN {
                    self.velocity.y = sat_neg(JUMP_SPEED);
                }
                self.velocity.y = sat_add(self.velocity.y, fx_mul(GRAVITY, dt));
            },
        }
    }

    /// Advances the position by the velocity.
    pub fn integrate(&mut self, dt: i64)
        ensures
            *final(self) == old(self).moved(dt),
    {
        self.position = self.position.add(&self.velocity.mul(dt));
    }

    /// Keeps the player between the side walls and above the floor.
    pub fn confine(&mut self, bounds: WorldBounds)
        ensures
            *final(self) == old(self).confined(bounds),
            bounds.width >= 2 * CIRCLE_RADIUS ==> CIRCLE_RADIUS <= final(self).position.x
                <= bounds.width - CIRCLE_RADIUS,
            final(self).position.y <= Self::floor_line(bounds),
            final(self).grounded <==> old(self).position.y > Self::floor_line(bounds),
    {
        self.grounded = false;
        let floor: i64 = sat_sub(bounds.height, CIRCLE_RADIUS);
        let cut = self.position.clamp(
            CIRCLE_RADIUS,
            sat_sub(bounds.width, CIRCLE_RADIUS),
            i64::MIN,
            floor,
        );
        if cut.y != 0 {
            self.velocity.y = 0;
            if self.position.y == floor {
                self.grounded = true;
            }
        }
    }

    /// Tests one rectangle and resolves a hit. Returns what was found.
    pub fn collide(&mut self, rect: &Rect, dt: i64) -> (hit: Contact)
        ensures
            hit == old(self).circle().contact(*rect, dt),
            *final(self) == old(self).collided(*rect, dt),
            hit == Contact::Clear ==> *final(self) == *old(self),
            hit == Contact::Top ==> final(self).grounded && final(self).velocity.y == 0,
            ({
                let before = old(self).circle();
                before.within_x(*rect) && before.within_y(*rect) && before.separation(*rect).y < 0
                    && before.penetration(*rect).y < before.penetration(*rect).x ==> hit
                    == Contact::Top
            }),
            ({
                let before = old(self).circle();
                let after = final(self).circle();
                before.bounded() && rect.bounded() && hit != Contact::Clear ==> !(after.within_x(
                    *rect,
                ) && after.within_y(*rect))
            }),
    {
        proof {
            if self.circle().bounded() && rect.bounded() {
                lemma_player_hit_leaves_no_penetration(*self, *rect, dt);
            }
        }
        let body = self.circle();
        let hit = body.detect(rect, dt);
        let position = body.push_out(rect, hit);
        match hit {
            Contact::Clear => {},
            Contact::Top => {
                self.grounded = true;
                self.position = position;
                self.velocity.y = 0;
            },
            Contact::Bottom => {
                if self.policy == JumpPolicy::VariableHeight {
                    self.jump_time = 0;
                }
                self.position = position;
                self.velocity.y = 0;
            },
            Contact::Left | Contact::Right => {
                self.position = position;
                self.velocity.x = 0;
            },
        }
        hit
    }

    /// Tests every platform in order. With no platform nothing changes.
    pub fn resolve(&mut self, platforms: &[Plat], dt: i64)
        ensures
            *final(self) == old(self).after_platforms(platforms@, dt),
            platforms@.len() == 0 ==> *final(self) == *old(self),
    {
        let ghost start = *self;
        let mut i: usize = 0;
        while i < platforms.len()
            invariant
                i <= platforms@.len(),
                *self == start.after_platforms(platforms@.take(i as int), dt),
            decreases platforms@.len() - i,
        {
            proof {
                let next = platforms@.take(i + 1);
                assert(next.drop_last() =~= platforms@.take(i as int));
                assert(next.last() == platforms@[i as int]);
            }
            let rect = platforms[i].rect();
            self.collide(&rect, dt);
            i += 1;
        }
        proof {
            assert(platforms@.take(i as int) =~= platforms@);
        }
    }

    /// Plays a run of frames against an unchanging world.
    pub fn run(&mut self, frames: &[Frame], bounds: WorldBounds, platforms: &[Plat])
        ensures
            *final(self) == old(self).after_frames(frames@, bounds, platforms@),
            frames@.len() == 0 ==> *final(self) == *old(self),
            frames@.len() > 0 && bounds.width >= 2 * CIRCLE_RADIUS ==> between_walls(
                final(self).position.x,
                CIRCLE_RADIUS,
                bounds,
            ) || flush_with_one(final(self).position.x, CIRCLE_RADIUS, platforms@),
    {
        proof {
            if frames@.len() > 0 && bounds.width >= 2 * CIRCLE_RADIUS {
                lemma_run_ends_between_walls_or_flush(*self, frames@, bounds, platforms@);
            }
        }
        let ghost start = *self;
        let mut i: usize = 0;
        while i < frames.len()
            invariant
                i <= frames@.len(),
                *self == start.after_frames(frames@.take(i as int), bounds, platforms@),
            decreases frames@.len() - i,
        {
            proof {
                let next = frames@.take(i + 1);
                assert(next.drop_last() =~= frames@.take(i as int));
                assert(next.last() == frames@[i as int]);
            }
            let frame = frames[i];
            self.update(frame.dt, frame.keys, bounds, platforms);
            i += 1;
        }
        proof {
            assert(frames@.take(i as int) =~= frames@);
        }
    }

    /// One frame: steering, jumping and gravity, motion, the world's edges,
    /// then the platforms in order.
    pub fn update(&mut self, dt: i64, keys: Keys, bounds: WorldBounds, platforms: &[Plat])
        ensures
            *final(self) == old(self).after_update(dt, keys, bounds, platforms@),
            final(self).scroll == old(self).scroll,
            final(self).policy == old(self).policy,
            -X_MOVEMENT_SPEED <= final(self).velocity.x <= X_MOVEMENT_SPEED,
            final(self).grounded ==> final(self).velocity.y == 0,
            bounds.width >= 2 * CIRCLE_RADIUS ==> between_walls(
                final(self).position.x,
                CIRCLE_RADIUS,
                bounds,
            ) || flush_with_one(final(self).position.x, CIRCLE_RADIUS, platforms@),
            platforms@.len() == 0 ==> *final(self) == old(self).steered(dt, keys).jumped(
                dt,
                keys,
            ).moved(dt).confined(bounds),
    {
        proof {
            lemma_frame_caps_speed(*self, dt, keys, bounds, platforms@);
            lemma_frame_grounds_at_rest(*self, dt, keys, bounds, platforms@);
            if bounds.width >= 2 * CIRCLE_RADIUS {
                lemma_frame_ends_between_walls_or_flush(*self, dt, keys, bounds, platforms@);
            }
            lemma_platforms_keep_policy(
                self.steered(dt, keys).jumped(dt, keys).moved(dt).confined(bounds),
                platforms@,
                dt,
            );
        }
        self.steer(dt, keys);
        self.jump(dt, keys);
        self.integrate(dt);
        self.confine(bounds);
        self.resolve(platforms, dt);
    }
}

} // verus!

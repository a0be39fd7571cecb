//! What holds of the bodies and of the camera on every input.

use vstd::prelude::*;
use crate::collision::{lemma_push_out_separates, Contact, MovingCircle};
use crate::enemy::{Enemy, DIMENSION};
use crate::fixed::{lemma_fx_mul_sign, spec_fx_mul, spec_sat_add, spec_sat_sub};
use crate::player::{
    steered_velocity, Frame, Keys, Player, CIRCLE_RADIUS, X_MOVEMENT_SPEED, X_RESPONSIVENESS,
    X_RESPONSIVENESS_AIR,
};
use crate::screen::Screen;
use crate::world::{Plat, Rect, WorldBounds};

verus! {

/// A centre at `x` keeps a body of the given radius between the side walls.
pub open spec fn between_walls(x: i64, radius: i64, bounds: WorldBounds) -> bool {
    radius <= x <= bounds.width - radius
}

/// Where a body of the given radius is put on a hit from the left.
pub open spec fn left_stop(rect: Rect, radius: i64) -> i64 {
    spec_sat_sub(spec_sat_sub(rect.center.x, rect.half.x), radius)
}

/// Where a body of the given radius is put on a hit from the right.
pub open spec fn right_stop(rect: Rect, radius: i64) -> i64 {
    spec_sat_add(spec_sat_add(rect.center.x, rect.half.x), radius)
}

/// A centre at `x` puts a body flush against one side of the platform.
pub open spec fn flush_with(x: i64, radius: i64, plat: Plat) -> bool {
    x == left_stop(plat.rect(), radius) || x == right_stop(plat.rect(), radius)
}

/// A centre at `x` puts a body flush against a side of some platform.
pub open spec fn flush_with_one(x: i64, radius: i64, platforms: Seq<Plat>) -> bool {
    exists|i: int| 0 <= i < platforms.len() && flush_with(x, radius, #[trigger] platforms[i])
}

/// Both places where the platform can put a body lie between the walls.
pub open spec fn clear_of_walls(plat: Plat, radius: i64, bounds: WorldBounds) -> bool {
    &&& between_walls(left_stop(plat.rect(), radius), radius, bounds)
    &&& between_walls(right_stop(plat.rect(), radius), radius, bounds)
}

/// A player who overlaps a rectangle, stands above its centre and is less
/// deep in it vertically than horizontally ends the test grounded, at rest
/// vertically and with their lower edge on the rectangle's top, whatever
/// their velocity was.
pub proof fn lemma_player_lands(player: Player, rect: Rect, dt: i64)
    requires
        player.circle().within_x(rect),
        player.circle().within_y(rect),
        player.circle().separation(rect).y < 0,
        player.circle().penetration(rect).y < player.circle().penetration(rect).x,
    ensures
        player.collided(rect, dt).grounded,
        player.collided(rect, dt).velocity.y == 0,
        player.collided(rect, dt).position == player.circle().pushed_out(rect, Contact::Top),
{
}

/// A hit leaves the player with no penetration on the axis it was resolved
/// on, and no longer overlapping the rectangle.
pub proof fn lemma_player_hit_leaves_no_penetration(player: Player, rect: Rect, dt: i64)
    requires
        player.circle().bounded(),
        rect.bounded(),
    ensures
        ({
            let hit = player.circle().contact(rect, dt);
            let after = player.collided(rect, dt).circle();
            &&& hit == Contact::Top || hit == Contact::Bottom ==> after.penetration(rect).y == 0
            &&& hit == Contact::Left || hit == Contact::Right ==> after.penetration(rect).x == 0
            &&& hit != Contact::Clear ==> !(after.within_x(rect) && after.within_y(rect))
        }),
{
    lemma_push_out_separates(player.circle(), rect, dt);
    let hit = player.circle().contact(rect, dt);
    let pushed = MovingCircle {
        position: player.circle().pushed_out(rect, hit),
        ..player.circle()
    };
    let after = player.collided(rect, dt).circle();
    assert(after.position == pushed.position && after.radius == pushed.radius);
}

/// A whole frame against one platform ends with no penetration on the axis
/// on which the platform was hit, wherever the player started and however
/// fast they moved, as long as they arrive within range of the arithmetic.
pub proof fn lemma_frame_leaves_no_penetration(
    player: Player,
    dt: i64,
    keys: Keys,
    bounds: WorldBounds,
    plat: Plat,
)
    requires
        player.steered(dt, keys).jumped(dt, keys).moved(dt).confined(bounds).circle().bounded(),
        plat.rect().bounded(),
    ensures
        ({
            let arrived = player.steered(dt, keys).jumped(dt, keys).moved(dt).confined(bounds);
            let hit = arrived.circle().contact(plat.rect(), dt);
            let after = player.after_update(dt, keys, bounds, seq![plat]).circle();
            &&& hit == Contact::Top || hit == Contact::Bottom ==> after.penetration(
                plat.rect(),
            ).y == 0
            &&& hit == Contact::Left || hit == Contact::Right ==> after.penetration(
                plat.rect(),
            ).x == 0
            &&& hit != Contact::Clear ==> !(after.within_x(plat.rect()) && after.within_y(
                plat.rect(),
            ))
        }),
{
    let arrived = player.steered(dt, keys).jumped(dt, keys).moved(dt).confined(bounds);
    let one = seq![plat];
    assert(one.drop_last() =~= Seq::<Plat>::empty());
    assert(one.last() == plat);
    assert(arrived.after_platforms(one.drop_last(), dt) == arrived);
    assert(arrived.after_platforms(one, dt) == arrived.collided(plat.rect(), dt));
    lemma_player_hit_leaves_no_penetration(arrived, plat.rect(), dt);
}

/// The scroll offset is no part of the physics: a frame neither reads nor
/// writes it.
pub proof fn lemma_scroll_is_not_physics(
    player: Player,
    scroll: i64,
    dt: i64,
    keys: Keys,
    bounds: WorldBounds,
    platforms: Seq<Plat>,
)
    ensures
        (Player { scroll, ..player }).after_update(dt, keys, bounds, platforms) == (Player {
            scroll,
            ..player.after_update(dt, keys, bounds, platforms)
        }),
{
    let arrived = player.steered(dt, keys).jumped(dt, keys).moved(dt).confined(bounds);
    let shifted = (Player { scroll, ..player }).steered(dt, keys).jumped(dt, keys).moved(
        dt,
    ).confined(bounds);
    assert(shifted == (Player { scroll, ..arrived }));
    lemma_platforms_ignore_scroll(arrived, scroll, platforms, dt);
}

/// The same of the platforms alone.
pub proof fn lemma_platforms_ignore_scroll(
    player: Player,
    scroll: i64,
    platforms: Seq<Plat>,
    dt: i64,
)
    ensures
        (Player { scroll, ..player }).after_platforms(platforms, dt) == (Player {
            scroll,
            ..player.after_platforms(platforms, dt)
        }),
    decreases platforms.len(),
{
    if platforms.len() > 0 {
        lemma_platforms_ignore_scroll(player, scroll, platforms.drop_last(), dt);
    }
}

/// The platforms never speed the player up sideways: they leave the
/// horizontal velocity alone or stop it.
pub proof fn lemma_platforms_keep_or_stop(player: Player, platforms: Seq<Plat>, dt: i64)
    ensures
        ({
            let vx = player.after_platforms(platforms, dt).velocity.x;
            vx == player.velocity.x || vx == 0
        }),
    decreases platforms.len(),
{
    if platforms.len() > 0 {
        lemma_platforms_keep_or_stop(player, platforms.drop_last(), dt);
    }
}

/// The player landed on the top of one of the platforms: one of them, met in
/// its turn, was hit from above.
pub open spec fn landed_on_one(player: Player, platforms: Seq<Plat>, dt: i64) -> bool {
    exists|i: int|
        0 <= i < platforms.len() && (#[trigger] player.after_platforms(
            platforms.take(i),
            dt,
        )).circle().contact(platforms[i].rect(), dt) == Contact::Top
}

/// The platforms never take the ground away: the player is grounded after
/// them exactly if they were before or landed on one.
pub proof fn lemma_grounded_means_landed(player: Player, platforms: Seq<Plat>, dt: i64)
    ensures
        player.after_platforms(platforms, dt).grounded <==> player.grounded || landed_on_one(
            player,
            platforms,
            dt,
        ),
    decreases platforms.len(),
{
    if platforms.len() == 0 {
        assert(!landed_on_one(player, platforms, dt));
    } else {
        let rest = platforms.drop_last();
        let last = platforms.len() - 1;
        lemma_grounded_means_landed(player, rest, dt);
        assert(platforms.take(last) =~= rest);
        assert forall|i: int| 0 <= i < last implies #[trigger] rest.take(i) == platforms.take(
            i,
        ) by {
            assert(rest.take(i) =~= platforms.take(i));
        }
        let before = player.after_platforms(rest, dt);
        let hit = before.circle().contact(platforms[last].rect(), dt);
        if landed_on_one(player, rest, dt) {
            let i = choose|i: int|
                0 <= i < rest.len() && (#[trigger] player.after_platforms(
                    rest.take(i),
                    dt,
                )).circle().contact(rest[i].rect(), dt) == Contact::Top;
            assert(rest.take(i) == platforms.take(i));
            assert(player.after_platforms(platforms.take(i), dt).circle().contact(
                platforms[i].rect(),
                dt,
            ) == Contact::Top);
        }
        if hit == Contact::Top {
            assert(player.after_platforms(platforms.take(last), dt).circle().contact(
                platforms[last].rect(),
                dt,
            ) == Contact::Top);
        }
        if landed_on_one(player, platforms, dt) {
            let i = choose|i: int|
                0 <= i < platforms.len() && (#[trigger] player.after_platforms(
                    platforms.take(i),
                    dt,
                )).circle().contact(platforms[i].rect(), dt) == Contact::Top;
            if i < last {
                assert(rest.take(i) == platforms.take(i));
                assert(player.after_platforms(rest.take(i), dt).circle().contact(
                    rest[i].rect(),
                    dt,
                ) == Contact::Top);
            }
        }
    }
}

/// A player who is grounded and at rest vertically before the platforms is
/// still at rest vertically after them if grounded then.
pub proof fn lemma_platforms_keep_rest(player: Player, platforms: Seq<Plat>, dt: i64)
    requires
        player.grounded ==> player.velocity.y == 0,
    ensures
        player.after_platforms(platforms, dt).grounded ==> player.after_platforms(
            platforms,
            dt,
        ).velocity.y == 0,
    decreases platforms.len(),
{
    if platforms.len() > 0 {
        lemma_platforms_keep_rest(player, platforms.drop_last(), dt);
    }
}

/// After any frame a grounded player has no vertical velocity, and the
/// player is grounded exactly if the floor stopped their fall or they landed
/// on a platform.
pub proof fn lemma_frame_grounds_at_rest(
    player: Player,
    dt: i64,
    keys: Keys,
    bounds: WorldBounds,
    platforms: Seq<Plat>,
)
    ensures
        ({
            let moved = player.steered(dt, keys).jumped(dt, keys).moved(dt);
            let after = player.after_update(dt, keys, bounds, platforms);
            &&& after.grounded ==> after.velocity.y == 0
            &&& after.grounded <==> moved.position.y > Player::floor_line(bounds) || landed_on_one(
                moved.confined(bounds),
                platforms,
                dt,
            )
        }),
{
    let arrived = player.steered(dt, keys).jumped(dt, keys).moved(dt).confined(bounds);
    lemma_platforms_keep_rest(arrived, platforms, dt);
    lemma_grounded_means_landed(arrived, platforms, dt);
}

/// The platforms leave the jump policy and the scroll offset alone.
pub proof fn lemma_platforms_keep_policy(player: Player, platforms: Seq<Plat>, dt: i64)
    ensures
        player.after_platforms(platforms, dt).policy == player.policy,
        player.after_platforms(platforms, dt).scroll == player.scroll,
    decreases platforms.len(),
{
    if platforms.len() > 0 {
        lemma_platforms_keep_policy(player, platforms.drop_last(), dt);
    }
}

/// After any frame the horizontal speed is at most the movement speed.
pub proof fn lemma_frame_caps_speed(
    player: Player,
    dt: i64,
    keys: Keys,
    bounds: WorldBounds,
    platforms: Seq<Plat>,
)
    ensures
        -X_MOVEMENT_SPEED <= player.after_update(dt, keys, bounds, platforms).velocity.x
            <= X_MOVEMENT_SPEED,
{
    let arrived = player.steered(dt, keys).jumped(dt, keys).moved(dt).confined(bounds);
    lemma_platforms_keep_or_stop(arrived, platforms, dt);
}

/// With no platform the resolver changes nothing, and a frame is steering,
/// jumping and gravity, motion and the world's edges alone.
pub proof fn lemma_no_platforms_no_change(player: Player, dt: i64, keys: Keys, bounds: WorldBounds)
    ensures
        player.after_platforms(Seq::empty(), dt) == player,
        player.after_update(dt, keys, bounds, Seq::empty()) == player.steered(dt, keys).jumped(
            dt,
            keys,
        ).moved(dt).confined(bounds),
{
}

/// The platforms either leave a player's horizontal position alone or put
/// the player flush against a side of one of them.
pub proof fn lemma_platforms_move_to_a_side(player: Player, platforms: Seq<Plat>, dt: i64)
    ensures
        ({
            let x = player.after_platforms(platforms, dt).position.x;
            x == player.position.x || flush_with_one(x, CIRCLE_RADIUS, platforms)
        }),
    decreases platforms.len(),
{
    if platforms.len() > 0 {
        let rest = platforms.drop_last();
        lemma_platforms_move_to_a_side(player, rest, dt);
        let before = player.after_platforms(rest, dt);
        let after = before.collided(platforms.last().rect(), dt);
        assert(after == player.after_platforms(platforms, dt));
        let x = after.position.x;
        if x == before.position.x {
            if flush_with_one(x, CIRCLE_RADIUS, rest) {
                let i = choose|i: int|
                    0 <= i < rest.len() && flush_with(x, CIRCLE_RADIUS, #[trigger] rest[i]);
                assert(flush_with(x, CIRCLE_RADIUS, platforms[i]));
            }
        } else {
            assert(flush_with(x, CIRCLE_RADIUS, platforms[platforms.len() - 1]));
        }
    }
}

/// After any frame in a world at least as wide as the player, the player is
/// between the side walls or flush against a side of a platform.
pub proof fn lemma_frame_ends_between_walls_or_flush(
    player: Player,
    dt: i64,
    keys: Keys,
    bounds: WorldBounds,
    platforms: Seq<Plat>,
)
    requires
        bounds.width >= 2 * CIRCLE_RADIUS,
    ensures
        ({
            let x = player.after_update(dt, keys, bounds, platforms).position.x;
            between_walls(x, CIRCLE_RADIUS, bounds) || flush_with_one(x, CIRCLE_RADIUS, platforms)
        }),
{
    let confined = player.steered(dt, keys).jumped(dt, keys).moved(dt).confined(bounds);
    assert(between_walls(confined.position.x, CIRCLE_RADIUS, bounds));
    lemma_platforms_move_to_a_side(confined, platforms, dt);
}

/// The same after any number of frames, one at least, whatever their lengths
/// and keys and whatever the player's state at the start.
pub proof fn lemma_run_ends_between_walls_or_flush(
    player: Player,
    frames: Seq<Frame>,
    bounds: WorldBounds,
    platforms: Seq<Plat>,
)
    requires
        frames.len() > 0,
        bounds.width >= 2 * CIRCLE_RADIUS,
    ensures
        ({
            let x = player.after_frames(frames, bounds, platforms).position.x;
            between_walls(x, CIRCLE_RADIUS, bounds) || flush_with_one(x, CIRCLE_RADIUS, platforms)
        }),
{
    let before = player.after_frames(frames.drop_last(), bounds, platforms);
    lemma_frame_ends_between_walls_or_flush(
        before,
        frames.last().dt,
        frames.last().keys,
        bounds,
        platforms,
    );
}

/// In a world at least as wide as the player, whose platforms all stand
/// clear of the walls, the player is between the side walls after any frame.
pub proof fn lemma_frame_ends_between_walls(
    player: Player,
    dt: i64,
    keys: Keys,
    bounds: WorldBounds,
    platforms: Seq<Plat>,
)
    requires
        bounds.width >= 2 * CIRCLE_RADIUS,
        forall|i: int|
            0 <= i < platforms.len() ==> clear_of_walls(
                #[trigger] platforms[i],
                CIRCLE_RADIUS,
                bounds,
            ),
    ensures
        between_walls(
            player.after_update(dt, keys, bounds, platforms).position.x,
            CIRCLE_RADIUS,
            bounds,
        ),
{
    lemma_frame_ends_between_walls_or_flush(player, dt, keys, bounds, platforms);
}

/// And so after any number of frames, one at least.
pub proof fn lemma_run_ends_between_walls(
    player: Player,
    frames: Seq<Frame>,
    bounds: WorldBounds,
    platforms: Seq<Plat>,
)
    requires
        frames.len() > 0,
        bounds.width >= 2 * CIRCLE_RADIUS,
        forall|i: int|
            0 <= i < platforms.len() ==> clear_of_walls(
                #[trigger] platforms[i],
                CIRCLE_RADIUS,
                bounds,
            ),
    ensures
        between_walls(
            player.after_frames(frames, bounds, platforms).position.x,
            CIRCLE_RADIUS,
            bounds,
        ),
{
    let before = player.after_frames(frames.drop_last(), bounds, platforms);
    lemma_frame_ends_between_walls(
        before,
        frames.last().dt,
        frames.last().keys,
        bounds,
        platforms,
    );
}

/// An enemy that overlaps a rectangle, stands above its centre and is less
/// deep in it vertically than horizontally ends the test grounded, at rest
/// vertically and with its lower edge on the rectangle's top.
pub proof fn lemma_enemy_lands(enemy: Enemy, rect: Rect, dt: i64)
    requires
        enemy.circle().within_x(rect),
        enemy.circle().within_y(rect),
        enemy.circle().separation(rect).y < 0,
        enemy.circle().penetration(rect).y < enemy.circle().penetration(rect).x,
    ensures
        enemy.collided(rect, dt).grounded,
        enemy.collided(rect, dt).velocity.y == 0,
        enemy.collided(rect, dt).position == enemy.circle().pushed_out(rect, Contact::Top),
{
}

/// A hit leaves the enemy with no penetration on the axis it was resolved
/// on, and no longer overlapping the rectangle.
pub proof fn lemma_enemy_hit_leaves_no_penetration(enemy: Enemy, rect: Rect, dt: i64)
    requires
        enemy.circle().bounded(),
        rect.bounded(),
    ensures
        ({
            let hit = enemy.circle().contact(rect, dt);
            let after = enemy.collided(rect, dt).circle();
            &&& hit == Contact::Top || hit == Contact::Bottom ==> after.penetration(rect).y == 0
            &&& hit == Contact::Left || hit == Contact::Right ==> after.penetration(rect).x == 0
            &&& hit != Contact::Clear ==> !(after.within_x(rect) && after.within_y(rect))
        }),
{
    lemma_push_out_separates(enemy.circle(), rect, dt);
    let hit = enemy.circle().contact(rect, dt);
    let pushed = MovingCircle { position: enemy.circle().pushed_out(rect, hit), ..enemy.circle() };
    let after = enemy.collided(rect, dt).circle();
    assert(after.position == pushed.position && after.radius == pushed.radius);
}

/// The platforms either leave an enemy's horizontal position alone or put
/// the enemy flush against a side of one of them.
pub proof fn lemma_enemy_platforms_move_to_a_side(enemy: Enemy, platforms: Seq<Plat>, dt: i64)
    ensures
        ({
            let x = enemy.after_platforms(platforms, dt).position.x;
            x == enemy.position.x || flush_with_one(x, DIMENSION, platforms)
        }),
    decreases platforms.len(),
{
    if platforms.len() > 0 {
        let rest = platforms.drop_last();
        lemma_enemy_platforms_move_to_a_side(enemy, rest, dt);
        let before = enemy.after_platforms(rest, dt);
        let after = before.collided(platforms.last().rect(), dt);
        assert(after == enemy.after_platforms(platforms, dt));
        let x = after.position.x;
        if x == before.position.x {
            if flush_with_one(x, DIMENSION, rest) {
                let i = choose|i: int|
                    0 <= i < rest.len() && flush_with(x, DIMENSION, #[trigger] rest[i]);
                assert(flush_with(x, DIMENSION, platforms[i]));
            }
        } else {
            assert(flush_with(x, DIMENSION, platforms[platforms.len() - 1]));
        }
    }
}

/// After any frame in a world at least as wide as the enemy, the enemy is
/// between the side walls, or flush against a side of a platform or of the
/// player.
pub proof fn lemma_enemy_frame_ends_between_walls_or_flush(
    enemy: Enemy,
    dt: i64,
    bounds: WorldBounds,
    platforms: Seq<Plat>,
    player: Player,
)
    requires
        bounds.width >= 2 * DIMENSION,
    ensures
        ({
            let x = enemy.after_update(dt, bounds, platforms, player).position.x;
            ||| between_walls(x, DIMENSION, bounds)
            ||| flush_with_one(x, DIMENSION, platforms)
            ||| x == left_stop(player.rect(), DIMENSION)
            ||| x == right_stop(player.rect(), DIMENSION)
        }),
{
    let confined = enemy.launched(dt).moved(dt).confined(bounds);
    assert(between_walls(confined.position.x, DIMENSION, bounds));
    lemma_enemy_platforms_move_to_a_side(confined, platforms, dt);
}

/// With no platform, and a player out of reach, a frame of the enemy is the
/// bounce, gravity, motion and the world's edges alone.
pub proof fn lemma_enemy_alone(enemy: Enemy, dt: i64, bounds: WorldBounds, player: Player)
    requires
        !enemy.launched(dt).moved(dt).confined(bounds).circle().collides(player.rect(), dt),
    ensures
        enemy.after_platforms(Seq::empty(), dt) == enemy,
        enemy.after_update(dt, bounds, Seq::empty(), player) == enemy.launched(dt).moved(
            dt,
        ).confined(bounds),
{
}

/// Steering never leaves the horizontal speed above the movement speed.
pub proof fn lemma_speed_is_capped(vx: i64, grounded: bool, dt: i64, keys: Keys)
    ensures
        -X_MOVEMENT_SPEED <= steered_velocity(vx, grounded, dt, keys) <= X_MOVEMENT_SPEED,
{
}

/// With only "right" held for a frame of non-negative length, a player who
/// is not yet at the movement speed gains what the acceleration gives in
/// that time, but ends at the movement speed exactly where that would pass
/// it.
pub proof fn lemma_holding_right_reaches_top_speed(vx: i64, grounded: bool, dt: i64, keys: Keys)
    requires
        keys.right,
        !keys.left,
        dt >= 0,
        -X_MOVEMENT_SPEED <= vx <= X_MOVEMENT_SPEED,
    ensures
        ({
            let rate = if grounded {
                X_RESPONSIVENESS
            } else {
                X_RESPONSIVENESS_AIR
            };
            let gain = spec_fx_mul(rate, dt);
            let after = steered_velocity(vx, grounded, dt, keys);
            &&& gain >= 0
            &&& vx + gain >= X_MOVEMENT_SPEED ==> after == X_MOVEMENT_SPEED
            &&& vx + gain < X_MOVEMENT_SPEED ==> after == vx + gain
        }),
{
    lemma_fx_mul_sign(X_RESPONSIVENESS, dt);
    lemma_fx_mul_sign(X_RESPONSIVENESS_AIR, dt);
}

/// The horizontal velocity after steering through a run of frames, on the
/// ground throughout or in the air throughout.
pub open spec fn steered_through(vx: i64, grounded: bool, frames: Seq<Frame>) -> i64
    decreases frames.len(),
{
    if frames.len() == 0 {
        vx
    } else {
        steered_velocity(
            steered_through(vx, grounded, frames.drop_last()),
            grounded,
            frames.last().dt,
            frames.last().keys,
        )
    }
}

/// What the acceleration gives over a run of frames: the sum of the gains of
/// the single frames.
pub open spec fn total_gain(grounded: bool, frames: Seq<Frame>) -> int
    decreases frames.len(),
{
    if frames.len() == 0 {
        0
    } else {
        let rate = if grounded {
            X_RESPONSIVENESS
        } else {
            X_RESPONSIVENESS_AIR
        };
        total_gain(grounded, frames.drop_last()) + spec_fx_mul(rate, frames.last().dt)
    }
}

/// With only "right" held through frames of non-negative length, a player
/// who starts no faster than the movement speed, and not leftward, ends at
/// the starting speed plus the total gain, or at the movement speed exactly
/// where that would pass it. How the time is cut into frames matters only
/// through the total.
pub proof fn lemma_holding_right_through_frames(vx: i64, grounded: bool, frames: Seq<Frame>)
    requires
        0 <= vx <= X_MOVEMENT_SPEED,
        forall|i: int|
            0 <= i < frames.len() ==> {
                let f = #[trigger] frames[i];
                f.keys.right && !f.keys.left && f.dt >= 0
            },
    ensures
        total_gain(grounded, frames) >= 0,
        steered_through(vx, grounded, frames) == if vx + total_gain(grounded, frames)
            >= X_MOVEMENT_SPEED {
            X_MOVEMENT_SPEED as int
        } else {
            vx + total_gain(grounded, frames)
        },
    decreases frames.len(),
{
    if frames.len() > 0 {
        let rest = frames.drop_last();
        assert forall|i: int| 0 <= i < rest.len() implies {
            let f = #[trigger] rest[i];
            f.keys.right && !f.keys.left && f.dt >= 0
        } by {
            assert(rest[i] == frames[i]);
        }
        lemma_holding_right_through_frames(vx, grounded, rest);
        let f = frames[frames.len() - 1];
        assert(f == frames.last());
        lemma_fx_mul_sign(X_RESPONSIVENESS, f.dt);
        lemma_fx_mul_sign(X_RESPONSIVENESS_AIR, f.dt);
    }
}

/// While the offset is not positive and the player shows on or under the
/// trigger line, the offset stays as it is.
pub proof fn lemma_scroll_rests(screen: Screen, adjusted_y: i64, bounds: WorldBounds)
    requires
        screen.scroll_pos <= 0,
        adjusted_y >= Screen::target_line(bounds),
    ensures
        screen.next_scroll(adjusted_y, bounds) == screen.scroll_pos,
{
    lemma_fx_mul_sign(screen.gain, 0);
}

/// While the player shows on or above the trigger line, a camera with a
/// non-negative gain never lowers the offset.
pub proof fn lemma_scroll_rises(screen: Screen, adjusted_y: i64, bounds: WorldBounds)
    requires
        screen.gain >= 0,
        adjusted_y <= Screen::target_line(bounds),
    ensures
        screen.next_scroll(adjusted_y, bounds) >= screen.scroll_pos,
{
    let distance = spec_sat_sub(Screen::target_line(bounds), adjusted_y);
    lemma_fx_mul_sign(screen.gain, distance);
}

/// Where the player shows in frame `i` of a run: their world height plus the
/// offset that the frames before left.
pub open spec fn shown_height(screen: Screen, heights: Seq<i64>, bounds: WorldBounds, i: int) -> i64
    recommends
        0 <= i < heights.len(),
{
    spec_sat_add(heights[i], screen.followed(heights.take(i), bounds).scroll_pos)
}

/// Through any run of frames in each of which the player shows on or above
/// the trigger line, a camera with a non-negative gain never lowers the
/// offset: it ends no lower than it started.
pub proof fn lemma_scroll_never_drops(screen: Screen, heights: Seq<i64>, bounds: WorldBounds)
    requires
        screen.gain >= 0,
        forall|i: int|
            0 <= i < heights.len() ==> #[trigger] shown_height(screen, heights, bounds, i)
                <= Screen::target_line(bounds),
    ensures
        screen.followed(heights, bounds).scroll_pos >= screen.scroll_pos,
        screen.followed(heights, bounds).gain == screen.gain,
    decreases heights.len(),
{
    if heights.len() > 0 {
        let rest = heights.drop_last();
        let last = heights.len() - 1;
        assert forall|i: int| 0 <= i < rest.len() implies #[trigger] shown_height(
            screen,
            rest,
            bounds,
            i,
        ) <= Screen::target_line(bounds) by {
            assert(rest.take(i) =~= heights.take(i));
            assert(shown_height(screen, heights, bounds, i) <= Screen::target_line(bounds));
        }
        lemma_scroll_never_drops(screen, rest, bounds);
        let before = screen.followed(rest, bounds);
        assert(heights.take(last) =~= rest);
        assert(shown_height(screen, heights, bounds, last) <= Screen::target_line(bounds));
        lemma_scroll_rises(before, spec_sat_add(heights.last(), before.scroll_pos), bounds);
    }
}

/// A camera that starts at rest stays at exactly zero through any run of
/// frames in which the player's world height is on or under the trigger
/// line.
pub proof fn lemma_scroll_stays_zero(screen: Screen, heights: Seq<i64>, bounds: WorldBounds)
    requires
        screen.scroll_pos == 0,
        forall|i: int| 0 <= i < heights.len() ==> #[trigger] heights[i] >= Screen::target_line(bounds),
    ensures
        screen.followed(heights, bounds).scroll_pos == 0,
        screen.followed(heights, bounds).gain == screen.gain,
    decreases heights.len(),
{
    if heights.len() > 0 {
        let rest = heights.drop_last();
        assert forall|i: int| 0 <= i < rest.len() implies #[trigger] rest[i] >= Screen::target_line(
            bounds,
        ) by {
            assert(rest[i] == heights[i]);
        }
        lemma_scroll_stays_zero(screen, rest, bounds);
        let before = screen.followed(rest, bounds);
        assert(heights.last() == heights[heights.len() - 1]);
        lemma_scroll_rests(before, spec_sat_add(heights.last(), before.scroll_pos), bounds);
    }
}

} // verus!

use key_finder::collision::Contact;
use key_finder::fixed::ONE;
use key_finder::player::{
    Frame, JumpPolicy, Keys, Player, CIRCLE_RADIUS, GRAVITY, JUMP_COOLDOWN, JUMP_SPEED,
    JUMP_WINDOW, X_MOVEMENT_SPEED, X_RESPONSIVENESS, X_RESPONSIVENESS_AIR,
};
use key_finder::vector::Vector2;
use key_finder::world::{Disc, Plat, Rect, WorldBounds};

const DT: i64 = 16_667;

fn surface() -> WorldBounds {
    WorldBounds { width: 800 * ONE, height: 500 * ONE }
}

fn idle() -> Keys {
    Keys { left: false, right: false, jump: false }
}

fn right() -> Keys {
    Keys { left: false, right: true, jump: false }
}

fn left() -> Keys {
    Keys { left: true, right: false, jump: false }
}

fn jump() -> Keys {
    Keys { left: false, right: false, jump: true }
}

fn ledge() -> Plat {
    Plat::new(200 * ONE, 487_500_000, 300 * ONE, 25 * ONE)
}

#[test]
fn the_constants_in_world_units() {
    assert_eq!(GRAVITY, 4000 * ONE);
    assert_eq!(X_MOVEMENT_SPEED, 500 * ONE);
    assert_eq!(X_RESPONSIVENESS, 3000 * ONE);
    assert_eq!(X_RESPONSIVENESS_AIR, 1500 * ONE);
    assert_eq!(JUMP_SPEED, 600 * ONE);
    assert_eq!(CIRCLE_RADIUS, 16 * ONE);
    assert_eq!(JUMP_WINDOW, 300_000);
    assert_eq!(JUMP_COOLDOWN, 200_000);
}

#[test]
fn a_new_player_hangs_in_mid_air() {
    let p = Player::new(surface());
    assert_eq!(p.position, Vector2::new(400 * ONE, 375 * ONE));
    assert_eq!(p.velocity, Vector2::zero());
    assert!(!p.grounded);
    assert_eq!(p.jump_time, 0);
    assert_eq!(p.scroll, 0);
    assert_eq!(p.policy, JumpPolicy::VariableHeight);
    assert_eq!(p.with_policy(JumpPolicy::CooldownGuard).policy, JumpPolicy::CooldownGuard);
}

#[test]
fn the_player_as_circle_square_and_picture() {
    let mut p = Player::new(surface());
    p.velocity = Vector2::new(1, 2);
    assert_eq!(p.circle().position, p.position);
    assert_eq!(p.circle().velocity, p.velocity);
    assert_eq!(p.circle().radius, 16 * ONE);
    assert_eq!(
        p.rect(),
        Rect { center: Vector2::new(400 * ONE, 375 * ONE), half: Vector2::new(16 * ONE, 16 * ONE) }
    );
    p.set_scroll(25 * ONE);
    assert_eq!(p.adjusted_y(), 400 * ONE);
    assert_eq!(p.disc(), Disc { x: 400 * ONE, y: 400 * ONE, radius: 16 * ONE });
    assert_eq!(p.position, Vector2::new(400 * ONE, 375 * ONE));
}

#[test]
fn a_falling_player_lands_on_the_floor() {
    let mut p = Player::new(surface());
    let level = [ledge()];
    p.update(DT, idle(), surface(), &level);
    assert_eq!(p.position, Vector2::new(400 * ONE, 376_111_155));
    assert_eq!(p.velocity, Vector2::new(0, 66_668_000));
    assert!(!p.grounded);
    for _ in 1..13 {
        p.update(DT, idle(), surface(), &level);
    }
    assert_eq!(p.position, Vector2::new(400 * ONE, 476_115_150));
    assert_eq!(p.velocity, Vector2::new(0, 866_684_000));
    assert!(!p.grounded);
    p.update(DT, idle(), surface(), &level);
    assert_eq!(p.position, Vector2::new(400 * ONE, 484 * ONE));
    assert_eq!(p.velocity, Vector2::zero());
    assert!(p.grounded);
    for _ in 14..120 {
        p.update(DT, idle(), surface(), &level);
        assert!(p.grounded);
        assert_eq!(p.velocity.y, 0);
        assert_eq!(p.position, Vector2::new(400 * ONE, 484 * ONE));
    }
}

#[test]
fn a_falling_player_lands_on_a_platform() {
    let mut p = Player::new(surface());
    p.position = Vector2::new(200 * ONE, 440 * ONE);
    let level = [ledge()];
    for _ in 0..5 {
        p.update(DT, idle(), surface(), &level);
    }
    assert_eq!(p.position, Vector2::new(200 * ONE, 456_667_331));
    assert_eq!(p.velocity, Vector2::new(0, 333_340_000));
    assert!(!p.grounded);
    for _ in 5..40 {
        p.update(DT, idle(), surface(), &level);
        assert_eq!(p.position, Vector2::new(200 * ONE, 459 * ONE));
        assert_eq!(p.velocity, Vector2::zero());
        assert!(p.grounded);
    }
}

#[test]
fn run_plays_the_frames_in_order() {
    let mut stepped = Player::new(surface());
    let mut played = Player::new(surface());
    let level = [ledge()];
    let frames = [
        Frame { dt: DT, keys: right() },
        Frame { dt: 20_000, keys: right() },
        Frame { dt: DT, keys: idle() },
        Frame { dt: 5_000, keys: left() },
    ];
    for f in frames.iter() {
        stepped.update(f.dt, f.keys, surface(), &level);
    }
    played.run(&frames, surface(), &level);
    assert_eq!(played, stepped);
    let before = played;
    played.run(&[], surface(), &level);
    assert_eq!(played, before);
}

#[test]
fn holding_right_reaches_the_movement_speed_exactly() {
    for dt in [DT, 1_000, 33_333, 100_000, ONE] {
        let mut p = Player::new(surface());
        let mut frames: i64 = 0;
        while p.velocity.x < X_MOVEMENT_SPEED {
            p.steer(dt, right());
            frames += 1;
            assert!(frames <= 1000);
        }
        assert_eq!(p.velocity.x, 500 * ONE);
        for _ in 0..50 {
            p.steer(dt, right());
            assert_eq!(p.velocity.x, 500 * ONE);
        }
    }
}

#[test]
fn holding_right_speeds_up_by_the_air_rate() {
    let mut p = Player::new(surface());
    p.steer(DT, right());
    assert_eq!(p.velocity.x, 25_000_500);
    p.steer(DT, right());
    assert_eq!(p.velocity.x, 50_001_000);
    let mut frames: i64 = 2;
    while p.velocity.x < X_MOVEMENT_SPEED {
        p.steer(DT, right());
        frames += 1;
    }
    assert_eq!(frames, 20);
}

#[test]
fn steering_on_the_ground_is_quicker() {
    let mut p = Player::new(surface());
    p.grounded = true;
    p.steer(DT, right());
    assert_eq!(p.velocity.x, 50_001_000);
    let mut q = Player::new(surface());
    q.grounded = true;
    q.steer(DT, left());
    assert_eq!(q.velocity.x, -50_001_000);
    let mut r = Player::new(surface());
    r.steer(DT, left());
    assert_eq!(r.velocity.x, -25_000_500);
}

#[test]
fn without_a_direction_the_player_brakes_and_stops_dead() {
    let mut p = Player::new(surface());
    p.velocity.x = 100 * ONE;
    p.steer(DT, idle());
    assert_eq!(p.velocity.x, 49_999_000);
    p.steer(DT, idle());
    assert_eq!(p.velocity.x, 0);
    let mut q = Player::new(surface());
    q.velocity.x = -100 * ONE;
    q.steer(DT, idle());
    assert_eq!(q.velocity.x, -49_999_000);
    let mut both = Player::new(surface());
    both.velocity.x = 100 * ONE;
    both.steer(DT, Keys { left: true, right: true, jump: false });
    assert_eq!(both.velocity.x, 49_999_000);
    let mut slow = Player::new(surface());
    slow.velocity.x = 40 * ONE;
    slow.steer(DT, idle());
    assert_eq!(slow.velocity.x, 0);
}

#[test]
fn the_speed_cap_holds_whatever_the_keys() {
    let mut p = Player::new(surface());
    p.velocity.x = 900 * ONE;
    p.steer(DT, right());
    assert_eq!(p.velocity.x, 500 * ONE);
    let mut q = Player::new(surface());
    q.velocity.x = -900 * ONE;
    q.steer(DT, idle());
    assert_eq!(q.velocity.x, -500 * ONE);
    let mut r = Player::new(surface());
    r.velocity.x = i64::MAX;
    r.steer(i64::MAX, right());
    assert_eq!(r.velocity.x, 500 * ONE);
}

#[test]
fn a_held_jump_keeps_gravity_off() {
    let mut p = Player::new(surface());
    p.position.y = 484 * ONE;
    p.grounded = true;
    p.update(DT, jump(), surface(), &[]);
    assert_eq!(p.position, Vector2::new(400 * ONE, 473_999_800));
    assert_eq!(p.velocity, Vector2::new(0, -600 * ONE));
    assert_eq!(p.jump_time, 300_000);
    assert!(!p.grounded);
    p.update(DT, jump(), surface(), &[]);
    assert_eq!(p.position.y, 463_999_600);
    assert_eq!(p.velocity.y, -600 * ONE);
    assert_eq!(p.jump_time, 283_333);
    p.update(DT, idle(), surface(), &[]);
    assert_eq!(p.position.y, 455_110_556);
    assert_eq!(p.velocity.y, -533_332_000);
    assert_eq!(p.jump_time, 0);
}

#[test]
fn an_overrun_jump_window_is_added_to_the_fall() {
    let mut p = Player::new(surface());
    p.velocity.y = -600 * ONE;
    p.jump_time = 10_000;
    p.jump(DT, jump());
    assert_eq!(p.velocity.y, -506_664_000);
    assert_eq!(p.jump_time, 0);
    let mut q = Player::new(surface());
    q.velocity.y = -600 * ONE;
    q.jump(DT, jump());
    assert_eq!(q.velocity.y, -533_332_000);
    assert_eq!(q.jump_time, 0);
}

#[test]
fn the_cooldown_policy_counts_the_time_in_the_air() {
    let mut late = Player::new(surface()).with_policy(JumpPolicy::CooldownGuard);
    late.jump_time = 190_000;
    late.jump(DT, jump());
    assert_eq!(late.jump_time, 206_667);
    assert_eq!(late.velocity.y, 66_668_000);
    let mut early = Player::new(surface()).with_policy(JumpPolicy::CooldownGuard);
    early.jump_time = 100_000;
    early.jump(DT, jump());
    assert_eq!(early.jump_time, 116_667);
    assert_eq!(early.velocity.y, -533_332_000);
    let mut standing = Player::new(surface()).with_policy(JumpPolicy::CooldownGuard);
    standing.grounded = true;
    standing.jump_time = 500_000;
    standing.jump(DT, jump());
    assert_eq!(standing.jump_time, 0);
    assert_eq!(standing.velocity.y, -533_332_000);
    let mut idle_fall = Player::new(surface()).with_policy(JumpPolicy::CooldownGuard);
    idle_fall.jump_time = 100_000;
    idle_fall.jump(DT, idle());
    assert_eq!(idle_fall.jump_time, 116_667);
    assert_eq!(idle_fall.velocity.y, 66_668_000);
}

#[test]
fn integrate_moves_by_velocity_times_time() {
    let mut p = Player::new(surface());
    p.velocity = Vector2::new(300 * ONE, -600 * ONE);
    p.integrate(DT);
    assert_eq!(p.position, Vector2::new(405_000_100, 364_999_800));
    p.integrate(0);
    assert_eq!(p.position, Vector2::new(405_000_100, 364_999_800));
}

#[test]
fn the_walls_hold_the_player_and_leave_the_speed() {
    let mut p = Player::new(surface());
    for _ in 0..200 {
        p.update(DT, left(), surface(), &[]);
        assert!(p.position.x >= 16 * ONE && p.position.x <= 784 * ONE);
    }
    assert_eq!(p.position, Vector2::new(16 * ONE, 484 * ONE));
    assert_eq!(p.velocity, Vector2::new(-500 * ONE, 0));
    let mut q = Player::new(surface());
    for _ in 0..200 {
        q.update(DT, right(), surface(), &[]);
        assert!(q.position.x >= 16 * ONE && q.position.x <= 784 * ONE);
    }
    assert_eq!(q.position, Vector2::new(784 * ONE, 484 * ONE));
    assert_eq!(q.velocity, Vector2::new(500 * ONE, 0));
}

#[test]
fn any_starting_velocity_ends_between_the_walls() {
    for vx in [i64::MIN, -1_000_000 * ONE, -1, 0, 1, 1_000_000 * ONE, i64::MAX] {
        let mut p = Player::new(surface());
        p.velocity.x = vx;
        p.update(DT, idle(), surface(), &[]);
        assert!(p.position.x >= 16 * ONE && p.position.x <= 784 * ONE);
    }
    let mut far = Player::new(surface());
    far.position.x = i64::MAX;
    far.confine(surface());
    assert_eq!(far.position.x, 784 * ONE);
    far.position.x = i64::MIN;
    far.confine(surface());
    assert_eq!(far.position.x, 16 * ONE);
}

#[test]
fn there_is_no_ceiling() {
    let mut p = Player::new(surface());
    p.position.y = -5000 * ONE;
    p.velocity.y = -100 * ONE;
    p.confine(surface());
    assert_eq!(p.position.y, -5000 * ONE);
    assert_eq!(p.velocity.y, -100 * ONE);
    assert!(!p.grounded);
}

#[test]
fn resting_exactly_on_the_floor_line_is_not_a_landing() {
    let mut p = Player::new(surface());
    p.position.y = 484 * ONE;
    p.velocity.y = 70 * ONE;
    p.grounded = true;
    p.confine(surface());
    assert!(!p.grounded);
    assert_eq!(p.velocity.y, 70 * ONE);
    p.position.y = 484 * ONE + 1;
    p.confine(surface());
    assert!(p.grounded);
    assert_eq!(p.velocity.y, 0);
    assert_eq!(p.position.y, 484 * ONE);
}

#[test]
fn no_platforms_means_no_change() {
    let mut p = Player::new(surface());
    p.velocity = Vector2::new(123, -456);
    p.jump_time = 77;
    let before = p;
    p.resolve(&[], DT);
    assert_eq!(p, before);
    let mut framed = before;
    framed.update(DT, right(), surface(), &[]);
    let mut staged = before;
    staged.steer(DT, right());
    staged.jump(DT, right());
    staged.integrate(DT);
    staged.confine(surface());
    assert_eq!(framed, staged);
}

#[test]
fn landing_grounds_and_stops_the_fall() {
    for vy in [0, 900 * ONE, 1_000_000 * ONE, i64::MAX] {
        let mut p = Player::new(surface());
        p.position = Vector2::new(200 * ONE, 470 * ONE);
        p.velocity = Vector2::new(55, vy);
        let hit = p.collide(&ledge().rect(), DT);
        assert_eq!(hit, Contact::Top);
        assert!(p.grounded);
        assert_eq!(p.velocity, Vector2::new(55, 0));
        assert_eq!(p.position, Vector2::new(200 * ONE, 459 * ONE));
    }
}

#[test]
fn a_side_hit_stops_the_run_only() {
    let mut p = Player::new(surface());
    p.position = Vector2::new(40 * ONE, 480 * ONE);
    p.velocity = Vector2::new(300 * ONE, 900 * ONE);
    let hit = p.collide(&ledge().rect(), DT);
    assert_eq!(hit, Contact::Left);
    assert!(!p.grounded);
    assert_eq!(p.velocity, Vector2::new(0, 900 * ONE));
    assert_eq!(p.position, Vector2::new(34 * ONE, 480 * ONE));
    let mut q = Player::new(surface());
    q.position = Vector2::new(360 * ONE, 487_500_000);
    q.velocity = Vector2::new(-300 * ONE, 0);
    assert_eq!(q.collide(&ledge().rect(), DT), Contact::Right);
    assert_eq!(q.position, Vector2::new(366 * ONE, 487_500_000));
    assert_eq!(q.velocity, Vector2::zero());
}

#[test]
fn hitting_the_underside_ends_a_held_jump() {
    let mut p = Player::new(surface());
    p.position = Vector2::new(200 * ONE, 510 * ONE);
    p.velocity = Vector2::new(0, -600 * ONE);
    p.jump_time = 200_000;
    assert_eq!(p.collide(&ledge().rect(), DT), Contact::Bottom);
    assert_eq!(p.position, Vector2::new(200 * ONE, 516 * ONE));
    assert_eq!(p.velocity, Vector2::zero());
    assert_eq!(p.jump_time, 0);
    assert!(!p.grounded);
    let mut q = Player::new(surface()).with_policy(JumpPolicy::CooldownGuard);
    q.position = Vector2::new(200 * ONE, 510 * ONE);
    q.velocity = Vector2::new(0, -600 * ONE);
    q.jump_time = 200_000;
    assert_eq!(q.collide(&ledge().rect(), DT), Contact::Bottom);
    assert_eq!(q.jump_time, 200_000);
    assert_eq!(q.velocity, Vector2::zero());
}

#[test]
fn a_miss_changes_nothing() {
    let mut p = Player::new(surface());
    p.velocity = Vector2::new(1, 2);
    let before = p;
    assert_eq!(p.collide(&ledge().rect(), DT), Contact::Clear);
    assert_eq!(p, before);
}

#[test]
fn each_platform_meets_what_the_one_before_left() {
    let low = Plat::new(200 * ONE, 487_500_000, 300 * ONE, 25 * ONE);
    let post = Plat::new(210 * ONE, 450 * ONE, 20 * ONE, 40 * ONE);
    let mut p = Player::new(surface());
    p.position = Vector2::new(200 * ONE, 470 * ONE);
    p.velocity = Vector2::new(0, 900 * ONE);
    p.resolve(&[low, post], DT);
    let mut q = Player::new(surface());
    q.position = Vector2::new(200 * ONE, 470 * ONE);
    q.velocity = Vector2::new(0, 900 * ONE);
    q.collide(&low.rect(), DT);
    assert_eq!(q.position, Vector2::new(200 * ONE, 459 * ONE));
    q.collide(&post.rect(), DT);
    assert_eq!(p, q);
    assert_eq!(p.position, Vector2::new(184 * ONE, 459 * ONE));
    assert_eq!(p.velocity, Vector2::zero());
    assert!(p.grounded);
}

#[test]
fn a_platform_by_the_wall_can_put_the_player_past_it() {
    let post = Plat::new(20 * ONE, 300 * ONE, 20 * ONE, 200 * ONE);
    let mut p = Player::new(surface());
    p.position = Vector2::new(18 * ONE, 300 * ONE);
    p.update(DT, idle(), surface(), &[post]);
    assert_eq!(p.position, Vector2::new(-6 * ONE, 301_111_155));
    assert_eq!(p.velocity, Vector2::new(0, 66_668_000));
    assert_eq!(p.position.x, post.position.x - post.dimensions.x / 2 - CIRCLE_RADIUS);
}

#[test]
fn a_long_erratic_run_keeps_what_every_frame_keeps() {
    let level = key_finder::world::generate_platforms(surface());
    let mut p = Player::new(surface());
    let mut seed: u64 = 12345;
    for _ in 0..3000 {
        seed = seed.wrapping_mul(6364136223846793005).wrapping_add(1442695040888963407);
        let r = seed >> 33;
        let keys = Keys {
            left: r & (1 << 20) != 0,
            right: r & (1 << 21) != 0,
            jump: r & (1 << 22) != 0,
        };
        let dt = 1000 + (r % 40_000) as i64;
        p.update(dt, keys, surface(), &level);
        assert!(p.velocity.x.abs() <= X_MOVEMENT_SPEED);
        assert!(!p.grounded || p.velocity.y == 0);
        assert_eq!(p.scroll, 0);
        let flush = level.iter().any(|plat| {
            let half = plat.dimensions.x / 2;
            p.position.x == plat.position.x - half - CIRCLE_RADIUS
                || p.position.x == plat.position.x + half + CIRCLE_RADIUS
        });
        assert!(flush || (p.position.x >= 16 * ONE && p.position.x <= 784 * ONE));
    }
    assert_eq!(p.position, Vector2::new(332_757_034, 484 * ONE));
    assert_eq!(p.velocity, Vector2::new(85_179_000, 0));
    assert!(p.grounded);
}

/// One frame without keys, computed in floating point: `(x, y, vx, vy)` in,
/// the same and the grounded flag out.
fn float_frame(s: (f32, f32, f32, f32), dt: f32, w: f32, h: f32, c: (f32, f32), d: (f32, f32)) -> (f32, f32, f32, f32, bool) {
    let (mut x, mut y, mut vx, mut vy) = s;
    let r = 16.0f32;
    if vx.abs() > 3000.0 * dt {
        vx += 3000.0 * (-vx / vx.abs()) * dt;
    } else {
        vx = 0.0;
    }
    vx = vx.clamp(-500.0, 500.0);
    vy += 4000.0 * dt;
    x += vx * dt;
    y += vy * dt;
    let mut grounded = false;
    x = x.clamp(r, w - r);
    if y > h - r {
        y = h - r;
        vy = 0.0;
        grounded = true;
    }
    let dist = (x - c.0, y - c.1);
    let swept = (x - (c.0 - vx * dt), y - (c.1 - vy * dt));
    let in_x = dist.0.abs() < d.0 / 2.0 + r;
    let in_y = dist.1.abs() < d.1 / 2.0 + r;
    let flip_x = swept.0 * dist.0 < 0.0;
    let flip_y = swept.1 * dist.1 < 0.0;
    if (in_x && in_y) || (flip_x && in_y) || (flip_y && in_x) || (flip_x && flip_y) {
        let ox = if dist.0 > 0.0 { c.0 + d.0 / 2.0 - (x - r) } else { x + r - (c.0 - d.0 / 2.0) };
        let oy = if dist.1 > 0.0 { c.1 + d.1 / 2.0 - (y - r) } else { y + r - (c.1 - d.1 / 2.0) };
        if oy < ox {
            if dist.1 < 0.0 {
                grounded = true;
                y = c.1 - d.1 / 2.0 - r;
            } else {
                y = c.1 + d.1 / 2.0 + r;
            }
            vy = 0.0;
        } else {
            x = if dist.0 < 0.0 { c.0 - d.0 / 2.0 - r } else { c.0 + d.0 / 2.0 + r };
            vx = 0.0;
        }
    }
    (x, y, vx, vy, grounded)
}

fn close(scalar: i64, float: f32) -> bool {
    (scalar as f64 / 1_000_000.0 - f64::from(float)).abs() < 0.01
}

#[test]
fn a_frame_in_scalars_follows_the_frame_in_floating_point() {
    let level = [ledge()];
    let starts = [(100.0f32, 300.0f32, 300.0f32, 0.0f32), (400.0, 375.0, 0.0, 0.0), (30.0, 470.0, 200.0, -300.0)];
    for start in starts {
        let mut p = Player::new(surface());
        p.position = Vector2::new((start.0 * 1e6) as i64, (start.1 * 1e6) as i64);
        p.velocity = Vector2::new((start.2 * 1e6) as i64, (start.3 * 1e6) as i64);
        let mut f = start;
        let mut landed = false;
        for _ in 0..90 {
            p.update(15_625, idle(), surface(), &level);
            let next = float_frame(f, 1.0 / 64.0, 800.0, 500.0, (200.0, 487.5), (300.0, 25.0));
            f = (next.0, next.1, next.2, next.3);
            assert!(close(p.position.x, f.0));
            assert!(close(p.position.y, f.1));
            assert!(close(p.velocity.x, f.2));
            assert!(close(p.velocity.y, f.3));
            assert_eq!(p.grounded, next.4);
            landed = landed || p.grounded;
        }
        assert!(landed);
    }
}

use key_finder::enemy::Enemy;
use key_finder::fixed::ONE;
use key_finder::player::Player;
use key_finder::screen::{Screen, INSTANT_GAIN, SMOOTH_GAIN, TRIGGER_LINE};
use key_finder::world::{generate_platforms, Plat, WorldBounds};

fn surface() -> WorldBounds {
    WorldBounds { width: 800 * ONE, height: 500 * ONE }
}

fn after(scroll_pos: i64, gain: i64, adjusted_y: i64) -> i64 {
    let mut s = Screen { scroll_pos, gain };
    s.follow(adjusted_y, surface());
    assert_eq!(s.gain, gain);
    s.scroll_pos
}

#[test]
fn a_new_camera_is_at_rest() {
    assert_eq!(Screen::new(), Screen { scroll_pos: 0, gain: 100_000 });
    assert_eq!(Screen::with_gain(INSTANT_GAIN), Screen { scroll_pos: 0, gain: ONE });
    assert_eq!(SMOOTH_GAIN, 100_000);
    assert_eq!(TRIGGER_LINE, 600_000);
}

#[test]
fn the_camera_rests_while_the_player_is_under_the_line() {
    assert_eq!(after(0, SMOOTH_GAIN, 375 * ONE), 0);
    assert_eq!(after(0, SMOOTH_GAIN, 300 * ONE), 0);
    assert_eq!(after(0, SMOOTH_GAIN, 300 * ONE + 1), 0);
    assert_eq!(after(-5 * ONE, SMOOTH_GAIN, 400 * ONE), -5 * ONE);
}

#[test]
fn the_camera_closes_a_tenth_of_the_distance() {
    assert_eq!(after(0, SMOOTH_GAIN, 200 * ONE), 10 * ONE);
    assert_eq!(after(10 * ONE, SMOOTH_GAIN, 250 * ONE), 15 * ONE);
    assert_eq!(after(-5 * ONE, SMOOTH_GAIN, 200 * ONE), 5 * ONE);
    assert_eq!(after(0, INSTANT_GAIN, 200 * ONE), 100 * ONE);
}

#[test]
fn a_positive_offset_follows_the_player_down_again() {
    assert_eq!(after(10 * ONE, SMOOTH_GAIN, 400 * ONE), 0);
    assert_eq!(after(10 * ONE, SMOOTH_GAIN, 500 * ONE), -10 * ONE);
}

#[test]
fn the_offset_never_drops_while_the_player_is_above_the_line() {
    let mut s = Screen::new();
    let mut last = s.scroll_pos;
    for y in [299 * ONE, 250 * ONE, 300 * ONE, 100 * ONE, -400 * ONE, 300 * ONE - 1, 0] {
        s.follow(y, surface());
        assert!(s.scroll_pos >= last);
        last = s.scroll_pos;
    }
    assert!(last > 0);
}

#[test]
fn the_offset_stays_zero_from_the_start_under_the_line() {
    let mut s = Screen::new();
    let mut player = Player::new(surface());
    let mut level = generate_platforms(surface());
    let mut foes = vec![Enemy::new(200 * ONE, 200 * ONE, 800 * ONE)];
    for y in [375 * ONE, 484 * ONE, 300 * ONE, 301 * ONE, 450 * ONE] {
        player.position.y = y;
        s.update(&mut player, &mut level, &mut foes, surface());
        assert_eq!(s.scroll_pos, 0);
        assert_eq!(player.scroll, 0);
    }
}

#[test]
fn update_hands_the_offset_to_everything_drawn() {
    let mut s = Screen::new();
    let mut player = Player::new(surface());
    player.position.y = 200 * ONE;
    let mut level = generate_platforms(surface());
    let mut foes = vec![Enemy::new(200 * ONE, 200 * ONE, 800 * ONE), Enemy::new(1, 2, 3)];
    let plats_before: Vec<Plat> = level.clone();
    let foes_before: Vec<Enemy> = foes.clone();
    let player_before = player;
    s.update(&mut player, &mut level, &mut foes, surface());
    assert_eq!(s.scroll_pos, 10 * ONE);
    assert_eq!(player, Player { scroll: 10 * ONE, ..player_before });
    assert_eq!(level.len(), 16);
    for (now, was) in level.iter().zip(plats_before.iter()) {
        assert_eq!(*now, Plat { scroll: 10 * ONE, ..*was });
    }
    assert_eq!(foes.len(), 2);
    for (now, was) in foes.iter().zip(foes_before.iter()) {
        assert_eq!(*now, Enemy { scroll: 10 * ONE, ..*was });
    }
    s.update(&mut player, &mut level, &mut foes, surface());
    assert_eq!(player.adjusted_y(), 219 * ONE);
    assert_eq!(s.scroll_pos, 19 * ONE);
    assert_eq!(level[3].scroll, 19 * ONE);
    assert_eq!(foes[1].scroll, 19 * ONE);
}

#[test]
fn update_accepts_an_empty_world() {
    let mut s = Screen::with_gain(INSTANT_GAIN);
    let mut player = Player::new(surface());
    player.position.y = 100 * ONE;
    let mut level: Vec<Plat> = Vec::new();
    let mut foes: Vec<Enemy> = Vec::new();
    s.update(&mut player, &mut level, &mut foes, surface());
    assert_eq!(s.scroll_pos, 200 * ONE);
    assert_eq!(player.scroll, 200 * ONE);
    assert!(level.is_empty());
    assert!(foes.is_empty());
}

//! The scroll camera: one vertical offset, shared by everything drawn.

use vstd::prelude::*;
use crate::enemy::Enemy;
use crate::fixed::{fx_mul, sat_add, sat_sub};
use crate::guarantees::{lemma_scroll_rests, lemma_scroll_rises};
use crate::player::Player;
use crate::world::{Plat, WorldBounds};

verus! {

/// The height on screen, as a fraction of the surface, that the camera
/// steers the player toward.
pub const TRIGGER_LINE: i64 = 600_000;

/// Share of the remaining distance that a smoothed camera covers per frame.
pub const SMOOTH_GAIN: i64 = 100_000;

/// Gain of a camera that covers the whole distance at once.
pub const INSTANT_GAIN: i64 = 1_000_000;

#[derive(Clone, Copy, PartialEq, Eq, Structural, Debug)]
pub struct Screen {
    /// The offset added to every world height when drawing.
    pub scroll_pos: i64,
    /// Share of the distance to the trigger line covered per frame.
    pub gain: i64,
}

impl Screen {
    /// A smoothed camera at rest.
    pub fn new() -> (r: Self)
        ensures
            r == (Screen { scroll_pos: 0, gain: SMOOTH_GAIN }),
    {
        Screen { scroll_pos: 0, gain: SMOOTH_GAIN }
    }

    /// A camera at rest with the given gain.
    pub fn with_gain(gain: i64) -> (r: Self)
        ensures
            r == (Screen { scroll_pos: 0, gain }),
    {
        Screen { scroll_pos: 0, gain }
    }

    /// The trigger line of a surface, as a height on screen.
    pub open spec fn target_line(bounds: WorldBounds) -> i64 {
        fx_mul(bounds.height, TRIGGER_LINE)
    }

    /// The offset after a frame in which the player shows at `adjusted_y`.
    /// While the offset is not positive and the player is under the line
    /// nothing moves; otherwise the offset closes a share of the distance
    /// between the line and the player.
    pub open spec fn next_scroll(self, adjusted_y: i64, bounds: WorldBounds) -> i64 {
        let line = Self::target_line(bounds);
        let distance = if self.scroll_pos <= 0 && adjusted_y > line {
            0
        } else {
            sat_sub(line, adjusted_y)
        };
        sat_add(self.scroll_pos, fx_mul(self.gain, distance))
    }

    /// The camera after following a player through a run of frames, given
    /// the player's world height in each. The player is drawn with the offset
    /// of the frame before.
    pub open spec fn followed(self, heights: Seq<i64>, bounds: WorldBounds) -> Screen
        decreases heights.len(),
    {
        if heights.len() == 0 {
            self
        } else {
            let before = self.followed(heights.drop_last(), bounds);
            Screen {
                scroll_pos: before.next_scroll(
                    sat_add(heights.last(), before.scroll_pos),
                    bounds,
                ),
                ..before
            }
        }
    }

    /// Moves the offset for this frame.
    pub fn follow(&mut self, adjusted_y: i64, bounds: WorldBounds)
        ensures
            final(self).scroll_pos == old(self).next_scroll(adjusted_y, bounds),
            final(self).gain == old(self).gain,
            ({
                let line = Self::target_line(bounds);
                let before = old(self).scroll_pos;
                let after = final(self).scroll_pos;
                &&& before <= 0 && adjusted_y >= line ==> after == before
                &&& old(self).gain >= 0 && adjusted_y <= line ==> after >= before
            }),
    {
        proof {
            if self.scroll_pos <= 0 && adjusted_y >= Self::target_line(bounds) {
                lemma_scroll_rests(*self, adjusted_y, bounds);
            }
            if self.gain >= 0 && adjusted_y <= Self::target_line(bounds) {
                lemma_scroll_rises(*self, adjusted_y, bounds);
            }
        }
        let line: i64 = fx_mul(bounds.height, TRIGGER_LINE);
        let distance: i64 = if self.scroll_pos <= 0 && adjusted_y > line {
            0
        } else {
            sat_sub(line, adjusted_y)
        };
        self.scroll_pos = sat_add(self.scroll_pos, fx_mul(self.gain, distance));
    }

    /// One frame of the camera: moves the offset by where the player shows,
    /// then hands the new offset to the player, every platform and every
    /// enemy. Nothing else about them changes.
    pub fn update(
        &mut self,
        player: &mut Player,
        platforms: &mut Vec<Plat>,
        enemies: &mut Vec<Enemy>,
        bounds: WorldBounds,
    )
        ensures
            final(self).scroll_pos == old(self).next_scroll(old(player).adjusted_y(), bounds),
            final(self).gain == old(self).gain,
            *final(player) == (Player { scroll: final(self).scroll_pos, ..*old(player) }),
            final(platforms)@.len() == old(platforms)@.len(),
            forall|i: int|
                0 <= i < old(platforms)@.len() ==> final(platforms)@[i] == (Plat {
                    scroll: final(self).scroll_pos,
                    ..old(platforms)@[i]
                }),
            final(enemies)@.len() == old(enemies)@.len(),
            forall|i: int|
                0 <= i < old(enemies)@.len() ==> final(enemies)@[i] == (Enemy {
                    scroll: final(self).scroll_pos,
                    ..old(enemies)@[i]
                }),
    {
        self.follow(player.adjusted_y(), bounds);
        let scroll: i64 = self.scroll_pos;
        player.set_scroll(scroll);
        let ghost plats = platforms@;
        let mut i: usize = 0;
        while i < platforms.len()
            invariant
                i <= platforms@.len(),
                platforms@.len() == plats.len(),
                forall|k: int| 0 <= k < i ==> platforms@[k] == (Plat { scroll, ..plats[k] }),
                forall|k: int| i <= k < plats.len() ==> platforms@[k] == plats[k],
            decreases platforms@.len() - i,
        {
            let mut plat = platforms[i];
            plat.set_scroll(scroll);
            platforms.set(i, plat);
            i += 1;
        }
        let ghost foes = enemies@;
        let mut j: usize = 0;
        while j < enemies.len()
            invariant
                j <= enemies@.len(),
                enemies@.len() == foes.len(),
                forall|k: int| 0 <= k < j ==> enemies@[k] == (Enemy { scroll, ..foes[k] }),
                forall|k: int| j <= k < foes.len() ==> enemies@[k] == foes[k],
            decreases enemies@.len() - j,
        {
            let mut enemy = enemies[j];
            enemy.set_scroll(scroll);
            enemies.set(j, enemy);
            j += 1;
        }
    }
}

} // verus!

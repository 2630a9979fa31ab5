//! The collision resolver: enemies crossing the lower boundary, bullets hitting
//! enemies, and the score they earn.
use vstd::prelude::*;

use crate::entities::{Bullet, Enemy, Player};
use crate::geometry::{overlaps, overlaps_spec, Aabb};
use crate::{BULLET_HEIGHT, BULLET_WIDTH, ENEMY_HEIGHT, ENEMY_WIDTH, PLAYER_HEIGHT};

verus! {

/// The number of enemies destroyed in this session.
#[derive(Clone, Copy, Debug, PartialEq, Eq, Structural)]
pub struct Score {
    pub value: u32,
}

impl Default for Score {
    fn default() -> (r: Self)
        ensures
            r.value == 0,
    {
        Score { value: 0 }
    }
}

/// The score after one more hit; it stays put at the largest `u32`.
pub open spec fn bumped(v: u32) -> u32 {
    if v < u32::MAX {
        (v + 1) as u32
    } else {
        v
    }
}

impl Score {
    /// Counts one more hit.
    pub fn increment(&mut self)
        ensures
            final(self).value == bumped(old(self).value),
    {
        if self.value < u32::MAX {
            self.value = self.value + 1;
        }
    }
}

/// Sent once when an enemy reaches the lower boundary, with the score at that moment.
#[derive(Clone, Copy, Debug, PartialEq, Eq, Structural)]
pub struct GameOver {
    pub score: u32,
}

/// The height below which an enemy ends the session: one and a half player
/// heights.
pub open spec fn gate_y() -> int {
    3 * PLAYER_HEIGHT / 2
}

/// Whether some enemy is below the lower boundary.
pub open spec fn any_below_gate(enemies: Seq<Enemy>) -> bool {
    exists|i: int| 0 <= i < enemies.len() && enemies[i].y < gate_y()
}

/// While a player exists, ends the session when an enemy is below the lower boundary:
/// the player is removed and the score reported.
pub fn enemy_cross_gate(player: &mut Option<Player>, enemies: &Vec<Enemy>, score: &Score) -> (r: Option<GameOver>)
    ensures
        r.is_some() <==> old(player).is_some() && any_below_gate(enemies@),
        r.is_some() ==> r == Some(GameOver { score: score.value }) && final(player).is_none(),
        r.is_none() ==> *final(player) == *old(player),
{
    if player.is_some() {
        let gate: i64 = 3 * PLAYER_HEIGHT / 2;
        let mut i: usize = 0;
        while i < enemies.len()
            invariant
                0 <= i <= enemies@.len(),
                gate == gate_y(),
                *player == *old(player),
                old(player).is_some(),
                forall|j: int| 0 <= j < i ==> enemies@[j].y >= gate_y(),
            decreases enemies@.len() - i,
        {
            if enemies[i].y < gate {
                assert(enemies@[i as int].y < gate_y());
                *player = None;
                return Some(GameOver { score: score.value });
            }
            i += 1;
        }
    }
    None
}

/// The bounding box of a bullet.
pub open spec fn bullet_box(b: Bullet) -> Aabb {
    Aabb { x: b.x, y: b.y, half_w: (BULLET_WIDTH / 2) as i64, half_h: (BULLET_HEIGHT / 2) as i64 }
}

/// The bounding box of an enemy.
pub open spec fn enemy_box(e: Enemy) -> Aabb {
    Aabb { x: e.x, y: e.y, half_w: (ENEMY_WIDTH / 2) as i64, half_h: (ENEMY_HEIGHT / 2) as i64 }
}

/// Whether the bullet overlaps the enemy.
pub open spec fn hits(b: Bullet, e: Enemy) -> bool {
    overlaps_spec(bullet_box(b), enemy_box(e))
}

/// Whether some bullet overlaps some enemy.
pub open spec fn any_hit(bullets: Seq<Bullet>, enemies: Seq<Enemy>) -> bool {
    exists|bi: int, ei: int|
        0 <= bi < bullets.len() && 0 <= ei < enemies.len() && hits(bullets[bi], enemies[ei])
}

/// Bullet `bi` and enemy `ei` overlap, and no pair before them does, taking
/// bullets in the outer order and enemies in the inner one.
pub open spec fn first_hit(bullets: Seq<Bullet>, enemies: Seq<Enemy>, bi: int, ei: int) -> bool {
    &&& 0 <= bi < bullets.len()
    &&& 0 <= ei < enemies.len()
    &&& hits(bullets[bi], enemies[ei])
    &&& forall|b2: int, e2: int|
        0 <= b2 < bullets.len() && 0 <= e2 < enemies.len() && (b2 < bi || (b2 == bi && e2 < ei))
            ==> !hits(bullets[b2], enemies[e2])
}

/// Resolves the first overlapping bullet and enemy, if any: both are
/// removed and the score goes up by one. At most one pair is resolved per
/// call; the indices of that pair are returned.
pub fn bullet_hit_enemy(
    bullets: &mut Vec<Bullet>,
    enemies: &mut Vec<Enemy>,
    score: &mut Score,
) -> (r: Option<(usize, usize)>)
    ensures
        r.is_some() <==> any_hit(old(bullets)@, old(enemies)@),
        r matches Some((bi, ei)) ==> {
            &&& first_hit(old(bullets)@, old(enemies)@, bi as int, ei as int)
            &&& final(bullets)@ == old(bullets)@.remove(bi as int)
            &&& final(enemies)@ == old(enemies)@.remove(ei as int)
            &&& final(score).value == bumped(old(score).value)
        },
        r.is_none() ==> {
            &&& final(bullets)@ == old(bullets)@
            &&& final(enemies)@ == old(enemies)@
            &&& *final(score) == *old(score)
        },
{
    let mut bi: usize = 0;
    while bi < bullets.len()
        invariant
            0 <= bi <= bullets@.len(),
            bullets@ == old(bullets)@,
            enemies@ == old(enemies)@,
            *score == *old(score),
            forall|b2: int, e2: int|
                0 <= b2 < bi && 0 <= e2 < enemies@.len() ==> !hits(bullets@[b2], enemies@[e2]),
        decreases bullets@.len() - bi,
    {
        let b = bullets[bi];
        let bbox = Aabb { x: b.x, y: b.y, half_w: BULLET_WIDTH / 2, half_h: BULLET_HEIGHT / 2 };
        let mut ei: usize = 0;
        while ei < enemies.len()
            invariant
                0 <= bi < bullets@.len(),
                0 <= ei <= enemies@.len(),
                b == bullets@[bi as int],
                bbox == bullet_box(b),
                bullets@ == old(bullets)@,
                enemies@ == old(enemies)@,
                *score == *old(score),
                forall|b2: int, e2: int|
                    0 <= b2 < bi && 0 <= e2 < enemies@.len() ==> !hits(bullets@[b2], enemies@[e2]),
                forall|e2: int| 0 <= e2 < ei ==> !hits(b, enemies@[e2]),
            decreases enemies@.len() - ei,
        {
            let e = enemies[ei];
            let ebox = Aabb { x: e.x, y: e.y, half_w: ENEMY_WIDTH / 2, half_h: ENEMY_HEIGHT / 2 };
            if overlaps(&bbox, &ebox) {
                assert(hits(bullets@[bi as int], enemies@[ei as int]));
                enemies.remove(ei);
                bullets.remove(bi);
                score.increment();
                return Some((bi, ei));
            }
            ei += 1;
        }
        bi += 1;
    }
    None
}

} // verus!

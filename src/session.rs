//! The session: owns every entity and runs one tick of the simulation in a
//! fixed order.
use vstd::prelude::*;

use crate::combat::{any_below_gate, bullet_hit_enemy, bumped, enemy_cross_gate, GameOver, Score};
use crate::cooldown::{try_fire, tick_bullet_timer, BulletSpawnConfig, Cooldown};
use crate::entities::{
    bullet_movement, confine_player, enemy_movement, moved_enemy, player_movement, player_x_max,
    player_x_min, spawn_player, Direction, Enemy, Bullet, Intents, Player, Surface, SurfaceError,
};
use crate::spawner::{respawn_enemies, roomy, spawn_enemies, spread, SpawnError};
use crate::{BULLET_COOLDOWN_MS, ENEMY_COUNT, PLAYER_HEIGHT, PLAYER_WIDTH};

verus! {

/// What a tick asks the presentation layer to show or play.
#[derive(Clone, Copy, Debug, PartialEq, Eq, Structural)]
pub struct TickReport {
    /// A bullet was created.
    pub fired: bool,
    /// A bullet destroyed an enemy.
    pub hit: bool,
    /// The session ended during this tick.
    pub game_over: Option<GameOver>,
}

/// Every enemy of `enemies` moved for `dt_ms` milliseconds.
pub open spec fn moved_enemies(enemies: Seq<Enemy>, dt_ms: int) -> Seq<Enemy> {
    Seq::new(enemies.len(), |i: int| moved_enemy(enemies[i], dt_ms))
}

/// All state of one run of the game.
pub struct Session {
    pub player: Option<Player>,
    pub enemies: Vec<Enemy>,
    pub bullets: Vec<Bullet>,
    pub score: Score,
    pub bullet_config: BulletSpawnConfig,
}

impl Session {
    /// The population never exceeds its target, every enemy moves straight
    /// down, no two enemies collide and the fire timer is in range.
    pub open spec fn wf(&self) -> bool {
        &&& self.enemies@.len() <= ENEMY_COUNT
        &&& forall|i: int| 0 <= i < self.enemies@.len() ==> self.enemies@[i].direction == Direction::Down
        &&& spread(self.enemies@)
        &&& self.bullet_config.wf()
    }

    /// Starts a session: the player at the bottom centre and a full
    /// population of enemies along the top.
    pub fn new(surface: Option<Surface>) -> (r: Result<Session, SpawnError>)
        ensures
            surface is None <==> r is Err && r == Err::<Session, SpawnError>(SpawnError::MissingPrimarySurface),
            r matches Ok(s) ==> {
                &&& s.wf()
                &&& s.player == Some(Player { x: (surface.unwrap().width / 2) as i64, y: PLAYER_HEIGHT })
                &&& s.enemies@.len() == ENEMY_COUNT
                &&& s.bullets@.len() == 0
                &&& s.score.value == 0
                &&& s.bullet_config.timer == (Cooldown { interval_ms: BULLET_COOLDOWN_MS, elapsed_ms: 0 })
            },
            surface matches Some(s) && roomy(s.width as int) ==> r is Ok,
    {
        let player = match spawn_player(surface) {
            Ok(p) => p,
            Err(SurfaceError::MissingPrimarySurface) => {
                return Err(SpawnError::MissingPrimarySurface);
            },
        };
        let enemies = match spawn_enemies(surface) {
            Ok(v) => v,
            Err(e) => {
                return Err(e);
            },
        };
        proof {
            assert forall|i: int| 0 <= i < enemies@.len() implies enemies@[i].direction == Direction::Down by {
                assert(crate::spawner::placed_well(enemies@, i, surface.unwrap()));
            }
        }
        Ok(Session {
            player: Some(player),
            enemies,
            bullets: Vec::new(),
            score: Score::default(),
            bullet_config: BulletSpawnConfig::default(),
        })
    }

    /// Runs one tick: advance the fire timer, move and confine the player,
    /// move the enemies, check the lower boundary, try to fire, move the bullets,
    /// resolve one hit and bring the population back to its target.
    pub fn tick(&mut self, input: &Intents, dt_ms: u32, surface: Option<Surface>) -> (r: Result<TickReport, SpawnError>)
        requires
            old(self).wf(),
        ensures
            final(self).wf(),
            old(self).score.value <= final(self).score.value <= old(self).score.value + 1,
            surface is None && old(self).player is Some ==> r == Err::<TickReport, SpawnError>(
                SpawnError::MissingPrimarySurface,
            ),
            surface matches Some(s) && roomy(s.width as int) ==> r is Ok,
            r matches Ok(rep) ==> {
                &&& rep.game_over.is_some() <==> old(self).player.is_some() && any_below_gate(
                    moved_enemies(old(self).enemies@, dt_ms as int),
                )
                &&& rep.game_over.is_some() ==> rep.game_over == Some(
                    GameOver { score: old(self).score.value },
                ) && final(self).player.is_none()
                &&& old(self).player.is_none() ==> final(self).player.is_none()
                &&& rep.fired <==> old(self).player.is_some() && rep.game_over.is_none() && input.fire
                    && old(self).bullet_config.timer.ticked(dt_ms as int).finished_spec()
                &&& final(self).score.value == if rep.hit {
                    bumped(old(self).score.value)
                } else {
                    old(self).score.value
                }
                &&& final(self).enemies@.len() == ENEMY_COUNT
                &&& final(self).player matches Some(p) ==> surface matches Some(s) && (s.width
                    >= PLAYER_WIDTH ==> player_x_min() <= p.x <= player_x_max(s.width as int))
            },
    {
        tick_bullet_timer(&mut self.bullet_config, dt_ms);
        player_movement(&mut self.player, input, dt_ms);
        if confine_player(&mut self.player, surface).is_err() {
            return Err(SpawnError::MissingPrimarySurface);
        }
        let ghost before_move = self.enemies@;
        enemy_movement(&mut self.enemies, dt_ms);
        proof {
            assert(self.enemies@ =~= moved_enemies(before_move, dt_ms as int));
            assert forall|i: int| 0 <= i < self.enemies@.len() implies self.enemies@[i].x
                == before_move[i].x && self.enemies@[i].direction == Direction::Down by {
                let e = before_move[i];
                assert(e.direction == Direction::Down);
                assert(e.direction.dx() == 0);
                assert(e.direction.dx() * crate::ENEMY_SPEED * (dt_ms as int) == 0) by (nonlinear_arith)
                    requires
                        e.direction.dx() == 0,
                ;
            }
        }
        let game_over = enemy_cross_gate(&mut self.player, &self.enemies, &self.score);
        let fired = match try_fire(&mut self.bullet_config, &self.player, input.fire) {
            Some(b) => {
                self.bullets.push(b);
                true
            },
            None => false,
        };
        bullet_movement(&mut self.bullets, dt_ms);
        let ghost before_hit = self.enemies@;
        let hit = bullet_hit_enemy(&mut self.bullets, &mut self.enemies, &mut self.score);
        proof {
            if let Some((bi, ei)) = hit {
                assert forall|i: int, j: int| 0 <= i < j < self.enemies@.len() implies !crate::spawner::collides_x(
                    self.enemies@[i].x as int,
                    self.enemies@[j].x as int,
                ) by {
                    let i0 = if i < ei { i } else { i + 1 };
                    let j0 = if j < ei { j } else { j + 1 };
                    assert(self.enemies@[i] == before_hit[i0]);
                    assert(self.enemies@[j] == before_hit[j0]);
                }
                assert forall|i: int| 0 <= i < self.enemies@.len() implies self.enemies@[i].direction
                    == Direction::Down by {
                    let i0 = if i < ei { i } else { i + 1 };
                    assert(self.enemies@[i] == before_hit[i0]);
                }
            }
        }
        let ghost before_fill = self.enemies@;
        let filled = respawn_enemies(&mut self.enemies, surface);
        proof {
            assert forall|i: int| 0 <= i < self.enemies@.len() implies self.enemies@[i].direction
                == Direction::Down by {
                if before_fill.len() >= ENEMY_COUNT || surface is None {
                    assert(self.enemies@ == before_fill);
                } else if i < before_fill.len() {
                    assert(self.enemies@.take(before_fill.len() as int)[i] == before_fill[i]);
                    assert(self.enemies@[i] == before_fill[i]);
                } else {
                    assert(crate::spawner::placed_well(self.enemies@, i, surface.unwrap()));
                }
            }
        }
        if let Err(e) = filled {
            return Err(e);
        }
        Ok(TickReport { fired, hit: hit.is_some(), game_over })
    }
}

} // verus!

//! The fire-rate limiter: a one-shot countdown that gates bullet creation.
use vstd::prelude::*;

use crate::entities::{add_clamped, clamp_i64, Bullet, Direction, Player};
use crate::{BULLET_COOLDOWN_MS, PLAYER_HEIGHT};

verus! {

/// A one-shot timer: it runs up to its interval and stays there until it is
/// reset.
#[derive(Clone, Copy, Debug, PartialEq, Eq, Structural)]
pub struct Cooldown {
    pub interval_ms: u32,
    pub elapsed_ms: u32,
}

impl Cooldown {
    /// The elapsed time never runs past the interval.
    pub open spec fn wf(self) -> bool {
        self.elapsed_ms <= self.interval_ms
    }

    /// Whether the full interval has elapsed.
    pub open spec fn finished_spec(self) -> bool {
        self.elapsed_ms >= self.interval_ms
    }

    /// The timer after `dt_ms` more milliseconds.
    pub open spec fn ticked(self, dt_ms: int) -> Cooldown {
        Cooldown {
            interval_ms: self.interval_ms,
            elapsed_ms: if self.elapsed_ms + dt_ms >= self.interval_ms {
                self.interval_ms
            } else {
                (self.elapsed_ms + dt_ms) as u32
            },
        }
    }

    /// A timer of the given interval with nothing elapsed.
    pub fn new(interval_ms: u32) -> (r: Cooldown)
        ensures
            r == (Cooldown { interval_ms, elapsed_ms: 0 }),
            r.wf(),
    {
        Cooldown { interval_ms, elapsed_ms: 0 }
    }

    /// Advances the timer, stopping at the interval.
    pub fn tick(&mut self, dt_ms: u32)
        requires
            old(self).wf(),
        ensures
            *final(self) == old(self).ticked(dt_ms as int),
            final(self).wf(),
    {
        let room = self.interval_ms - self.elapsed_ms;
        if dt_ms >= room {
            self.elapsed_ms = self.interval_ms;
        } else {
            self.elapsed_ms = self.elapsed_ms + dt_ms;
        }
    }

    /// Whether the full interval has elapsed.
    pub fn finished(&self) -> (r: bool)
        ensures
            r == self.finished_spec(),
    {
        self.elapsed_ms >= self.interval_ms
    }

    /// Starts the countdown again from nothing elapsed.
    pub fn reset(&mut self)
        ensures
            *final(self) == (Cooldown { interval_ms: old(self).interval_ms, elapsed_ms: 0 }),
            final(self).wf(),
    {
        self.elapsed_ms = 0;
    }
}

/// The fire-rate limiter's state.
#[derive(Clone, Copy, Debug, PartialEq, Eq, Structural)]
pub struct BulletSpawnConfig {
    pub timer: Cooldown,
}

impl BulletSpawnConfig {
    pub open spec fn wf(self) -> bool {
        self.timer.wf()
    }
}

impl Default for BulletSpawnConfig {
    fn default() -> (r: Self)
        ensures
            r.timer == (Cooldown { interval_ms: BULLET_COOLDOWN_MS, elapsed_ms: 0 }),
            r.wf(),
    {
        BulletSpawnConfig { timer: Cooldown::new(BULLET_COOLDOWN_MS) }
    }
}

/// Advances the fire-rate timer by the tick's elapsed time.
pub fn tick_bullet_timer(config: &mut BulletSpawnConfig, dt_ms: u32)
    requires
        old(config).wf(),
    ensures
        final(config).timer == old(config).timer.ticked(dt_ms as int),
        final(config).wf(),
{
    config.timer.tick(dt_ms);
}

/// Whether a fire attempt on an already advanced timer creates a bullet.
pub open spec fn fires(timer: Cooldown, has_player: bool, fire_held: bool) -> bool {
    has_player && fire_held && timer.finished_spec()
}

/// The bullet that leaves the player's nose.
pub open spec fn bullet_from(p: Player) -> Bullet {
    Bullet { x: p.x, y: clamp_i64(p.y + PLAYER_HEIGHT / 2) as i64, direction: Direction::Up }
}

/// A fire attempt on an already advanced timer: creates a bullet when a
/// player exists, fire is held and the timer has finished, and then resets
/// the timer.
pub fn try_fire(config: &mut BulletSpawnConfig, player: &Option<Player>, fire_held: bool) -> (r: Option<Bullet>)
    requires
        old(config).wf(),
    ensures
        final(config).wf(),
        r.is_some() == fires(old(config).timer, player.is_some(), fire_held),
        r.is_some() ==> r == Some(bullet_from(player.unwrap())) && final(config).timer == (Cooldown {
            interval_ms: old(config).timer.interval_ms,
            elapsed_ms: 0,
        }),
        r.is_none() ==> *final(config) == *old(config),
{
    if let Some(p) = player {
        if !fire_held {
            return None;
        }
        if !config.timer.finished() {
            return None;
        }
        let b = Bullet { x: p.x, y: add_clamped(p.y, PLAYER_HEIGHT / 2), direction: Direction::Up };
        config.timer.reset();
        Some(b)
    } else {
        None
    }
}

/// Advances the timer, then makes a fire attempt.
pub fn spawn_bullet(
    config: &mut BulletSpawnConfig,
    player: &Option<Player>,
    fire_held: bool,
    dt_ms: u32,
) -> (r: Option<Bullet>)
    requires
        old(config).wf(),
    ensures
        final(config).wf(),
        r.is_some() == fires(old(config).timer.ticked(dt_ms as int), player.is_some(), fire_held),
        r.is_some() ==> r == Some(bullet_from(player.unwrap())) && final(config).timer.elapsed_ms == 0,
        r.is_none() ==> final(config).timer == old(config).timer.ticked(dt_ms as int),
        final(config).timer.interval_ms == old(config).timer.interval_ms,
{
    tick_bullet_timer(config, dt_ms);
    try_fire(config, player, fire_held)
}

/// With a player present and fire held, once a bullet has been created the
/// next one comes exactly when at least the full interval has passed since.
pub proof fn lemma_cooldown_gating(timer: Cooldown, dt_first: u32, dt_next: u32)
    requires
        timer.wf(),
        fires(timer.ticked(dt_first as int), true, true),
    ensures
        ({
            let after = Cooldown { interval_ms: timer.interval_ms, elapsed_ms: 0 };
            fires(after.ticked(dt_next as int), true, true) <==> dt_next >= timer.interval_ms
        }),
{
}

} // verus!

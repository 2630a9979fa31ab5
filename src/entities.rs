//! The entities of a session and the movement integrator.
use vstd::prelude::*;

use crate::{BULLET_SPEED, ENEMY_SPEED, PLAYER_HEIGHT, PLAYER_SPEED, PLAYER_WIDTH};

verus! {

/// The render surface's size, in thousandths of a pixel.
#[derive(Clone, Copy, Debug, PartialEq, Eq, Structural)]
pub struct Surface {
    pub width: u32,
    pub height: u32,
}

/// Why an operation that needs the surface could not run.
#[derive(Clone, Copy, Debug, PartialEq, Eq, Structural)]
pub enum SurfaceError {
    MissingPrimarySurface,
}

/// A unit vector along one of the axes.
#[derive(Clone, Copy, Debug, PartialEq, Eq, Structural)]
pub enum Direction {
    Up,
    Down,
    Left,
    Right,
}

impl Direction {
    pub open spec fn dx(self) -> int {
        match self {
            Direction::Left => -1,
            Direction::Right => 1,
            _ => 0,
        }
    }

    pub open spec fn dy(self) -> int {
        match self {
            Direction::Up => 1,
            Direction::Down => -1,
            _ => 0,
        }
    }
}

/// The player's ship.
#[derive(Clone, Copy, Debug, PartialEq, Eq, Structural)]
pub struct Player {
    pub x: i64,
    pub y: i64,
}

/// An enemy, moving along its direction.
#[derive(Clone, Copy, Debug, PartialEq, Eq, Structural)]
pub struct Enemy {
    pub x: i64,
    pub y: i64,
    pub direction: Direction,
}

/// A bullet, moving along its direction.
#[derive(Clone, Copy, Debug, PartialEq, Eq, Structural)]
pub struct Bullet {
    pub x: i64,
    pub y: i64,
    pub direction: Direction,
}

/// The movement intents read from the input source for one tick.
#[derive(Clone, Copy, Debug, PartialEq, Eq, Structural)]
pub struct Intents {
    pub move_left: bool,
    pub move_right: bool,
    pub fire: bool,
}

/// `v` brought into the range of `i64`.
pub open spec fn clamp_i64(v: int) -> int {
    if v > i64::MAX {
        i64::MAX as int
    } else if v < i64::MIN {
        i64::MIN as int
    } else {
        v
    }
}

/// `a + b`, saturated at the bounds of `i64`.
pub fn add_clamped(a: i64, b: i64) -> (r: i64)
    ensures
        r == clamp_i64(a + b),
{
    match a.checked_add(b) {
        Some(v) => v,
        None => if b > 0 {
            i64::MAX
        } else {
            i64::MIN
        },
    }
}

/// Distance covered in `dt_ms` milliseconds at `speed` pixels per second
/// along one axis component `d` of a direction (-1, 0 or 1).
fn step(d: i64, speed: i64, dt_ms: u32) -> (r: i64)
    requires
        -1 <= d <= 1,
        0 <= speed <= 1000,
    ensures
        r == d * speed * dt_ms,
{
    proof {
        assert(0 <= speed * dt_ms <= 1000 * 0xffff_ffff) by (nonlinear_arith)
            requires
                0 <= speed <= 1000,
                0 <= dt_ms <= 0xffff_ffff,
        ;
    }
    let dist = speed * (dt_ms as i64);
    if d < 0 {
        assert(d * speed * dt_ms == -(speed * dt_ms)) by (nonlinear_arith)
            requires
                d == -1,
        ;
        -dist
    } else if d > 0 {
        assert(d * speed * dt_ms == speed * dt_ms) by (nonlinear_arith)
            requires
                d == 1,
        ;
        dist
    } else {
        assert(d * speed * dt_ms == 0) by (nonlinear_arith)
            requires
                d == 0,
        ;
        0
    }
}

fn dir_dx(d: Direction) -> (r: i64)
    ensures
        r == d.dx(),
{
    match d {
        Direction::Left => -1,
        Direction::Right => 1,
        _ => 0,
    }
}

fn dir_dy(d: Direction) -> (r: i64)
    ensures
        r == d.dy(),
{
    match d {
        Direction::Up => 1,
        Direction::Down => -1,
        _ => 0,
    }
}

/// An enemy after moving for `dt_ms` milliseconds.
pub open spec fn moved_enemy(e: Enemy, dt_ms: int) -> Enemy {
    Enemy {
        x: clamp_i64(e.x + e.direction.dx() * ENEMY_SPEED * dt_ms) as i64,
        y: clamp_i64(e.y + e.direction.dy() * ENEMY_SPEED * dt_ms) as i64,
        direction: e.direction,
    }
}

/// A bullet after moving for `dt_ms` milliseconds.
pub open spec fn moved_bullet(b: Bullet, dt_ms: int) -> Bullet {
    Bullet {
        x: clamp_i64(b.x + b.direction.dx() * BULLET_SPEED * dt_ms) as i64,
        y: clamp_i64(b.y + b.direction.dy() * BULLET_SPEED * dt_ms) as i64,
        direction: b.direction,
    }
}

/// Moves every enemy along its direction at enemy speed.
pub fn enemy_movement(enemies: &mut Vec<Enemy>, dt_ms: u32)
    ensures
        final(enemies)@.len() == old(enemies)@.len(),
        forall|i: int|
            0 <= i < old(enemies)@.len() ==> final(enemies)@[i] == moved_enemy(
                old(enemies)@[i],
                dt_ms as int,
            ),
{
    let n = enemies.len();
    let mut i: usize = 0;
    while i < n
        invariant
            n == old(enemies)@.len(),
            enemies@.len() == n,
            0 <= i <= n,
            forall|j: int| 0 <= j < i ==> enemies@[j] == moved_enemy(old(enemies)@[j], dt_ms as int),
            forall|j: int| i <= j < n ==> enemies@[j] == old(enemies)@[j],
        decreases n - i,
    {
        let e = enemies[i];
        let moved = Enemy {
            x: add_clamped(e.x, step(dir_dx(e.direction), ENEMY_SPEED, dt_ms)),
            y: add_clamped(e.y, step(dir_dy(e.direction), ENEMY_SPEED, dt_ms)),
            direction: e.direction,
        };
        enemies.set(i, moved);
        i += 1;
    }
}

/// Moves every bullet along its direction at bullet speed.
pub fn bullet_movement(bullets: &mut Vec<Bullet>, dt_ms: u32)
    ensures
        final(bullets)@.len() == old(bullets)@.len(),
        forall|i: int|
            0 <= i < old(bullets)@.len() ==> final(bullets)@[i] == moved_bullet(
                old(bullets)@[i],
                dt_ms as int,
            ),
{
    let n = bullets.len();
    let mut i: usize = 0;
    while i < n
        invariant
            n == old(bullets)@.len(),
            bullets@.len() == n,
            0 <= i <= n,
            forall|j: int| 0 <= j < i ==> bullets@[j] == moved_bullet(old(bullets)@[j], dt_ms as int),
            forall|j: int| i <= j < n ==> bullets@[j] == old(bullets)@[j],
        decreases n - i,
    {
        let b = bullets[i];
        let moved = Bullet {
            x: add_clamped(b.x, step(dir_dx(b.direction), BULLET_SPEED, dt_ms)),
            y: add_clamped(b.y, step(dir_dy(b.direction), BULLET_SPEED, dt_ms)),
            direction: b.direction,
        };
        bullets.set(i, moved);
        i += 1;
    }
}

/// The horizontal direction that the intents ask for: left and right add
/// up, so both together cancel out.
pub open spec fn intent_dx(input: Intents) -> int {
    (if input.move_left { -1int } else { 0int }) + (if input.move_right { 1int } else { 0int })
}

/// Where the player is after one tick of movement.
pub open spec fn moved_player(p: Player, input: Intents, dt_ms: int) -> Player {
    Player { x: clamp_i64(p.x + intent_dx(input) * PLAYER_SPEED * dt_ms) as i64, y: p.y }
}

/// Moves the player, if there is one, horizontally by the input's direction.
pub fn player_movement(player: &mut Option<Player>, input: &Intents, dt_ms: u32)
    ensures
        *final(player) == match *old(player) {
            Some(p) => Some(moved_player(p, *input, dt_ms as int)),
            None => None,
        },
{
    if let Some(p) = *player {
        let mut d: i64 = 0;
        if input.move_left {
            d = d - 1;
        }
        if input.move_right {
            d = d + 1;
        }
        assert(d == intent_dx(*input));
        if d != 0 {
            let x = add_clamped(p.x, step(d, PLAYER_SPEED, dt_ms));
            *player = Some(Player { x, y: p.y });
        } else {
            assert(d * PLAYER_SPEED * dt_ms == 0) by (nonlinear_arith)
                requires
                    d == 0,
            ;
        }
    }
}

/// The least x at which the player stays fully on the surface.
pub open spec fn player_x_min() -> int {
    PLAYER_WIDTH / 2
}

/// The greatest x at which the player stays fully on the surface.
pub open spec fn player_x_max(width: int) -> int {
    width - PLAYER_WIDTH / 2
}

/// `x` confined to the surface: raised to the lower bound first, else
/// lowered to the upper one.
pub open spec fn confine_x(x: int, width: int) -> int {
    if x < player_x_min() {
        player_x_min()
    } else if x > player_x_max(width) {
        player_x_max(width)
    } else {
        x
    }
}

/// Keeps the player, if there is one, within the surface's width. Fails
/// when a player exists and the surface is missing.
pub fn confine_player(player: &mut Option<Player>, surface: Option<Surface>) -> (r: Result<(), SurfaceError>)
    ensures
        r is Err <==> (old(player).is_some() && surface.is_none()),
        r is Err ==> *final(player) == *old(player),
        match (*old(player), surface) {
            (None, _) => *final(player) == *old(player),
            (Some(p), Some(s)) => *final(player) == Some(Player { x: confine_x(p.x as int, s.width as int) as i64, y: p.y }),
            _ => true,
        },
        match (*final(player), surface) {
            (Some(p), Some(s)) => s.width >= PLAYER_WIDTH ==> player_x_min() <= p.x <= player_x_max(s.width as int),
            _ => true,
        },
{
    if let Some(p) = *player {
        match surface {
            None => {
                return Err(SurfaceError::MissingPrimarySurface);
            },
            Some(s) => {
                let xmin: i64 = PLAYER_WIDTH / 2;
                let xmax: i64 = s.width as i64 - PLAYER_WIDTH / 2;
                let mut x = p.x;
                if x < xmin {
                    x = xmin;
                } else if x > xmax {
                    x = xmax;
                }
                *player = Some(Player { x, y: p.y });
            },
        }
    }
    Ok(())
}

/// Creates the player centred horizontally, one player height above the
/// bottom edge.
pub fn spawn_player(surface: Option<Surface>) -> (r: Result<Player, SurfaceError>)
    ensures
        match surface {
            None => r == Err::<Player, SurfaceError>(SurfaceError::MissingPrimarySurface),
            Some(s) => r == Ok::<Player, SurfaceError>(Player { x: (s.width / 2) as i64, y: PLAYER_HEIGHT }),
        },
{
    match surface {
        None => Err(SurfaceError::MissingPrimarySurface),
        Some(s) => Ok(Player { x: (s.width / 2) as i64, y: PLAYER_HEIGHT }),
    }
}

} // verus!

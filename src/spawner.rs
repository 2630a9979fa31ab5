//! Non-overlapping placement of enemies along the top edge.
//!
//! A position is drawn at random a bounded number of times; when every draw
//! collides, the slots of a fixed tiling of the band are scanned in order.
use vstd::prelude::*;
use vstd::set_lib::{lemma_len_subset, lemma_len_union};

use crate::entities::{Direction, Enemy, Surface};
use crate::geometry::abs_int;
use crate::{ENEMY_COUNT, ENEMY_HEIGHT, ENEMY_WIDTH};

verus! {

/// Random draws made for one enemy before the tiling is scanned.
pub const MAX_DRAWS: u32 = 32;

/// Why enemies could not be placed.
#[derive(Clone, Copy, Debug, PartialEq, Eq, Structural)]
pub enum SpawnError {
    MissingPrimarySurface,
    SpawnPlacementExhausted,
}

/// Two enemies whose centres are at `a` and `b` collide for placement when
/// their horizontal extents meet; touching edges count.
pub open spec fn collides_x(a: int, b: int) -> bool {
    abs_int(a - b) <= ENEMY_WIDTH
}

/// Whether an enemy at `x` would collide with one of `placed`.
pub open spec fn collides_with_any(x: int, placed: Seq<Enemy>) -> bool {
    exists|i: int| 0 <= i < placed.len() && collides_x(x, placed[i].x as int)
}

/// No two enemies of `v` collide.
pub open spec fn spread(v: Seq<Enemy>) -> bool {
    forall|i: int, j: int| 0 <= i < j < v.len() ==> !collides_x(v[i].x as int, v[j].x as int)
}

/// In a population where no two enemies collide, any two centres are at
/// least one enemy width apart.
pub proof fn lemma_spread_separated(v: Seq<Enemy>, i: int, j: int)
    requires
        spread(v),
        0 <= i < v.len(),
        0 <= j < v.len(),
        i != j,
    ensures
        abs_int(v[i].x - v[j].x) >= ENEMY_WIDTH,
{
    if i < j {
        assert(!collides_x(v[i].x as int, v[j].x as int));
    } else {
        assert(!collides_x(v[j].x as int, v[i].x as int));
    }
}

/// The centre of the `k`-th slot of the fallback tiling.
pub open spec fn slot_x(k: int) -> int {
    ENEMY_WIDTH / 2 + k * (ENEMY_WIDTH + 1)
}

/// How many slots of the tiling fit on a surface of this width.
pub open spec fn slot_count(width: int) -> int {
    if width >= ENEMY_WIDTH {
        (width - ENEMY_WIDTH) / (ENEMY_WIDTH + 1) + 1
    } else {
        0
    }
}

/// A surface wide enough that a full population always finds room.
pub open spec fn roomy(width: int) -> bool {
    slot_count(width) > 2 * (ENEMY_COUNT - 1)
}

/// The `i`-th enemy of `v` was placed on the top band of `s`, fully on the
/// surface and clear of every enemy before it.
pub open spec fn placed_well(v: Seq<Enemy>, i: int, s: Surface) -> bool {
    &&& v[i].y == s.height - ENEMY_HEIGHT
    &&& v[i].direction == Direction::Down
    &&& ENEMY_WIDTH / 2 <= v[i].x <= s.width - ENEMY_WIDTH / 2
    &&& !collides_with_any(v[i].x as int, v.take(i))
}

/// Relies on rand::random: a u64 drawn from the thread-local generator.
#[verifier::external_body]
fn draw_u64() -> (r: u64) {
    rand::random::<u64>()
}

/// Whether an enemy at `x` would collide with one already placed.
pub fn enemy_has_collision(x: i64, placed: &Vec<Enemy>) -> (r: bool)
    ensures
        r == collides_with_any(x as int, placed@),
{
    let buffer: i128 = (ENEMY_WIDTH / 2) as i128;
    let left: i128 = x as i128 - buffer;
    let right: i128 = x as i128 + buffer;
    let mut i: usize = 0;
    while i < placed.len()
        invariant
            0 <= i <= placed@.len(),
            buffer == ENEMY_WIDTH / 2,
            left == x - buffer,
            right == x + buffer,
            forall|j: int| 0 <= j < i ==> !collides_x(x as int, placed@[j].x as int),
        decreases placed@.len() - i,
    {
        let p = placed[i].x as i128;
        let fully_left = right < p - buffer;
        let fully_right = left > p + buffer;
        if !(fully_left || fully_right) {
            return true;
        }
        i += 1;
    }
    false
}

/// A slot is collided with by an enemy at `s` only when it is one of the two
/// slots around `s`.
proof fn lemma_blocked_slots(s: int, k: int)
    requires
        collides_x(slot_x(k), s),
    ensures
        k == (s - ENEMY_WIDTH / 2) / (ENEMY_WIDTH + 1) || k == (s - ENEMY_WIDTH / 2) / (
        ENEMY_WIDTH + 1) + 1,
{
    let q = (s - ENEMY_WIDTH / 2) / (ENEMY_WIDTH + 1);
    let r = (s - ENEMY_WIDTH / 2) % (ENEMY_WIDTH + 1);
    vstd::arithmetic::div_mod::lemma_fundamental_div_mod(s - ENEMY_WIDTH / 2, ENEMY_WIDTH + 1);
    assert(-50000 <= (k - q) * 50001 - r <= 50000);
    assert(0 <= r < 50001);
    assert(k - q == 0 || k - q == 1) by (nonlinear_arith)
        requires
            -50000 <= (k - q) * 50001 - r <= 50000,
            0 <= r < 50001,
    ;
}

/// Among more than twice as many slots as there are placed enemies, one is
/// clear of all of them.
proof fn lemma_free_slot_in(placed: Seq<Enemy>, t: Set<int>)
    requires
        t.finite(),
        t.len() > 2 * placed.len(),
    ensures
        exists|k: int| t.contains(k) && !collides_with_any(slot_x(k), placed),
    decreases placed.len(),
{
    if placed.len() == 0 {
        assert(!(t =~= Set::empty()));
        let k = t.choose();
        assert(t.contains(k));
        assert(!collides_with_any(slot_x(k), placed));
    } else {
        let n = placed.len() - 1;
        let s = placed[n].x as int;
        let rest = placed.drop_last();
        let k0 = (s - ENEMY_WIDTH / 2) / (ENEMY_WIDTH + 1);
        let b = Set::empty().insert(k0).insert(k0 + 1);
        let t2 = t.difference(b);
        assert(b.len() == 2);
        lemma_len_subset(t2, t);
        lemma_len_union(t2, b);
        assert(t.subset_of(t2.union(b)));
        lemma_len_subset(t, t2.union(b));
        lemma_free_slot_in(rest, t2);
        let k = choose|k: int| t2.contains(k) && !collides_with_any(slot_x(k), rest);
        if collides_x(slot_x(k), s) {
            lemma_blocked_slots(s, k);
        }
        assert forall|i: int| 0 <= i < placed.len() implies !collides_x(
            slot_x(k),
            placed[i].x as int,
        ) by {
            if i < n {
                assert(placed[i] == rest[i]);
            }
        }
        assert(t.contains(k));
    }
}

/// A surface with more slots than twice the placed enemies has a free slot.
proof fn lemma_free_slot_exists(placed: Seq<Enemy>, width: int)
    requires
        slot_count(width) > 2 * placed.len(),
    ensures
        exists|k: int| 0 <= k < slot_count(width) && !collides_with_any(slot_x(k), placed),
{
    let t = vstd::set_lib::set_int_range(0, slot_count(width));
    vstd::set_lib::lemma_int_range(0, slot_count(width));
    lemma_free_slot_in(placed, t);
}

/// Picks the x of one more enemy on a surface of this width, clear of every
/// enemy in `placed`.
pub fn place_enemy(placed: &Vec<Enemy>, width: u32) -> (r: Result<i64, SpawnError>)
    ensures
        r matches Ok(x) ==> ENEMY_WIDTH / 2 <= x <= width - ENEMY_WIDTH / 2 && !collides_with_any(
            x as int,
            placed@,
        ),
        r is Err ==> r == Err::<i64, SpawnError>(SpawnError::SpawnPlacementExhausted) && forall|
            k: int,
        | 0 <= k < slot_count(width as int) ==> collides_with_any(slot_x(k), placed@),
        slot_count(width as int) > 2 * placed@.len() ==> r is Ok,
{
    if (width as i64) < ENEMY_WIDTH {
        return Err(SpawnError::SpawnPlacementExhausted);
    }
    let span: u64 = (width as i64 - ENEMY_WIDTH) as u64;
    let mut tries: u32 = 0;
    while tries < MAX_DRAWS
        invariant
            span == width - ENEMY_WIDTH,
        decreases MAX_DRAWS - tries,
    {
        let draw = draw_u64();
        let x: i64 = ENEMY_WIDTH / 2 + (draw % (span + 1)) as i64;
        if !enemy_has_collision(x, placed) {
            return Ok(x);
        }
        tries += 1;
    }
    let count: u64 = span / (ENEMY_WIDTH as u64 + 1) + 1;
    assert(count == slot_count(width as int));
    let mut k: u64 = 0;
    while k < count
        invariant
            count == slot_count(width as int),
            span == width - ENEMY_WIDTH,
            0 <= k <= count,
            forall|j: int| 0 <= j < k ==> collides_with_any(slot_x(j), placed@),
        decreases count - k,
    {
        assert(k * 50001 <= span) by (nonlinear_arith)
            requires
                k < count,
                count == span / 50001 + 1,
        ;
        let x: i64 = ENEMY_WIDTH / 2 + (k as i64) * (ENEMY_WIDTH + 1);
        if !enemy_has_collision(x, placed) {
            return Ok(x);
        }
        k += 1;
    }
    proof {
        if slot_count(width as int) > 2 * placed@.len() {
            lemma_free_slot_exists(placed@, width as int);
        }
    }
    Err(SpawnError::SpawnPlacementExhausted)
}

/// Adds enemies to `enemies` until the target population is reached, each
/// clear of all those before it.
fn fill_enemies(enemies: &mut Vec<Enemy>, s: Surface) -> (r: Result<(), SpawnError>)
    requires
        old(enemies)@.len() <= ENEMY_COUNT,
    ensures
        old(enemies)@.len() <= final(enemies)@.len() <= ENEMY_COUNT,
        final(enemies)@.take(old(enemies)@.len() as int) == old(enemies)@,
        forall|i: int|
            old(enemies)@.len() <= i < final(enemies)@.len() ==> placed_well(final(enemies)@, i, s),
        spread(old(enemies)@) ==> spread(final(enemies)@),
        r is Ok <==> final(enemies)@.len() == ENEMY_COUNT,
        r is Err ==> r == Err::<(), SpawnError>(SpawnError::SpawnPlacementExhausted),
        roomy(s.width as int) ==> r is Ok,
{
    let ghost start = enemies@;
    while enemies.len() < ENEMY_COUNT
        invariant
            start == old(enemies)@,
            start.len() <= enemies@.len() <= ENEMY_COUNT,
            enemies@.take(start.len() as int) == start,
            forall|i: int| start.len() <= i < enemies@.len() ==> placed_well(enemies@, i, s),
            spread(start) ==> spread(enemies@),
        decreases ENEMY_COUNT - enemies@.len(),
    {
        match place_enemy(enemies, s.width) {
            Ok(x) => {
                let ghost before = enemies@;
                enemies.push(Enemy { x, y: s.height as i64 - ENEMY_HEIGHT, direction: Direction::Down });
                proof {
                    let n = before.len() as int;
                    assert(enemies@.take(n) =~= before);
                    assert(enemies@.take(start.len() as int) =~= before.take(start.len() as int));
                    assert forall|i: int| start.len() <= i < enemies@.len() implies placed_well(
                        enemies@,
                        i,
                        s,
                    ) by {
                        if i < n {
                            assert(enemies@.take(i) =~= before.take(i));
                            assert(enemies@[i] == before[i]);
                            assert(placed_well(before, i, s));
                        } else {
                            assert(i == n);
                            assert(enemies@[i].x == x);
                            assert(!collides_with_any(x as int, enemies@.take(i)));
                        }
                    }
                    if spread(start) {
                        assert forall|i: int, j: int|
                            0 <= i < j < enemies@.len() implies !collides_x(
                            enemies@[i].x as int,
                            enemies@[j].x as int,
                        ) by {
                            if j == n {
                                assert(before[i] == enemies@[i]);
                                assert(!collides_x(x as int, before[i].x as int));
                            }
                        }
                    }
                }
            },
            Err(e) => {
                return Err(e);
            },
        }
    }
    Ok(())
}

/// Places the initial population on the top band of the surface.
pub fn spawn_enemies(surface: Option<Surface>) -> (r: Result<Vec<Enemy>, SpawnError>)
    ensures
        surface is None <==> r == Err::<Vec<Enemy>, SpawnError>(SpawnError::MissingPrimarySurface),
        r matches Ok(v) ==> v@.len() == ENEMY_COUNT && spread(v@) && forall|i: int|
            0 <= i < v@.len() ==> placed_well(v@, i, surface.unwrap()),
        r is Err && surface is Some ==> r == Err::<Vec<Enemy>, SpawnError>(
            SpawnError::SpawnPlacementExhausted,
        ),
        surface matches Some(s) && roomy(s.width as int) ==> r is Ok,
{
    match surface {
        None => Err(SpawnError::MissingPrimarySurface),
        Some(s) => {
            let mut enemies: Vec<Enemy> = Vec::new();
            match fill_enemies(&mut enemies, s) {
                Ok(()) => Ok(enemies),
                Err(e) => Err(e),
            }
        },
    }
}

/// Brings the population back up to its target, placing each new enemy
/// clear of the live ones and of those placed before it. Does nothing when
/// the population is already at its target.
pub fn respawn_enemies(enemies: &mut Vec<Enemy>, surface: Option<Surface>) -> (r: Result<(), SpawnError>)
    ensures
        old(enemies)@.len() >= ENEMY_COUNT ==> r is Ok && final(enemies)@ == old(enemies)@,
        old(enemies)@.len() < ENEMY_COUNT && surface is None ==> r == Err::<(), SpawnError>(
            SpawnError::MissingPrimarySurface,
        ) && final(enemies)@ == old(enemies)@,
        old(enemies)@.len() < ENEMY_COUNT && surface is Some ==> {
            &&& final(enemies)@.take(old(enemies)@.len() as int) == old(enemies)@
            &&& old(enemies)@.len() <= final(enemies)@.len() <= ENEMY_COUNT
            &&& forall|i: int|
                old(enemies)@.len() <= i < final(enemies)@.len() ==> placed_well(
                    final(enemies)@,
                    i,
                    surface.unwrap(),
                )
            &&& r is Ok <==> final(enemies)@.len() == ENEMY_COUNT
            &&& r is Err ==> r == Err::<(), SpawnError>(SpawnError::SpawnPlacementExhausted)
            &&& roomy(surface.unwrap().width as int) ==> r is Ok
        },
        spread(old(enemies)@) ==> spread(final(enemies)@),
{
    if enemies.len() >= ENEMY_COUNT {
        return Ok(());
    }
    match surface {
        None => Err(SpawnError::MissingPrimarySurface),
        Some(s) => fill_enemies(enemies, s),
    }
}

} // verus!

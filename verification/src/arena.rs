//! The arena: the player, the live enemies, and the two session counters.

use vstd::prelude::*;
use crate::angle::FULL_TURN;
use crate::angle::HALF_TURN;
use crate::angle::reverse_heading;
use crate::angle::rotate_ccw;
use crate::angle::rotate_cw;
use crate::angle::rotated;
use crate::angle::spec_turn_delta;
use crate::angle::steered_yaw;
use crate::angle::turn_delta;
use crate::random::choose_position;
use crate::random::random_index;
use crate::vehicle::drive_force;
use crate::vehicle::ENEMY_SPEED;
use crate::vehicle::Force;
use crate::vehicle::PLAYER_SPEED;
use crate::vehicle::Position;
use crate::vehicle::Role;
use crate::vehicle::spec_drive_force;
use crate::vehicle::VARIANT_COUNT;
use crate::vehicle::Vehicle;

verus! {

/// Below this forward clearance, in thousandths of a world unit, a vehicle
/// reverses its heading (2.5 world units).
pub const REVERSE_THRESHOLD_MILLI: u32 = 2500;

/// Whether a forward ray result reverses a vehicle: there is a nearest hit,
/// it is not degenerate (at the ray origin itself), and it is closer than
/// the avoidance threshold.
pub open spec fn hit_reverses(nearest_hit: Option<u32>) -> bool {
    &&& nearest_hit is Some
    &&& 0 < nearest_hit->Some_0 < REVERSE_THRESHOLD_MILLI
}

/// The heading of one vehicle after boundary avoidance, given the distance
/// of its nearest forward obstruction in thousandths of a world unit.
pub open spec fn spec_boundary_yaw(yaw: int, nearest_hit: Option<u32>) -> int {
    if hit_reverses(nearest_hit) {
        rotated(yaw, HALF_TURN as int)
    } else {
        yaw
    }
}

/// How one tick of autonomous driving relates an enemy to its prior state:
/// identity, role, spawn point and variant stay; the heading rotates one
/// turn delta, with the side picked by a fresh coin; the force driving the
/// body for this tick points opposite the prior heading at the enemy speed.
pub open spec fn enemy_stepped(before: Vehicle, after: Vehicle, f: Force, dt_ms: int) -> bool {
    &&& after.id == before.id
    &&& after.role == before.role
    &&& after.pos == before.pos
    &&& after.variant == before.variant
    &&& (after.yaw == rotated(before.yaw as int, spec_turn_delta(dt_ms))
        || after.yaw == rotated(before.yaw as int, -spec_turn_delta(dt_ms)))
    &&& f == spec_drive_force(before.yaw as int, ENEMY_SPEED)
}

/// How boundary avoidance relates a vehicle to its prior state, given its
/// forward ray result.
pub open spec fn boundary_stepped(before: Vehicle, after: Vehicle, nearest_hit: Option<u32>) -> bool {
    &&& after.id == before.id
    &&& after.role == before.role
    &&& after.pos == before.pos
    &&& after.variant == before.variant
    &&& after.yaw == spec_boundary_yaw(before.yaw as int, nearest_hit)
}

/// The heading of one vehicle after boundary avoidance: reversed by exactly
/// half a turn when the nearest forward obstruction is real and closer than
/// the threshold, untouched otherwise (farther, absent, or at the origin).
pub fn boundary_check(yaw: u32, nearest_hit: Option<u32>) -> (r: u32)
    requires
        yaw < FULL_TURN,
    ensures
        r == spec_boundary_yaw(yaw as int, nearest_hit),
        r < FULL_TURN,
{
    match nearest_hit {
        Some(d) => {
            if 0 < d && d < REVERSE_THRESHOLD_MILLI {
                reverse_heading(yaw)
            } else {
                yaw
            }
        },
        None => yaw,
    }
}

/// What the external collaborators must do for a freshly spawned enemy:
/// create its physical body at `pos` with the standard vehicle properties,
/// attach the visual asset for `variant`, and tie both to identity `id`.
#[derive(Clone, Copy, PartialEq, Eq, Structural, Debug)]
pub struct SpawnOrder {
    pub id: u64,
    pub pos: Position,
    pub variant: usize,
}

/// Most enemies that may be alive at once.
pub const ENEMY_CAP: usize = 5;

/// The whole simulation state of one session.
pub struct World {
    /// The one player vehicle; it lives for the whole session.
    pub player: Vehicle,
    /// The live enemy vehicles, in spawn order.
    pub enemies: Vec<Vehicle>,
    /// The live enemy population; equals `enemies.len()` and never exceeds
    /// `ENEMY_CAP`.
    pub enemy_count: usize,
    /// Enemies destroyed so far; never decreases within a session.
    pub score: usize,
    /// The identity the next spawned enemy will get; larger than every id in
    /// use, so ids never repeat within a session.
    pub next_id: u64,
}

/// The fixed spawn layout: four points near the arena's corners.
pub open spec fn spawn_point_seq() -> Seq<Position> {
    seq![
        Position { x: 15, y: 2, z: 15 },
        Position { x: 15, y: 2, z: -15i32 },
        Position { x: -15i32, y: 2, z: 15 },
        Position { x: -15i32, y: 2, z: -15i32 },
    ]
}

/// The fixed spawn points, as a vector for random selection.
pub fn spawn_points() -> (pts: Vec<Position>)
    ensures
        pts@ == spawn_point_seq(),
{
    let mut pts: Vec<Position> = Vec::new();
    pts.push(Position { x: 15, y: 2, z: 15 });
    pts.push(Position { x: 15, y: 2, z: -15 });
    pts.push(Position { x: -15, y: 2, z: 15 });
    pts.push(Position { x: -15, y: 2, z: -15 });
    proof {
        assert(pts@ =~= spawn_point_seq());
    }
    pts
}

impl World {
    /// Well-formedness of a session state: one player, every enemy tagged and
    /// normalised, the population counter exact and capped, and all ids
    /// distinct and below `next_id`.
    pub open spec fn wf(self) -> bool {
        &&& self.player.role == Role::Player
        &&& self.player.valid()
        &&& self.player.id < self.next_id
        &&& self.enemy_count == self.enemies@.len()
        &&& self.enemy_count <= ENEMY_CAP
        &&& forall|i: int| 0 <= i < self.enemies@.len() ==> (#[trigger] self.enemies@[i]).role == Role::Enemy
        &&& forall|i: int| 0 <= i < self.enemies@.len() ==> (#[trigger] self.enemies@[i]).valid()
        &&& forall|i: int| 0 <= i < self.enemies@.len() ==> (#[trigger] self.enemies@[i]).id < self.next_id
        &&& forall|i: int| 0 <= i < self.enemies@.len() ==> (#[trigger] self.enemies@[i]).id != self.player.id
        &&& forall|i: int, j: int|
                0 <= i < self.enemies@.len() && 0 <= j < self.enemies@.len() && i != j
                    ==> (#[trigger] self.enemies@[i]).id != (#[trigger] self.enemies@[j]).id
    }

    /// Whether `id` is the player's body.
    pub open spec fn is_player_id(self, id: u64) -> bool {
        id == self.player.id
    }

    /// Whether a live enemy has identity `id`.
    pub open spec fn has_enemy(self, id: u64) -> bool {
        exists|i: int| 0 <= i < self.enemies@.len() && (#[trigger] self.enemies@[i]).id == id
    }

    /// A qualifying collision: exactly the contacts where one side is the
    /// player and the other a live enemy.
    pub open spec fn qualifying(self, a: u64, b: u64) -> bool {
        ||| self.is_player_id(a) && self.has_enemy(b)
        ||| self.is_player_id(b) && self.has_enemy(a)
    }

    /// The struck side of a contact that involves the player: the body that
    /// is not the player.
    pub open spec fn struck_id(self, a: u64, b: u64) -> u64 {
        if self.is_player_id(a) {
            b
        } else {
            a
        }
    }

    /// A fresh session: the player at its starting point, no enemies, no
    /// score.
    pub fn new() -> (w: World)
        ensures
            w.wf(),
            w.score == 0,
            w.enemy_count == 0,
            w.enemies@.len() == 0,
            w.player.role == Role::Player,
            w.player.id == 0,
            w.player.yaw == 0,
            w.player.pos == (Position { x: 4, y: 2, z: 0 }),
            w.next_id == 1,
    {
        World {
            player: Vehicle {
                id: 0,
                role: Role::Player,
                yaw: 0,
                pos: Position { x: 4, y: 2, z: 0 },
                variant: 0,
            },
            enemies: Vec::new(),
            enemy_count: 0,
            score: 0,
            next_id: 1,
        }
    }

    /// One tick of the spawn manager.  Below the population cap it creates
    /// one enemy, at a spawn point and with a visual variant both chosen at
    /// random, and increments the population by exactly one; at the cap it
    /// does nothing.  The returned order tells the external collaborators
    /// what to create.
    pub fn spawn_tick(&mut self) -> (r: Option<SpawnOrder>)
        requires
            old(self).wf(),
            old(self).next_id < u64::MAX,
        ensures
            final(self).wf(),
            final(self).score == old(self).score,
            final(self).player == old(self).player,
            old(self).enemy_count >= ENEMY_CAP ==> *final(self) == *old(self) && r is None,
            old(self).enemy_count < ENEMY_CAP ==> {
                let spawned = final(self).enemies@.last();
                &&& final(self).enemy_count == old(self).enemy_count + 1
                &&& final(self).enemies@ == old(self).enemies@.push(spawned)
                &&& spawned.id == old(self).next_id
                &&& spawned.role == Role::Enemy
                &&& spawned.yaw == 0
                &&& spawn_point_seq().contains(spawned.pos)
                &&& spawned.variant < VARIANT_COUNT
                &&& final(self).next_id == old(self).next_id + 1
                &&& r == Some(SpawnOrder { id: spawned.id, pos: spawned.pos, variant: spawned.variant })
            },
    {
        if self.enemy_count >= ENEMY_CAP {
            return None;
        }
        let pts = spawn_points();
        let pos = match choose_position(&pts) {
            Some(p) => p,
            None => {
                proof {
                    assert(pts@.len() > 0);
                }
                // unreachable: the spawn layout is never empty
                return None;
            },
        };
        let variant = random_index(VARIANT_COUNT);
        let spawned = Vehicle { id: self.next_id, role: Role::Enemy, yaw: 0, pos, variant };
        self.enemies.push(spawned);
        self.enemy_count = self.enemy_count + 1;
        self.next_id = self.next_id + 1;
        Some(SpawnOrder { id: spawned.id, pos: spawned.pos, variant: spawned.variant })
    }

    /// The collision reactor for one contact event between bodies `a` and
    /// `b`.  Exactly on a qualifying contact — one side the player, the other
    /// a live enemy — the enemy is removed, the population drops by one and
    /// the score rises by one; every other contact leaves the session
    /// untouched.  The returned outcome tells the external collaborators to
    /// play the destruction effect and release the named body.
    pub fn process_collision(&mut self, a: u64, b: u64) -> (r: CollisionOutcome)
        requires
            old(self).wf(),
            old(self).score < usize::MAX,
        ensures
            final(self).wf(),
            final(self).player == old(self).player,
            final(self).next_id == old(self).next_id,
            final(self).score >= old(self).score,
            !old(self).qualifying(a, b) ==> *final(self) == *old(self) && r == CollisionOutcome::Ignored,
            old(self).qualifying(a, b) ==> {
                let victim = old(self).struck_id(a, b);
                &&& r == CollisionOutcome::EnemyDestroyed(victim)
                &&& final(self).score == old(self).score + 1
                &&& old(self).enemy_count >= 1
                &&& final(self).enemy_count == old(self).enemy_count - 1
                &&& !final(self).has_enemy(victim)
                &&& exists|i: int|
                        0 <= i < old(self).enemies@.len()
                            && (#[trigger] old(self).enemies@[i]).id == victim
                            && final(self).enemies@ == old(self).enemies@.remove(i)
            },
    {
        let victim: u64 = if a == self.player.id {
            b
        } else if b == self.player.id {
            a
        } else {
            // neither side is the player: not a qualifying contact
            return CollisionOutcome::Ignored;
        };
        let mut i: usize = 0;
        while i < self.enemies.len()
            invariant
                *self == *old(self),
                old(self).wf(),
                old(self).score < usize::MAX,
                i <= self.enemies@.len(),
                old(self).is_player_id(a) || old(self).is_player_id(b),
                victim == old(self).struck_id(a, b),
                forall|j: int| 0 <= j < i ==> (#[trigger] self.enemies@[j]).id != victim,
            decreases self.enemies@.len() - i,
        {
            if self.enemies[i].id == victim {
                self.enemies.remove(i);
                self.enemy_count = self.enemy_count - 1;
                self.score = self.score + 1;
                proof {
                    assert(old(self).has_enemy(victim));
                    assert forall|j: int| 0 <= j < self.enemies@.len()
                        implies (#[trigger] self.enemies@[j]).id != victim by {
                        if j < i {
                            assert(self.enemies@[j] == old(self).enemies@[j]);
                        } else {
                            assert(self.enemies@[j] == old(self).enemies@[j + 1]);
                        }
                    }
                }
                return CollisionOutcome::EnemyDestroyed(victim);
            }
            i = i + 1;
        }
        // the struck body is no live enemy: not a qualifying contact
        proof {
            assert(!old(self).has_enemy(victim));
        }
        CollisionOutcome::Ignored
    }

    /// One tick of player locomotion.  The held steering controls rotate the
    /// heading kinematically, then the returned force — the horizontal
    /// forward direction scaled by minus the player speed — is what the
    /// physics engine must drive the player's body with for this tick only.
    pub fn player_tick(&mut self, left_held: bool, right_held: bool, dt_ms: u32) -> (f: Force)
        requires
            old(self).wf(),
        ensures
            final(self).wf(),
            final(self).score == old(self).score,
            final(self).enemy_count == old(self).enemy_count,
            final(self).enemies == old(self).enemies,
            final(self).next_id == old(self).next_id,
            final(self).player.id == old(self).player.id,
            final(self).player.role == old(self).player.role,
            final(self).player.pos == old(self).player.pos,
            final(self).player.variant == old(self).player.variant,
            final(self).player.yaw == steered_yaw(
                old(self).player.yaw as int,
                left_held,
                right_held,
                dt_ms as int,
            ),
            f == spec_drive_force(final(self).player.yaw as int, PLAYER_SPEED),
    {
        let d = turn_delta(dt_ms);
        let mut yaw = self.player.yaw;
        if left_held {
            yaw = rotate_ccw(yaw, d);
        }
        if right_held {
            yaw = rotate_cw(yaw, d);
        }
        self.player.yaw = yaw;
        drive_force(yaw, PLAYER_SPEED)
    }

    /// One tick of autonomous enemy driving.  Every enemy is driven forward
    /// by a force opposite its current heading at the enemy speed, and turns
    /// one tick's delta to a side chosen by a fresh coin — independently per
    /// enemy and per tick.  The returned forces, one per enemy in order, are
    /// what the physics engine must apply for this tick only.
    pub fn enemy_tick(&mut self, dt_ms: u32) -> (forces: Vec<Force>)
        requires
            old(self).wf(),
        ensures
            final(self).wf(),
            final(self).score == old(self).score,
            final(self).enemy_count == old(self).enemy_count,
            final(self).player == old(self).player,
            final(self).next_id == old(self).next_id,
            final(self).enemies@.len() == old(self).enemies@.len(),
            forces@.len() == old(self).enemies@.len(),
            forall|i: int|
                0 <= i < old(self).enemies@.len()
                    ==> #[trigger] enemy_stepped(
                        old(self).enemies@[i],
                        final(self).enemies@[i],
                        forces@[i],
                        dt_ms as int,
                    ),
    {
        let d = turn_delta(dt_ms);
        let n = self.enemies.len();
        let mut updated: Vec<Vehicle> = Vec::new();
        let mut forces: Vec<Force> = Vec::new();
        let mut i: usize = 0;
        while i < n
            invariant
                *self == *old(self),
                old(self).wf(),
                n == self.enemies@.len(),
                d == spec_turn_delta(dt_ms as int),
                d < FULL_TURN,
                i <= n,
                updated@.len() == i,
                forces@.len() == i,
                forall|j: int|
                    0 <= j < i
                        ==> #[trigger] enemy_stepped(
                            old(self).enemies@[j],
                            updated@[j],
                            forces@[j],
                            dt_ms as int,
                        ),
            decreases n - i,
        {
            let v = self.enemies[i];
            let f = drive_force(v.yaw, ENEMY_SPEED);
            forces.push(f);
            let coin = random_index(2);
            let new_yaw = if coin == 0 {
                rotate_ccw(v.yaw, d)
            } else {
                rotate_cw(v.yaw, d)
            };
            updated.push(Vehicle { yaw: new_yaw, ..v });
            i = i + 1;
        }
        self.enemies = updated;
        proof {
            assert forall|k: int| 0 <= k < self.enemies@.len() implies
                ((#[trigger] self.enemies@[k]).role == Role::Enemy
                    && self.enemies@[k].valid()
                    && self.enemies@[k].id < self.next_id
                    && self.enemies@[k].id != self.player.id) by {
                assert(enemy_stepped(
                    old(self).enemies@[k],
                    self.enemies@[k],
                    forces@[k],
                    dt_ms as int,
                ));
            }
            assert forall|k: int, l: int|
                0 <= k < self.enemies@.len() && 0 <= l < self.enemies@.len() && k != l implies
                (#[trigger] self.enemies@[k]).id != (#[trigger] self.enemies@[l]).id by {
                assert(enemy_stepped(
                    old(self).enemies@[k],
                    self.enemies@[k],
                    forces@[k],
                    dt_ms as int,
                ));
                assert(enemy_stepped(
                    old(self).enemies@[l],
                    self.enemies@[l],
                    forces@[l],
                    dt_ms as int,
                ));
            }
        }
        forces
    }

    /// One tick of boundary avoidance, applied uniformly to every vehicle.
    /// `player_hit` and `enemy_hits` carry the distance, in thousandths of a
    /// world unit, of each vehicle's nearest forward obstruction as the
    /// physics engine's ray cast reported it, `None` where the ray hit
    /// nothing in range.  A vehicle closer to an obstruction than the
    /// threshold has its heading reversed by exactly half a turn.
    pub fn boundary_tick(&mut self, player_hit: Option<u32>, enemy_hits: &Vec<Option<u32>>)
        requires
            old(self).wf(),
            enemy_hits@.len() == old(self).enemies@.len(),
        ensures
            final(self).wf(),
            final(self).score == old(self).score,
            final(self).enemy_count == old(self).enemy_count,
            final(self).next_id == old(self).next_id,
            boundary_stepped(old(self).player, final(self).player, player_hit),
            final(self).enemies@.len() == old(self).enemies@.len(),
            forall|i: int|
                0 <= i < old(self).enemies@.len()
                    ==> #[trigger] boundary_stepped(
                        old(self).enemies@[i],
                        final(self).enemies@[i],
                        enemy_hits@[i],
                    ),
    {
        let new_player_yaw = boundary_check(self.player.yaw, player_hit);
        self.player.yaw = new_player_yaw;
        let n = self.enemies.len();
        let mut updated: Vec<Vehicle> = Vec::new();
        let mut i: usize = 0;
        while i < n
            invariant
                self.enemies == old(self).enemies,
                old(self).wf(),
                n == self.enemies@.len(),
                enemy_hits@.len() == n,
                i <= n,
                updated@.len() == i,
                forall|j: int|
                    0 <= j < i
                        ==> #[trigger] boundary_stepped(
                            old(self).enemies@[j],
                            updated@[j],
                            enemy_hits@[j],
                        ),
            decreases n - i,
        {
            let v = self.enemies[i];
            let new_yaw = boundary_check(v.yaw, enemy_hits[i]);
            updated.push(Vehicle { yaw: new_yaw, ..v });
            i = i + 1;
        }
        self.enemies = updated;
        proof {
            assert forall|k: int| 0 <= k < self.enemies@.len() implies
                ((#[trigger] self.enemies@[k]).role == Role::Enemy
                    && self.enemies@[k].valid()
                    && self.enemies@[k].id < self.next_id
                    && self.enemies@[k].id != self.player.id) by {
                assert(boundary_stepped(old(self).enemies@[k], self.enemies@[k], enemy_hits@[k]));
            }
            assert forall|k: int, l: int|
                0 <= k < self.enemies@.len() && 0 <= l < self.enemies@.len() && k != l implies
                (#[trigger] self.enemies@[k]).id != (#[trigger] self.enemies@[l]).id by {
                assert(boundary_stepped(old(self).enemies@[k], self.enemies@[k], enemy_hits@[k]));
                assert(boundary_stepped(old(self).enemies@[l], self.enemies@[l], enemy_hits@[l]));
            }
        }
    }
}

/// What the collision reactor asks of the external collaborators: nothing,
/// or — for a destroyed enemy — a one-shot destruction effect and the
/// release of the named body and its visual representation.
#[derive(Clone, Copy, PartialEq, Eq, Structural, Debug)]
pub enum CollisionOutcome {
    Ignored,
    EnemyDestroyed(u64),
}

} // verus!

//! Vehicles, their roles, and the forces that drive them.
//!
//! A vehicle is a role-tagged record: exactly one `Player` exists for a whole
//! session, enemies come and go under the population cap.  Positions are in
//! whole world units (the fixed spawn layout uses integer coordinates).  The
//! locomotion force for a tick is the vehicle's horizontal forward direction
//! scaled by minus its role speed, so it is carried as a heading — the
//! reversal of the vehicle's yaw — together with a magnitude.

use vstd::prelude::*;
use crate::angle::FULL_TURN;
use crate::angle::HALF_TURN;
use crate::angle::rotated;

verus! {

/// Forward speed of the player vehicle, in world units.
pub const PLAYER_SPEED: u32 = 30;

/// Forward speed of an enemy vehicle, in world units.
pub const ENEMY_SPEED: u32 = 10;

/// How many visual variants an enemy can be created with.
pub const VARIANT_COUNT: usize = 4;

/// A point of the arena, in whole world units.
#[derive(Clone, Copy, PartialEq, Eq, Structural, Debug)]
pub struct Position {
    pub x: i32,
    pub y: i32,
    pub z: i32,
}

/// The role a vehicle plays in the arena.
#[derive(Clone, Copy, PartialEq, Eq, Structural, Debug)]
pub enum Role {
    Player,
    Enemy,
}

/// A vehicle of the arena: its identity, role, heading, the point it was
/// created at, and the visual variant it was created with.  Its continuous
/// motion between ticks belongs to the external physics engine.
#[derive(Clone, Copy, PartialEq, Eq, Structural, Debug)]
pub struct Vehicle {
    pub id: u64,
    pub role: Role,
    pub yaw: u32,
    pub pos: Position,
    pub variant: usize,
}

/// The force a vehicle's body is driven by for one tick: a horizontal
/// heading in micro-turns and a magnitude in world units.
#[derive(Clone, Copy, PartialEq, Eq, Structural, Debug)]
pub struct Force {
    pub heading: u32,
    pub magnitude: u32,
}

impl Vehicle {
    /// A vehicle's heading is a normalised angle.
    pub open spec fn valid(self) -> bool {
        &&& self.yaw < FULL_TURN
        &&& self.variant < VARIANT_COUNT
    }
}

/// The locomotion force for a vehicle at heading `yaw` with role speed
/// `speed`: the horizontal forward direction scaled by `-speed`, that is,
/// magnitude `speed` pointing opposite the heading.
pub open spec fn spec_drive_force(yaw: int, speed: u32) -> Force {
    Force { heading: rotated(yaw, HALF_TURN as int) as u32, magnitude: speed }
}

/// The locomotion force for one tick of a vehicle at heading `yaw`.
pub fn drive_force(yaw: u32, speed: u32) -> (f: Force)
    requires
        yaw < FULL_TURN,
    ensures
        f == spec_drive_force(yaw as int, speed),
        f.heading < FULL_TURN,
{
    let heading = crate::angle::reverse_heading(yaw);
    Force { heading, magnitude: speed }
}

} // verus!

//! Cells of the grid, their placement in world units, and cardinal facings.

use vstd::prelude::*;

verus! {

/// Side length of one grid cell, in world units.
pub const GRID_CELL_SIZE: i64 = 64;

/// Half the side length of a cell.
pub const HALF_CELL_SIZE: i64 = 32;

/// Integer coordinates of a cell.
#[derive(Clone, Copy, Debug, PartialEq, Eq, Structural)]
pub struct Coords {
    pub x: i32,
    pub y: i32,
}

/// A point in world units.
#[derive(Clone, Copy, Debug, PartialEq, Eq, Structural)]
pub struct WorldPoint {
    pub x: i64,
    pub y: i64,
}

/// The four cardinal directions a robot can face.
#[derive(Clone, Copy, Debug, PartialEq, Eq, Structural)]
pub enum Rotation {
    North,
    East,
    South,
    West,
}

/// The logical cell a robot stands on.
#[derive(Clone, Copy, Debug, PartialEq, Eq, Structural)]
pub struct GridPosition {
    pub coords: Coords,
}

/// The logical facing of a robot.
#[derive(Clone, Copy, Debug, PartialEq, Eq, Structural)]
pub struct GridRotation {
    pub rotation: Rotation,
}

impl Default for GridPosition {
    fn default() -> (r: Self)
        ensures
            r.coords == (Coords { x: 0, y: 0 }),
    {
        GridPosition { coords: Coords { x: 0, y: 0 } }
    }
}

impl Default for GridRotation {
    fn default() -> (r: Self)
        ensures
            r.rotation == Rotation::North,
    {
        GridRotation { rotation: Rotation::North }
    }
}

/// The facing reached by a quarter turn to the right:
/// North, West, South, East, North.
pub open spec fn right_of(r: Rotation) -> Rotation {
    match r {
        Rotation::North => Rotation::West,
        Rotation::West => Rotation::South,
        Rotation::South => Rotation::East,
        Rotation::East => Rotation::North,
    }
}

/// The facing reached by a quarter turn to the left:
/// North, East, South, West, North.
pub open spec fn left_of(r: Rotation) -> Rotation {
    match r {
        Rotation::North => Rotation::East,
        Rotation::East => Rotation::South,
        Rotation::South => Rotation::West,
        Rotation::West => Rotation::North,
    }
}

/// The cell one step ahead of `c` when facing `r`.
/// North is +y, South is -y, East is -x and West is +x.
pub open spec fn ahead_of(c: Coords, r: Rotation) -> (int, int) {
    match r {
        Rotation::North => (c.x as int, c.y + 1),
        Rotation::East => (c.x - 1, c.y as int),
        Rotation::South => (c.x as int, c.y - 1),
        Rotation::West => (c.x + 1, c.y as int),
    }
}

/// Both coordinates lie strictly inside the range of `i32`, so that one step
/// in any direction stays representable.
pub open spec fn can_step(c: Coords) -> bool {
    &&& i32::MIN < c.x < i32::MAX
    &&& i32::MIN < c.y < i32::MAX
}

/// Angle of a facing, in degrees counter-clockwise from North.
pub open spec fn degrees_of(r: Rotation) -> u32 {
    match r {
        Rotation::North => 0,
        Rotation::East => 90,
        Rotation::South => 180,
        Rotation::West => 270,
    }
}

impl Rotation {
    /// The facing after a quarter turn to the right.
    pub fn turned_right(self) -> (r: Rotation)
        ensures
            r == right_of(self),
    {
        match self {
            Rotation::North => Rotation::West,
            Rotation::West => Rotation::South,
            Rotation::South => Rotation::East,
            Rotation::East => Rotation::North,
        }
    }

    /// The facing after a quarter turn to the left.
    pub fn turned_left(self) -> (r: Rotation)
        ensures
            r == left_of(self),
    {
        match self {
            Rotation::North => Rotation::East,
            Rotation::East => Rotation::South,
            Rotation::South => Rotation::West,
            Rotation::West => Rotation::North,
        }
    }
}

/// The cell one step ahead of `c` when facing `r`.
pub fn step_from(c: Coords, r: Rotation) -> (n: Coords)
    requires
        can_step(c),
    ensures
        (n.x as int, n.y as int) == ahead_of(c, r),
{
    match r {
        Rotation::North => Coords { x: c.x, y: c.y + 1 },
        Rotation::East => Coords { x: c.x - 1, y: c.y },
        Rotation::South => Coords { x: c.x, y: c.y - 1 },
        Rotation::West => Coords { x: c.x + 1, y: c.y },
    }
}

/// Angle of a facing in whole degrees; the renderer turns it into radians.
pub fn rotation_degrees(r: Rotation) -> (d: u32)
    ensures
        d == degrees_of(r),
{
    match r {
        Rotation::North => 0,
        Rotation::East => 90,
        Rotation::South => 180,
        Rotation::West => 270,
    }
}

/// World position of the centre of a cell: its coordinates times the cell size.
pub fn cell_position(cell_coords: &Coords) -> (p: WorldPoint)
    ensures
        p.x == cell_coords.x * GRID_CELL_SIZE,
        p.y == cell_coords.y * GRID_CELL_SIZE,
{
    WorldPoint { x: cell_coords.x as i64 * GRID_CELL_SIZE, y: cell_coords.y as i64 * GRID_CELL_SIZE }
}

/// The square a cell covers: first its lower-left corner, then its upper-right
/// corner, each half a cell away from its centre on both axes.
pub fn cell_bounds(cell_coords: &Coords) -> (b: [WorldPoint; 2])
    ensures
        b@[0].x == cell_coords.x * GRID_CELL_SIZE - HALF_CELL_SIZE,
        b@[0].y == cell_coords.y * GRID_CELL_SIZE - HALF_CELL_SIZE,
        b@[1].x == cell_coords.x * GRID_CELL_SIZE + HALF_CELL_SIZE,
        b@[1].y == cell_coords.y * GRID_CELL_SIZE + HALF_CELL_SIZE,
{
    let position = cell_position(cell_coords);
    [
        WorldPoint { x: position.x - HALF_CELL_SIZE, y: position.y - HALF_CELL_SIZE },
        WorldPoint { x: position.x + HALF_CELL_SIZE, y: position.y + HALF_CELL_SIZE },
    ]
}

/// Four quarter turns in one direction bring a robot back to where it
/// faced, and a turn to the right undoes a turn to the left and back.
pub proof fn lemma_turn_cycle(r: Rotation)
    ensures
        right_of(right_of(right_of(right_of(r)))) == r,
        left_of(left_of(left_of(left_of(r)))) == r,
        left_of(right_of(r)) == r,
        right_of(left_of(r)) == r,
{
}

} // verus!

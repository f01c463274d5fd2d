//! The six directions of the block grid and the four of the compass.
use crate::vector3::BlockPos;
use vstd::prelude::*;

verus! {

/// One of the six faces of a block.
#[derive(Clone, Copy, Debug, PartialEq, Eq)]
pub enum BlockDirection {
    Down,
    Up,
    North,
    South,
    West,
    East,
}

/// One of the four horizontal directions.
#[derive(Clone, Copy, Debug, PartialEq, Eq)]
pub enum HorizontalFacing {
    North,
    South,
    West,
    East,
}

impl BlockDirection {
    /// The step of one block in this direction: north is toward smaller
    /// `z`, west toward smaller `x`, down toward smaller `y`.
    pub open spec fn step(self) -> (int, int, int) {
        match self {
            BlockDirection::Down => (0, -1, 0),
            BlockDirection::Up => (0, 1, 0),
            BlockDirection::North => (0, 0, -1),
            BlockDirection::South => (0, 0, 1),
            BlockDirection::West => (-1, 0, 0),
            BlockDirection::East => (1, 0, 0),
        }
    }

    /// The direction that points the other way.
    pub open spec fn reversed(self) -> BlockDirection {
        match self {
            BlockDirection::Down => BlockDirection::Up,
            BlockDirection::Up => BlockDirection::Down,
            BlockDirection::North => BlockDirection::South,
            BlockDirection::South => BlockDirection::North,
            BlockDirection::West => BlockDirection::East,
            BlockDirection::East => BlockDirection::West,
        }
    }

    /// The step of one block in this direction.
    pub fn to_offset(&self) -> (o: (i32, i32, i32))
        ensures
            (o.0 as int, o.1 as int, o.2 as int) == self.step(),
    {
        match self {
            BlockDirection::Down => (0, -1, 0),
            BlockDirection::Up => (0, 1, 0),
            BlockDirection::North => (0, 0, -1),
            BlockDirection::South => (0, 0, 1),
            BlockDirection::West => (-1, 0, 0),
            BlockDirection::East => (1, 0, 0),
        }
    }

    /// The direction that points the other way.
    pub fn opposite(&self) -> (d: BlockDirection)
        ensures
            d == self.reversed(),
    {
        match self {
            BlockDirection::Down => BlockDirection::Up,
            BlockDirection::Up => BlockDirection::Down,
            BlockDirection::North => BlockDirection::South,
            BlockDirection::South => BlockDirection::North,
            BlockDirection::West => BlockDirection::East,
            BlockDirection::East => BlockDirection::West,
        }
    }

    /// Tells whether the two directions are the same.
    pub fn same_as(&self, other: &BlockDirection) -> (b: bool)
        ensures
            b == (*self == *other),
    {
        match (self, other) {
            (BlockDirection::Down, BlockDirection::Down) => true,
            (BlockDirection::Up, BlockDirection::Up) => true,
            (BlockDirection::North, BlockDirection::North) => true,
            (BlockDirection::South, BlockDirection::South) => true,
            (BlockDirection::West, BlockDirection::West) => true,
            (BlockDirection::East, BlockDirection::East) => true,
            _ => false,
        }
    }

    /// All six directions: down, up, north, south, west, east.
    pub fn all() -> (d: [BlockDirection; 6])
        ensures
            d@ == seq![
                BlockDirection::Down,
                BlockDirection::Up,
                BlockDirection::North,
                BlockDirection::South,
                BlockDirection::West,
                BlockDirection::East,
            ],
    {
        [
            BlockDirection::Down,
            BlockDirection::Up,
            BlockDirection::North,
            BlockDirection::South,
            BlockDirection::West,
            BlockDirection::East,
        ]
    }
}

impl HorizontalFacing {
    /// The facing as one of the six block directions.
    pub open spec fn direction(self) -> BlockDirection {
        match self {
            HorizontalFacing::North => BlockDirection::North,
            HorizontalFacing::South => BlockDirection::South,
            HorizontalFacing::West => BlockDirection::West,
            HorizontalFacing::East => BlockDirection::East,
        }
    }

    /// The facing a quarter turn to the right, seen from above.
    pub open spec fn clockwise(self) -> HorizontalFacing {
        match self {
            HorizontalFacing::North => HorizontalFacing::East,
            HorizontalFacing::East => HorizontalFacing::South,
            HorizontalFacing::South => HorizontalFacing::West,
            HorizontalFacing::West => HorizontalFacing::North,
        }
    }

    /// The facing as one of the six block directions.
    pub fn to_block_direction(&self) -> (d: BlockDirection)
        ensures
            d == self.direction(),
    {
        match self {
            HorizontalFacing::North => BlockDirection::North,
            HorizontalFacing::South => BlockDirection::South,
            HorizontalFacing::West => BlockDirection::West,
            HorizontalFacing::East => BlockDirection::East,
        }
    }

    /// The facing a quarter turn to the right.
    pub fn rotate_clockwise(&self) -> (f: HorizontalFacing)
        ensures
            f == self.clockwise(),
    {
        match self {
            HorizontalFacing::North => HorizontalFacing::East,
            HorizontalFacing::East => HorizontalFacing::South,
            HorizontalFacing::South => HorizontalFacing::West,
            HorizontalFacing::West => HorizontalFacing::North,
        }
    }

    /// The facing a quarter turn to the left.
    pub fn rotate_counter_clockwise(&self) -> (f: HorizontalFacing)
        ensures
            f.clockwise() == *self,
            f == self.clockwise().clockwise().clockwise(),
    {
        match self {
            HorizontalFacing::North => HorizontalFacing::West,
            HorizontalFacing::West => HorizontalFacing::South,
            HorizontalFacing::South => HorizontalFacing::East,
            HorizontalFacing::East => HorizontalFacing::North,
        }
    }

    /// The facing that points the other way.
    pub fn opposite(&self) -> (f: HorizontalFacing)
        ensures
            f == self.clockwise().clockwise(),
            f.direction() == self.direction().reversed(),
    {
        match self {
            HorizontalFacing::North => HorizontalFacing::South,
            HorizontalFacing::South => HorizontalFacing::North,
            HorizontalFacing::West => HorizontalFacing::East,
            HorizontalFacing::East => HorizontalFacing::West,
        }
    }
}

impl BlockPos {
    /// The position one block away in the direction `d`.
    pub open spec fn neighbor(self, d: BlockDirection) -> (int, int, int) {
        (self.x + d.step().0, self.y + d.step().1, self.z + d.step().2)
    }

    /// The position `offset` away from this one.
    pub fn offset(&self, offset: (i32, i32, i32)) -> (p: BlockPos)
        requires
            i32::MIN <= self.x + offset.0 <= i32::MAX,
            i32::MIN <= self.y + offset.1 <= i32::MAX,
            i32::MIN <= self.z + offset.2 <= i32::MAX,
        ensures
            p.x == self.x + offset.0,
            p.y == self.y + offset.1,
            p.z == self.z + offset.2,
    {
        BlockPos { x: self.x + offset.0, y: self.y + offset.1, z: self.z + offset.2 }
    }
}

/// Four quarter turns make a full turn, and going there and back ends
/// where it began.
pub proof fn lemma_turns(f: HorizontalFacing, d: BlockDirection)
    ensures
        f.clockwise().clockwise().clockwise().clockwise() == f,
        d.reversed().reversed() == d,
        d.reversed() != d,
        d.step().0 + d.reversed().step().0 == 0,
        d.step().1 + d.reversed().step().1 == 0,
        d.step().2 + d.reversed().step().2 == 0,
{
}

} // verus!

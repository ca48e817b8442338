//! The kinds that make up one square of the grid: its permanent ground, an
//! optional obstruction layered on top of it, an optional occupant, and the
//! errors a movement attempt can report.

use vstd::prelude::*;

verus! {

/// Permanent terrain layer of a square; never changes after grid creation.
#[derive(Clone, Copy, PartialEq, Eq, Debug)]
pub enum TerrainGround {
    Soil,
    Stone,
}

/// Optional terrain obstruction layered on top of the ground. Only `Stone`
/// blocks entry; the other kinds (including `Tree`) are deliberately passable.
#[derive(Clone, Copy, PartialEq, Eq, Debug)]
pub enum TerrainBlock {
    Tree,
    Soil,
    Stone,
}

/// Identity tag of a square's occupant; the kind has no effect on movement.
#[derive(Clone, Copy, PartialEq, Eq, Debug)]
pub enum Being {
    Orc,
    Human,
}

/// One of the four compass directions a being can step in.
#[derive(Clone, Copy, PartialEq, Eq, Debug)]
pub enum Direction {
    West,
    East,
    North,
    South,
}

/// The ways a movement attempt can fail. The variants are mutually exclusive:
/// the checks run in a fixed order and the first failing one is reported.
#[derive(Clone, Copy, PartialEq, Eq, Debug)]
pub enum MovementError {
    NoBeingInSquare,
    OutOfGridBounds,
    AnotherBeingInSquare,
    TerrainIsStone,
}

/// One grid cell's full state: ground, obstruction, occupant.
#[derive(Clone, Copy, PartialEq, Eq, Debug)]
pub struct Square {
    pub ground: TerrainGround,
    pub block: Option<TerrainBlock>,
    pub being: Option<Being>,
}

impl MovementError {
    /// The short description of each error variant.
    pub open spec fn spec_description(self) -> Seq<char> {
        match self {
            MovementError::NoBeingInSquare => "No Being in Square"@,
            MovementError::AnotherBeingInSquare => "Another Being in Square"@,
            MovementError::OutOfGridBounds => "Fell of the Grid"@,
            MovementError::TerrainIsStone => "Terrain is Stone"@,
        }
    }

    /// A short human-readable description of the error.
    pub fn description(&self) -> (r: &'static str)
        ensures
            r@ == self.spec_description(),
    {
        match self {
            MovementError::NoBeingInSquare => "No Being in Square",
            MovementError::AnotherBeingInSquare => "Another Being in Square",
            MovementError::OutOfGridBounds => "Fell of the Grid",
            MovementError::TerrainIsStone => "Terrain is Stone",
        }
    }
}

} // verus!

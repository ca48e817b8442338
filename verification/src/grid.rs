//! The grid store and the movement validator.
//!
//! A `Grid` owns a row-major sequence of squares; the flat index of a
//! coordinate `(x, y)` is `x * width + y`. A movement attempt checks, in
//! order: that the source coordinate maps into the backing sequence, that the
//! source square is occupied, that the destination coordinate exists and lies
//! within the grid's rectangle and maps into the sequence, that the
//! destination is unoccupied, and that it is not blocked by stone. The first
//! failing check determines the error and nothing is mutated; a passing run
//! transfers the occupant and leaves both squares' ground and obstruction as
//! they were.

use vstd::prelude::*;

use crate::terrain::Being;
use crate::terrain::Direction;
use crate::terrain::MovementError;
use crate::terrain::Square;
use crate::terrain::TerrainBlock;
use crate::terrain::TerrainGround;

verus! {

/// The square every freshly generated grid is filled with: stone ground,
/// no obstruction, no occupant.
pub open spec fn empty_square() -> Square {
    Square { ground: TerrainGround::Stone, block: None, being: None }
}

/// Flat, row-major index of a coordinate: `x * width + y`.
pub open spec fn flat_index(size: (usize, usize), coord: (usize, usize)) -> int {
    coord.0 * size.0 + coord.1
}

/// Whether a coordinate lies within the grid's rectangle.
pub open spec fn coord_in_bounds(size: (usize, usize), coord: (usize, usize)) -> bool {
    coord.0 < size.0 && coord.1 < size.1
}

/// The coordinate one step away in the given direction, or `None` when the
/// step leaves the coordinate range itself (underflow below zero, or overflow
/// past `usize::MAX`); such a step can never land inside any grid.
pub open spec fn destination(coord: (usize, usize), dir: Direction) -> Option<(usize, usize)> {
    match dir {
        Direction::West => if coord.1 == 0 {
            None
        } else {
            Some((coord.0, (coord.1 - 1) as usize))
        },
        Direction::East => if coord.1 == usize::MAX {
            None
        } else {
            Some((coord.0, (coord.1 + 1) as usize))
        },
        Direction::North => if coord.0 == 0 {
            None
        } else {
            Some(((coord.0 - 1) as usize, coord.1))
        },
        Direction::South => if coord.0 == usize::MAX {
            None
        } else {
            Some(((coord.0 + 1) as usize, coord.1))
        },
    }
}

/// The outcome of a movement attempt on a grid with the given size and
/// squares: either the destination coordinate or the error of the first
/// failing check, in the fixed order of the protocol.
pub open spec fn move_result(
    size: (usize, usize),
    squares: Seq<Square>,
    coord: (usize, usize),
    dir: Direction,
) -> Result<(usize, usize), MovementError> {
    let src = flat_index(size, coord);
    if src >= squares.len() {
        Err(MovementError::OutOfGridBounds)
    } else if squares[src].being is None {
        Err(MovementError::NoBeingInSquare)
    } else {
        match destination(coord, dir) {
            None => Err(MovementError::OutOfGridBounds),
            Some(dest) => {
                let dst = flat_index(size, dest);
                if !coord_in_bounds(size, dest) {
                    Err(MovementError::OutOfGridBounds)
                } else if dst >= squares.len() {
                    Err(MovementError::OutOfGridBounds)
                } else if squares[dst].being is Some {
                    Err(MovementError::AnotherBeingInSquare)
                } else if squares[dst].block == Some(TerrainBlock::Stone) {
                    Err(MovementError::TerrainIsStone)
                } else {
                    Ok(dest)
                }
            },
        }
    }
}

/// The squares after a successful move from `coord` to `dest`: the occupant
/// transfers, each square keeps its own ground and obstruction, and every
/// other square is untouched.
pub open spec fn squares_after_move(
    size: (usize, usize),
    squares: Seq<Square>,
    coord: (usize, usize),
    dest: (usize, usize),
) -> Seq<Square> {
    let src = flat_index(size, coord);
    let dst = flat_index(size, dest);
    squares.update(
        dst,
        Square { ground: squares[dst].ground, block: squares[dst].block, being: squares[src].being },
    ).update(
        src,
        Square { ground: squares[src].ground, block: squares[src].block, being: None },
    )
}

/// A fixed-size 2D grid of squares, stored row-major. Created once by
/// `generate_empty` and then mutated in place by validated moves; it is never
/// resized.
#[derive(PartialEq, Debug)]
pub struct Grid {
    pub size: (usize, usize),
    pub squares: Vec<Square>,
}

impl Grid {
    /// The grid's structural invariant: the backing sequence holds exactly
    /// `width * height` squares.
    pub open spec fn wf(self) -> bool {
        self.squares@.len() == self.size.0 * self.size.1
    }

    /// Builds a `width * height` grid of identical squares: stone ground, no
    /// obstruction, no being.
    pub fn generate_empty(size_x: usize, size_y: usize) -> (grid: Grid)
        requires
            size_x * size_y <= usize::MAX,
        ensures
            grid.size == (size_x, size_y),
            grid.wf(),
            grid.squares@.len() == size_x * size_y,
            forall|i: int| 0 <= i < grid.squares@.len() ==> grid.squares@[i] == empty_square(),
    {
        let number_of_squares = size_x * size_y;
        let mut squares: Vec<Square> = Vec::with_capacity(number_of_squares);
        let mut i: usize = 0;
        while i < number_of_squares
            invariant
                i <= number_of_squares,
                squares@.len() == i,
                forall|j: int| 0 <= j < i ==> squares@[j] == empty_square(),
            decreases number_of_squares - i,
        {
            squares.push(Square { ground: TerrainGround::Stone, block: None, being: None });
            i = i + 1;
        }
        Grid { size: (size_x, size_y), squares }
    }

    /// Computes the flat index of `coord`, or reports `OutOfGridBounds` when
    /// the index does not map into the backing sequence (including when the
    /// arithmetic itself would leave the `usize` range).
    fn checked_index(&self, coord: (usize, usize)) -> (result: Result<usize, MovementError>)
        ensures
            flat_index(self.size, coord) < self.squares@.len() ==> (result matches Ok(i)
                && i == flat_index(self.size, coord)),
            flat_index(self.size, coord) >= self.squares@.len() ==> result == Err::<
                usize,
                MovementError,
            >(MovementError::OutOfGridBounds),
    {
        let len = self.squares.len();
        let index = match coord.0.checked_mul(self.size.0) {
            Some(product) => match product.checked_add(coord.1) {
                Some(index) => index,
                None => return Err(MovementError::OutOfGridBounds),
            },
            None => return Err(MovementError::OutOfGridBounds),
        };
        if index >= len {
            return Err(MovementError::OutOfGridBounds);
        }
        Ok(index)
    }

    /// Reads the square at `coord`, or reports `OutOfGridBounds` when the
    /// coordinate does not map into the backing sequence.
    pub fn get(&self, coord: (usize, usize)) -> (result: Result<&Square, MovementError>)
        ensures
            flat_index(self.size, coord) < self.squares@.len() ==> (result matches Ok(square)
                && *square == self.squares@[flat_index(self.size, coord)]),
            flat_index(self.size, coord) >= self.squares@.len() ==> result == Err::<
                &Square,
                MovementError,
            >(MovementError::OutOfGridBounds),
    {
        let index = match self.checked_index(coord) {
            Ok(index) => index,
            Err(e) => return Err(e),
        };
        Ok(&self.squares[index])
    }

    /// Overwrites the square at `coord` with `square`, validating nothing of
    /// its content; reports `OutOfGridBounds`, changing nothing, when the
    /// coordinate does not map into the backing sequence.
    pub fn set(&mut self, coord: (usize, usize), square: Square) -> (result: Result<
        (),
        MovementError,
    >)
        ensures
            final(self).size == old(self).size,
            flat_index(old(self).size, coord) < old(self).squares@.len() ==> (result is Ok
                && final(self).squares@ == old(self).squares@.update(
                flat_index(old(self).size, coord),
                square,
            )),
            flat_index(old(self).size, coord) >= old(self).squares@.len() ==> (result == Err::<
                (),
                MovementError,
            >(MovementError::OutOfGridBounds) && *final(self) == *old(self)),
    {
        let index = match self.checked_index(coord) {
            Ok(index) => index,
            Err(e) => return Err(e),
        };
        self.squares[index] = square;
        Ok(())
    }

    /// Attempts to move the being standing at `coord` one step in direction
    /// `dir`. Exactly the outcome of `move_result` comes back; on an error
    /// the grid is untouched, and on success the squares become
    /// `squares_after_move` of the old state: the being transfers and both
    /// squares keep their own ground and obstruction.
    pub fn move_being_in_coord(&mut self, coord: (usize, usize), dir: Direction) -> (result:
        Result<(usize, usize), MovementError>)
        ensures
            result == move_result(old(self).size, old(self).squares@, coord, dir),
            final(self).size == old(self).size,
            final(self).squares@.len() == old(self).squares@.len(),
            result is Err ==> *final(self) == *old(self),
            result matches Ok(dest) ==> final(self).squares@ == squares_after_move(
                old(self).size,
                old(self).squares@,
                coord,
                dest,
            ),
    {
        let len = self.squares.len();
        let src = match self.checked_index(coord) {
            Ok(index) => index,
            Err(e) => return Err(e),
        };
        let source_square = self.squares[src];
        if source_square.being.is_none() {
            return Err(MovementError::NoBeingInSquare);
        }
        let dest: (usize, usize) = match dir {
            Direction::West => match coord.1.checked_sub(1) {
                Some(y) => (coord.0, y),
                None => return Err(MovementError::OutOfGridBounds),
            },
            Direction::East => match coord.1.checked_add(1) {
                Some(y) => (coord.0, y),
                None => return Err(MovementError::OutOfGridBounds),
            },
            Direction::North => match coord.0.checked_sub(1) {
                Some(x) => (x, coord.1),
                None => return Err(MovementError::OutOfGridBounds),
            },
            Direction::South => match coord.0.checked_add(1) {
                Some(x) => (x, coord.1),
                None => return Err(MovementError::OutOfGridBounds),
            },
        };
        if dest.0 >= self.size.0 || dest.1 >= self.size.1 {
            return Err(MovementError::OutOfGridBounds);
        }
        let dst = match self.checked_index(dest) {
            Ok(index) => index,
            Err(e) => return Err(e),
        };
        let destination_square = self.squares[dst];
        if destination_square.being.is_some() {
            return Err(MovementError::AnotherBeingInSquare);
        }
        match destination_square.block {
            Some(TerrainBlock::Stone) => return Err(MovementError::TerrainIsStone),
            _ => {},
        }
        self.squares[dst] = Square {
            ground: destination_square.ground,
            block: destination_square.block,
            being: source_square.being,
        };
        self.squares[src] = Square {
            ground: source_square.ground,
            block: source_square.block,
            being: None,
        };
        Ok(dest)
    }
}

} // verus!

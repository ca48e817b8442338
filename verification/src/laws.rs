//! Laws of the movement protocol, stated over the model of a grid — its size
//! and its sequence of squares — and proved once and for all. Together with
//! the contract of `Grid::move_being_in_coord`, which pins its result to
//! `move_result` and its state change to `squares_after_move`, each law
//! carries over to the executable grid.

use vstd::prelude::*;

use crate::grid::coord_in_bounds;
use crate::grid::destination;
use crate::grid::flat_index;
use crate::grid::move_result;
use crate::grid::squares_after_move;
use crate::terrain::Direction;
use crate::terrain::MovementError;
use crate::terrain::Square;
use crate::terrain::TerrainBlock;

verus! {

/// Number of occupied squares in a sequence.
pub open spec fn being_count(squares: Seq<Square>) -> nat
    decreases squares.len(),
{
    if squares.len() == 0 {
        0
    } else {
        being_count(squares.drop_last()) + (if squares.last().being is Some {
            1nat
        } else {
            0nat
        })
    }
}

proof fn lemma_mul_succ(a: int, b: int)
    ensures
        (a + 1) * b == a * b + b,
{
    assert((a + 1) * b == a * b + b) by (nonlinear_arith);
}

/// Overwriting one square changes the count of occupied squares exactly by
/// the occupancy it removes and the occupancy it brings.
proof fn lemma_being_count_update(squares: Seq<Square>, i: int, square: Square)
    requires
        0 <= i < squares.len(),
    ensures
        being_count(squares.update(i, square)) + (if squares[i].being is Some {
            1nat
        } else {
            0nat
        }) == being_count(squares) + (if square.being is Some {
            1nat
        } else {
            0nat
        }),
    decreases squares.len(),
{
    let updated = squares.update(i, square);
    if i == squares.len() - 1 {
        assert(updated.drop_last() =~= squares.drop_last());
    } else {
        assert(updated.drop_last() =~= squares.drop_last().update(i, square));
        lemma_being_count_update(squares.drop_last(), i, square);
    }
}

/// The source and destination of a successful move are different squares of
/// the backing sequence.
proof fn lemma_move_indices_distinct(
    size: (usize, usize),
    squares: Seq<Square>,
    coord: (usize, usize),
    dir: Direction,
)
    requires
        move_result(size, squares, coord, dir) is Ok,
    ensures
        flat_index(size, coord) != flat_index(size, move_result(size, squares, coord, dir)->Ok_0),
{
    let dest = move_result(size, squares, coord, dir)->Ok_0;
    match dir {
        Direction::West => {},
        Direction::East => {},
        Direction::North => {
            lemma_mul_succ(dest.0 as int, size.0 as int);
        },
        Direction::South => {
            lemma_mul_succ(coord.0 as int, size.0 as int);
        },
    }
}

/// Law: a movement attempt from a square that holds no being fails with
/// `NoBeingInSquare`, whatever the direction.
pub proof fn lemma_move_from_empty_square_fails(
    size: (usize, usize),
    squares: Seq<Square>,
    coord: (usize, usize),
    dir: Direction,
)
    requires
        flat_index(size, coord) < squares.len(),
        squares[flat_index(size, coord)].being is None,
    ensures
        move_result(size, squares, coord, dir) == Err::<(usize, usize), MovementError>(
            MovementError::NoBeingInSquare,
        ),
{
}

/// Law: a movement attempt from an occupied square toward a destination that
/// lies outside the grid's rectangle fails with `OutOfGridBounds` — also when
/// the step itself leaves the coordinate range (west or north from an edge).
pub proof fn lemma_move_out_of_bounds_fails(
    size: (usize, usize),
    squares: Seq<Square>,
    coord: (usize, usize),
    dir: Direction,
)
    requires
        flat_index(size, coord) < squares.len(),
        squares[flat_index(size, coord)].being is Some,
        destination(coord, dir) matches Some(dest) ==> !coord_in_bounds(size, dest),
    ensures
        move_result(size, squares, coord, dir) == Err::<(usize, usize), MovementError>(
            MovementError::OutOfGridBounds,
        ),
{
}

/// Law: a movement attempt from an occupied square into an occupied
/// destination fails with `AnotherBeingInSquare`.
pub proof fn lemma_move_into_occupied_square_fails(
    size: (usize, usize),
    squares: Seq<Square>,
    coord: (usize, usize),
    dir: Direction,
)
    requires
        flat_index(size, coord) < squares.len(),
        squares[flat_index(size, coord)].being is Some,
        destination(coord, dir) matches Some(dest) && coord_in_bounds(size, dest) && flat_index(
            size,
            dest,
        ) < squares.len() && squares[flat_index(size, dest)].being is Some,
    ensures
        move_result(size, squares, coord, dir) == Err::<(usize, usize), MovementError>(
            MovementError::AnotherBeingInSquare,
        ),
{
}

/// Law: a movement attempt from an occupied square into a free destination
/// that is blocked by stone fails with `TerrainIsStone`.
pub proof fn lemma_move_into_stone_fails(
    size: (usize, usize),
    squares: Seq<Square>,
    coord: (usize, usize),
    dir: Direction,
)
    requires
        flat_index(size, coord) < squares.len(),
        squares[flat_index(size, coord)].being is Some,
        destination(coord, dir) matches Some(dest) && coord_in_bounds(size, dest) && flat_index(
            size,
            dest,
        ) < squares.len() && squares[flat_index(size, dest)].being is None && squares[flat_index(
            size,
            dest,
        )].block == Some(TerrainBlock::Stone),
    ensures
        move_result(size, squares, coord, dir) == Err::<(usize, usize), MovementError>(
            MovementError::TerrainIsStone,
        ),
{
}

/// Law: a successful move goes to the one-step destination of its direction,
/// clears the source square's occupant, hands exactly that occupant to the
/// destination square, leaves the ground and obstruction of both squares as
/// they were, and touches no other square.
pub proof fn lemma_move_success_effect(
    size: (usize, usize),
    squares: Seq<Square>,
    coord: (usize, usize),
    dir: Direction,
)
    requires
        move_result(size, squares, coord, dir) is Ok,
    ensures
        ({
            let dest = move_result(size, squares, coord, dir)->Ok_0;
            let src = flat_index(size, coord);
            let dst = flat_index(size, dest);
            let after = squares_after_move(size, squares, coord, dest);
            &&& destination(coord, dir) == Some(dest)
            &&& coord_in_bounds(size, dest)
            &&& squares[src].being is Some
            &&& after.len() == squares.len()
            &&& after[src].being is None
            &&& after[dst].being == squares[src].being
            &&& after[src].ground == squares[src].ground
            &&& after[src].block == squares[src].block
            &&& after[dst].ground == squares[dst].ground
            &&& after[dst].block == squares[dst].block
            &&& forall|i: int|
                0 <= i < squares.len() && i != src && i != dst ==> after[i] == squares[i]
        }),
{
    lemma_move_indices_distinct(size, squares, coord, dir);
}

/// Law: replaying the exact same move right after it succeeded fails with
/// `NoBeingInSquare`, since the source square is now empty.
pub proof fn lemma_replay_same_move_fails(
    size: (usize, usize),
    squares: Seq<Square>,
    coord: (usize, usize),
    dir: Direction,
)
    requires
        move_result(size, squares, coord, dir) is Ok,
    ensures
        move_result(
            size,
            squares_after_move(size, squares, coord, move_result(size, squares, coord, dir)->Ok_0),
            coord,
            dir,
        ) == Err::<(usize, usize), MovementError>(MovementError::NoBeingInSquare),
{
    lemma_move_indices_distinct(size, squares, coord, dir);
}

/// Law: when two moves from different source squares both aim at the same
/// destination and each would succeed on its own, whichever is applied first
/// succeeds and the other then fails with `AnotherBeingInSquare`: the
/// destination is never doubly claimed.
pub proof fn lemma_race_to_same_destination(
    size: (usize, usize),
    squares: Seq<Square>,
    first_coord: (usize, usize),
    first_dir: Direction,
    second_coord: (usize, usize),
    second_dir: Direction,
)
    requires
        move_result(size, squares, first_coord, first_dir) is Ok,
        move_result(size, squares, second_coord, second_dir) is Ok,
        move_result(size, squares, first_coord, first_dir)->Ok_0 == move_result(
            size,
            squares,
            second_coord,
            second_dir,
        )->Ok_0,
        flat_index(size, first_coord) != flat_index(size, second_coord),
    ensures
        move_result(
            size,
            squares_after_move(
                size,
                squares,
                first_coord,
                move_result(size, squares, first_coord, first_dir)->Ok_0,
            ),
            second_coord,
            second_dir,
        ) == Err::<(usize, usize), MovementError>(MovementError::AnotherBeingInSquare),
{
    let dest = move_result(size, squares, first_coord, first_dir)->Ok_0;
    lemma_move_indices_distinct(size, squares, first_coord, first_dir);
    assert(squares[flat_index(size, second_coord)].being is Some);
    assert(squares[flat_index(size, dest)].being is None);
}

/// Law: a successful move neither loses a being nor creates one — the number
/// of occupied squares is unchanged.
pub proof fn lemma_move_preserves_being_count(
    size: (usize, usize),
    squares: Seq<Square>,
    coord: (usize, usize),
    dir: Direction,
)
    requires
        move_result(size, squares, coord, dir) is Ok,
    ensures
        being_count(
            squares_after_move(size, squares, coord, move_result(size, squares, coord, dir)->Ok_0),
        ) == being_count(squares),
{
    let dest = move_result(size, squares, coord, dir)->Ok_0;
    let src = flat_index(size, coord);
    let dst = flat_index(size, dest);
    lemma_move_indices_distinct(size, squares, coord, dir);
    let moved_in = Square {
        ground: squares[dst].ground,
        block: squares[dst].block,
        being: squares[src].being,
    };
    let cleared = Square {
        ground: squares[src].ground,
        block: squares[src].block,
        being: None,
    };
    let mid = squares.update(dst, moved_in);
    lemma_being_count_update(squares, dst, moved_in);
    lemma_being_count_update(mid, src, cleared);
}

} // verus!

use gridmove::grid::Grid;
use gridmove::terrain::Being;
use gridmove::terrain::Direction;
use gridmove::terrain::MovementError;
use gridmove::terrain::Square;
use gridmove::terrain::TerrainBlock;
use gridmove::terrain::TerrainGround;

#[test]
fn test_get_reads_what_set_wrote() {
    let mut grid = Grid::generate_empty(3, 3);
    let square = Square {
        ground: TerrainGround::Stone,
        block: Some(TerrainBlock::Tree),
        being: Some(Being::Orc),
    };
    assert_eq!(grid.set((1, 2), square), Ok(()));
    assert_eq!(grid.get((1, 2)), Ok(&square));
    assert_eq!(grid.squares[5], square);
}

#[test]
fn test_get_out_of_sequence_is_out_of_bounds() {
    let grid = Grid::generate_empty(3, 3);
    assert_eq!(grid.get((0, 9)), Err(MovementError::OutOfGridBounds));
    assert_eq!(grid.get((3, 0)), Err(MovementError::OutOfGridBounds));
}

#[test]
fn test_set_out_of_sequence_changes_nothing() {
    let mut grid = Grid::generate_empty(2, 2);
    let snapshot = grid.squares.clone();
    let square = Square {
        ground: TerrainGround::Soil,
        block: None,
        being: Some(Being::Human),
    };
    assert_eq!(grid.set((2, 0), square), Err(MovementError::OutOfGridBounds));
    assert_eq!(grid.squares, snapshot);
}

#[test]
fn test_generate_empty_zero_width() {
    let mut grid = Grid::generate_empty(0, 7);
    assert_eq!(grid.size, (0, 7));
    assert_eq!(grid.squares.len(), 0);
    assert_eq!(
        grid.move_being_in_coord((0, 0), Direction::South),
        Err(MovementError::OutOfGridBounds)
    );
}

#[test]
fn test_error_descriptions() {
    assert_eq!(MovementError::NoBeingInSquare.description(), "No Being in Square");
    assert_eq!(MovementError::AnotherBeingInSquare.description(), "Another Being in Square");
    assert_eq!(MovementError::OutOfGridBounds.description(), "Fell of the Grid");
    assert_eq!(MovementError::TerrainIsStone.description(), "Terrain is Stone");
}

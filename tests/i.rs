use tetris::shared::{Block, Color, MoveDirection, RotateDirection};
use tetris::tetromino::i::I;
use tetris::tetromino::{Tetromino, TetrominoDirection};

fn build_i_tetromino() -> I {
    I::new(TetrominoDirection::Right, Block::new(Color::Cyan, 0, 0))
}

fn cyan(cells: &[(i32, i32)]) -> Vec<Block> {
    cells.iter().map(|&(x, y)| Block::new(Color::Cyan, x, y)).collect()
}

#[test]
fn i_test_move() {
    let mut i = build_i_tetromino();
    i.move_(MoveDirection::Left);
    assert_eq!(Block::new(Color::Cyan, -1, 0), *i.axis());
    i.move_(MoveDirection::Right);
    assert_eq!(Block::new(Color::Cyan, 0, 0), *i.axis());
    i.move_(MoveDirection::Down);
    assert_eq!(Block::new(Color::Cyan, 0, -1), *i.axis());
}

#[test]
fn i_blocks_in_each_orientation() {
    let axis = Block::new(Color::Cyan, 0, 0);
    assert_eq!(
        cyan(&[(-1, 0), (0, 0), (1, 0), (2, 0)]),
        I::new(TetrominoDirection::Left, axis).blocks()
    );
    assert_eq!(
        cyan(&[(0, -2), (0, -1), (0, 0), (0, 1)]),
        I::new(TetrominoDirection::Up, axis).blocks()
    );
    assert_eq!(
        cyan(&[(-2, 0), (-1, 0), (0, 0), (1, 0)]),
        I::new(TetrominoDirection::Right, axis).blocks()
    );
    assert_eq!(
        cyan(&[(0, -1), (0, 0), (0, 1), (0, 2)]),
        I::new(TetrominoDirection::Down, axis).blocks()
    );
}

#[test]
fn i_axis_shifts_when_turning() {
    let start = |dir| I::new(dir, Block::new(Color::Cyan, 0, 0));
    assert_eq!(Block::new(Color::Cyan, 1, 0), start(TetrominoDirection::Left).rotate_axis(RotateDirection::Left));
    assert_eq!(Block::new(Color::Cyan, 0, -1), start(TetrominoDirection::Up).rotate_axis(RotateDirection::Left));
    assert_eq!(Block::new(Color::Cyan, -1, 0), start(TetrominoDirection::Right).rotate_axis(RotateDirection::Left));
    assert_eq!(Block::new(Color::Cyan, 0, 1), start(TetrominoDirection::Down).rotate_axis(RotateDirection::Left));
    assert_eq!(Block::new(Color::Cyan, 0, 1), start(TetrominoDirection::Left).rotate_axis(RotateDirection::Right));
    assert_eq!(Block::new(Color::Cyan, 1, 0), start(TetrominoDirection::Up).rotate_axis(RotateDirection::Right));
    assert_eq!(Block::new(Color::Cyan, 0, -1), start(TetrominoDirection::Right).rotate_axis(RotateDirection::Right));
    assert_eq!(Block::new(Color::Cyan, -1, 0), start(TetrominoDirection::Down).rotate_axis(RotateDirection::Right));
}

#[test]
fn i_rotation_moves_axis_and_orientation() {
    let mut i = build_i_tetromino();
    i.rotate(RotateDirection::Right);
    assert_eq!(I::new(TetrominoDirection::Down, Block::new(Color::Cyan, 0, -1)), i);
    assert_eq!(cyan(&[(0, -2), (0, -1), (0, 0), (0, 1)]), i.blocks());
    let got = i.dry_rotate(RotateDirection::Left);
    i.rotate(RotateDirection::Left);
    assert_eq!(build_i_tetromino(), i);
    assert_eq!(i.blocks(), got);
}

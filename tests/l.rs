use tetris::shared::{Block, Color, MoveDirection, RotateDirection};
use tetris::tetromino::l::L;
use tetris::tetromino::{Tetromino, TetrominoDirection};

fn build_l_tetromino() -> L {
    L::new(TetrominoDirection::Right, Block::new(Color::Orange, 0, 0))
}

fn build_l_blocks(dir: TetrominoDirection) -> Vec<Block> {
    match dir {
        TetrominoDirection::Left => vec![
            Block::new(Color::Orange, -1, -1),
            Block::new(Color::Orange, -1, 0),
            Block::new(Color::Orange, 0, 0),
            Block::new(Color::Orange, 1, 0),
        ],
        TetrominoDirection::Up => vec![
            Block::new(Color::Orange, -1, 1),
            Block::new(Color::Orange, 0, -1),
            Block::new(Color::Orange, 0, 0),
            Block::new(Color::Orange, 0, 1),
        ],
        TetrominoDirection::Right => vec![
            Block::new(Color::Orange, -1, 0),
            Block::new(Color::Orange, 0, 0),
            Block::new(Color::Orange, 1, 0),
            Block::new(Color::Orange, 1, 1),
        ],
        TetrominoDirection::Down => vec![
            Block::new(Color::Orange, 0, -1),
            Block::new(Color::Orange, 0, 0),
            Block::new(Color::Orange, 0, 1),
            Block::new(Color::Orange, 1, -1),
        ],
    }
}

#[test]
fn l_test_move() {
    let mut l = build_l_tetromino();
    l.move_(MoveDirection::Left);
    assert_eq!(
        L::new(TetrominoDirection::Right, Block::new(Color::Orange, -1, 0)),
        l
    );
    l.move_(MoveDirection::Right);
    assert_eq!(
        L::new(TetrominoDirection::Right, Block::new(Color::Orange, 0, 0)),
        l
    );
    l.move_(MoveDirection::Down);
    assert_eq!(
        L::new(TetrominoDirection::Right, Block::new(Color::Orange, 0, -1)),
        l
    );
}

#[test]
fn test_rotate() {
    let mut l = build_l_tetromino();
    l.rotate(RotateDirection::Left);
    assert_eq!(L::new(TetrominoDirection::Up, Block::new(Color::Orange, 0, 0)), l);
    l.rotate(RotateDirection::Left);
    assert_eq!(L::new(TetrominoDirection::Left, Block::new(Color::Orange, 0, 0)), l);
    l.rotate(RotateDirection::Left);
    assert_eq!(L::new(TetrominoDirection::Down, Block::new(Color::Orange, 0, 0)), l);
    l.rotate(RotateDirection::Left);
    assert_eq!(L::new(TetrominoDirection::Right, Block::new(Color::Orange, 0, 0)), l);
    l.rotate(RotateDirection::Right);
    assert_eq!(L::new(TetrominoDirection::Down, Block::new(Color::Orange, 0, 0)), l);
    l.rotate(RotateDirection::Right);
    assert_eq!(L::new(TetrominoDirection::Left, Block::new(Color::Orange, 0, 0)), l);
    l.rotate(RotateDirection::Right);
    assert_eq!(L::new(TetrominoDirection::Up, Block::new(Color::Orange, 0, 0)), l);
    l.rotate(RotateDirection::Right);
    assert_eq!(L::new(TetrominoDirection::Right, Block::new(Color::Orange, 0, 0)), l);
}

#[test]
fn test_dry_move() {
    let mut l = build_l_tetromino();
    let got = l.dry_move(MoveDirection::Left);
    l.move_(MoveDirection::Left);
    assert_eq!(l.blocks(), got);
    let got = l.dry_move(MoveDirection::Right);
    l.move_(MoveDirection::Right);
    assert_eq!(l.blocks(), got);
    let got = l.dry_move(MoveDirection::Down);
    l.move_(MoveDirection::Down);
    assert_eq!(l.blocks(), got);
}

#[test]
fn test_dry_rotate() {
    let mut l = build_l_tetromino();
    for _ in 0..4 {
        let got = l.dry_rotate(RotateDirection::Left);
        l.rotate(RotateDirection::Left);
        assert_eq!(l.blocks(), got);
    }
    for _ in 0..4 {
        let got = l.dry_rotate(RotateDirection::Right);
        l.rotate(RotateDirection::Right);
        assert_eq!(l.blocks(), got);
    }
}

#[test]
fn test_blocks() {
    let mut l = build_l_tetromino();
    assert_eq!(build_l_blocks(TetrominoDirection::Right), l.blocks());
    l.rotate(RotateDirection::Right);
    assert_eq!(build_l_blocks(TetrominoDirection::Down), l.blocks());
    l.rotate(RotateDirection::Right);
    assert_eq!(build_l_blocks(TetrominoDirection::Left), l.blocks());
    l.rotate(RotateDirection::Right);
    assert_eq!(build_l_blocks(TetrominoDirection::Up), l.blocks());
}

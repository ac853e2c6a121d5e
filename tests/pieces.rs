use tetris::piece::Piece;
use tetris::shared::{Block, Color, Direction, MoveDirection, RotateDirection};
use tetris::tetromino::i::I;
use tetris::tetromino::j::J;
use tetris::tetromino::l::L;
use tetris::tetromino::o::O;
use tetris::tetromino::s::S;
use tetris::tetromino::t::T;
use tetris::tetromino::z::Z;
use tetris::tetromino::{Tetromino, TetrominoDirection};

const DIRS: [TetrominoDirection; 4] = [
    TetrominoDirection::Left,
    TetrominoDirection::Up,
    TetrominoDirection::Right,
    TetrominoDirection::Down,
];

fn all_pieces(dir: TetrominoDirection, x: i32, y: i32) -> Vec<Piece> {
    vec![
        Piece::I(I::new(dir, Block::new(Color::Cyan, x, y))),
        Piece::J(J::new(dir, Block::new(Color::Blue, x, y))),
        Piece::L(L::new(dir, Block::new(Color::Orange, x, y))),
        Piece::O(O::new(dir, Block::new(Color::Yellow, x, y))),
        Piece::S(S::new(dir, Block::new(Color::Green, x, y))),
        Piece::T(T::new(dir, Block::new(Color::Purple, x, y))),
        Piece::Z(Z::new(dir, Block::new(Color::Red, x, y))),
    ]
}

fn cells(blocks: &[Block]) -> Vec<(i32, i32)> {
    let mut v: Vec<(i32, i32)> = blocks.iter().map(|b| (*b.x(), *b.y())).collect();
    v.sort();
    v
}

#[test]
fn block_moves_one_cell() {
    let b = Block::new(Color::Red, 3, 7);
    assert_eq!(Block::new(Color::Red, 2, 7), b.move_(Direction::Left));
    assert_eq!(Block::new(Color::Red, 4, 7), b.move_(Direction::Right));
    assert_eq!(Block::new(Color::Red, 3, 6), b.move_(Direction::Down));
    assert_eq!(Block::new(Color::Red, 3, 8), b.move_(Direction::Up));
    assert_eq!(Color::Red, *b.color());
    assert_eq!(3, *b.x());
    assert_eq!(7, *b.y());
}

#[test]
fn block_pixel_positions() {
    let b = Block::new(Color::Orange, 3, 0);
    assert_eq!(96, b.idx_on_image());
    assert_eq!(96, b.x_idx_on_canvas());
    assert_eq!(608, b.y_idx_on_canvas());
    assert_eq!(32, Block::new(Color::Cyan, 0, 19).idx_on_image());
    assert_eq!(224, Block::new(Color::Yellow, 0, 19).idx_on_image());
    assert_eq!(0, Block::new(Color::Yellow, 0, 19).y_idx_on_canvas());
}

#[test]
fn orientation_turns() {
    assert_eq!(TetrominoDirection::Down, TetrominoDirection::Left.rotate(RotateDirection::Left));
    assert_eq!(TetrominoDirection::Right, TetrominoDirection::Down.rotate(RotateDirection::Left));
    assert_eq!(TetrominoDirection::Up, TetrominoDirection::Right.rotate(RotateDirection::Left));
    assert_eq!(TetrominoDirection::Left, TetrominoDirection::Up.rotate(RotateDirection::Left));
    assert_eq!(TetrominoDirection::Up, TetrominoDirection::Left.rotate(RotateDirection::Right));
    assert_eq!(TetrominoDirection::Left, TetrominoDirection::Down.rotate(RotateDirection::Right));
    assert_eq!(TetrominoDirection::Down, TetrominoDirection::Right.rotate(RotateDirection::Right));
    assert_eq!(TetrominoDirection::Right, TetrominoDirection::Up.rotate(RotateDirection::Right));
}

#[test]
fn shapes_in_spawn_orientation() {
    let p = all_pieces(TetrominoDirection::Right, 0, 0);
    assert_eq!(vec![(-2, 0), (-1, 0), (0, 0), (1, 0)], cells(&p[0].blocks()));
    assert_eq!(vec![(-1, 0), (-1, 1), (0, 0), (1, 0)], cells(&p[1].blocks()));
    assert_eq!(vec![(-1, 0), (0, 0), (1, 0), (1, 1)], cells(&p[2].blocks()));
    assert_eq!(vec![(0, 0), (0, 1), (1, 0), (1, 1)], cells(&p[3].blocks()));
    assert_eq!(vec![(-1, 0), (0, 0), (0, 1), (1, 1)], cells(&p[4].blocks()));
    assert_eq!(vec![(-1, 0), (0, 0), (0, 1), (1, 0)], cells(&p[5].blocks()));
    assert_eq!(vec![(-1, 1), (0, 0), (0, 1), (1, 0)], cells(&p[6].blocks()));
}

#[test]
fn every_piece_has_four_blocks_in_its_colour() {
    for dir in DIRS {
        for p in all_pieces(dir, 4, 10) {
            let blocks = p.blocks();
            assert_eq!(4, blocks.len());
            let color = *blocks[0].color();
            for b in &blocks {
                assert_eq!(color, *b.color());
            }
            assert!(blocks.contains(&Block::new(color, 4, 10)));
        }
    }
}

#[test]
fn move_then_opposite_move_restores_axis() {
    for dir in DIRS {
        for p in all_pieces(dir, 4, 10) {
            let mut q = p;
            q.move_(MoveDirection::Left);
            q.move_(MoveDirection::Right);
            assert_eq!(p, q);
            q.move_(MoveDirection::Right);
            q.move_(MoveDirection::Left);
            assert_eq!(p, q);
            q.move_(MoveDirection::Down);
            q.move_(MoveDirection::Down);
            assert_ne!(p, q);
            let mut r = p;
            r.move_(MoveDirection::Left);
            r.move_(MoveDirection::Left);
            assert_ne!(p, r);
        }
    }
}

#[test]
fn four_turns_give_back_the_piece() {
    for rot in [RotateDirection::Left, RotateDirection::Right] {
        for dir in DIRS {
            for p in all_pieces(dir, 4, 10) {
                let mut q = p;
                for _ in 0..4 {
                    q.rotate(rot);
                }
                assert_eq!(p, q);
                assert_eq!(p.blocks(), q.blocks());
            }
        }
    }
}

#[test]
fn opposite_turns_give_back_the_piece() {
    for dir in DIRS {
        for p in all_pieces(dir, 4, 10) {
            let mut q = p;
            q.rotate(RotateDirection::Left);
            q.rotate(RotateDirection::Right);
            assert_eq!(p, q);
            q.rotate(RotateDirection::Right);
            q.rotate(RotateDirection::Left);
            assert_eq!(p, q);
            assert_eq!(p.blocks(), q.blocks());
        }
    }
}

#[test]
fn dry_operations_agree_with_commits() {
    for dir in DIRS {
        for p in all_pieces(dir, 4, 10) {
            for m in [MoveDirection::Left, MoveDirection::Right, MoveDirection::Down] {
                let mut q = p;
                let dry = q.dry_move(m);
                q.move_(m);
                assert_eq!(q.blocks(), dry);
            }
            for rot in [RotateDirection::Left, RotateDirection::Right] {
                let mut q = p;
                let dry = q.dry_rotate(rot);
                q.rotate(rot);
                assert_eq!(q.blocks(), dry);
            }
        }
    }
}

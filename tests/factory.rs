use tetris::piece::Piece;
use tetris::shared::{Block, Color};
use tetris::tetromino_factory::TetrominoFactory;

fn name(p: &Piece) -> char {
    match p {
        Piece::I(_) => 'I',
        Piece::J(_) => 'J',
        Piece::L(_) => 'L',
        Piece::O(_) => 'O',
        Piece::S(_) => 'S',
        Piece::T(_) => 'T',
        Piece::Z(_) => 'Z',
    }
}

fn draw(factory: &mut TetrominoFactory, n: usize) -> Vec<Piece> {
    (0..n).map(|_| factory.pick_tetromino()).collect()
}

fn sorted_names(pieces: &[Piece]) -> String {
    let mut v: Vec<char> = pieces.iter().map(name).collect();
    v.sort();
    v.into_iter().collect()
}

#[test]
fn seven_draws_yield_each_kind_once() {
    let mut factory = TetrominoFactory::with_seed(12345);
    let bag = draw(&mut factory, 7);
    assert_eq!("IJLOSTZ", sorted_names(&bag));
}

#[test]
fn every_aligned_window_holds_each_kind() {
    for seed in [0u64, 1, 2, 99, u64::MAX] {
        let mut factory = TetrominoFactory::with_seed(seed);
        for _ in 0..5 {
            let bag = draw(&mut factory, 7);
            assert_eq!("IJLOSTZ", sorted_names(&bag));
        }
    }
}

#[test]
fn default_factory_draws_a_full_bag() {
    let mut factory = TetrominoFactory::new();
    assert_eq!("IJLOSTZ", sorted_names(&draw(&mut factory, 7)));
    assert_eq!("IJLOSTZ", sorted_names(&draw(&mut factory, 7)));
}

#[test]
fn same_seed_gives_same_sequence() {
    let mut a = TetrominoFactory::with_seed(2024);
    let mut b = TetrominoFactory::with_seed(2024);
    assert_eq!(draw(&mut a, 21), draw(&mut b, 21));
}

#[test]
fn pieces_spawn_in_place() {
    let mut factory = TetrominoFactory::with_seed(5);
    for p in draw(&mut factory, 7) {
        let blocks = p.blocks();
        let (color, axis) = match p {
            Piece::I(_) => (Color::Cyan, (5, 20)),
            Piece::J(_) => (Color::Blue, (4, 20)),
            Piece::L(_) => (Color::Orange, (4, 20)),
            Piece::O(_) => (Color::Yellow, (4, 20)),
            Piece::S(_) => (Color::Green, (4, 20)),
            Piece::T(_) => (Color::Purple, (4, 20)),
            Piece::Z(_) => (Color::Red, (4, 20)),
        };
        assert!(blocks.contains(&Block::new(color, axis.0, axis.1)));
        for b in &blocks {
            assert_eq!(color, *b.color());
            assert!(*b.y() >= 20 && *b.y() <= 21);
        }
    }
}

use tetris::field::Field;
use tetris::shared::{Block, Color};

fn full_field() -> Vec<Vec<Option<Color>>> {
    vec![vec![Some(Color::Cyan); 10]; 24]
}

fn empty_field() -> Vec<Vec<Option<Color>>> {
    vec![vec![None; 10]; 24]
}

fn bottom_four() -> Vec<Block> {
    vec![
        Block::new(Color::Cyan, 0, 0),
        Block::new(Color::Cyan, 1, 0),
        Block::new(Color::Cyan, 2, 0),
        Block::new(Color::Cyan, 3, 0),
    ]
}

#[test]
fn test_is_vacant_1() {
    let field = {
        let mut field = full_field();
        field[0][0] = None;
        field[0][1] = None;
        field[0][2] = None;
        field[0][3] = None;
        Field::new(field)
    };
    assert_eq!(true, field.is_vacant(&bottom_four()));
}

#[test]
fn test_is_vacant_2() {
    let field = {
        let mut field = empty_field();
        field[0][0] = Some(Color::Cyan);
        field[0][1] = Some(Color::Cyan);
        field[0][2] = Some(Color::Cyan);
        field[0][3] = Some(Color::Cyan);
        Field::new(field)
    };
    assert_eq!(false, field.is_vacant(&bottom_four()));
}

#[test]
fn test_is_vacant_3() {
    let field = {
        let mut field = full_field();
        field[0][1] = None;
        field[0][2] = None;
        field[0][3] = None;
        Field::new(field)
    };
    assert_eq!(false, field.is_vacant(&bottom_four()));
}

#[test]
fn fix_blocks_1() {
    let mut field = Field::empty();
    field.fix_blocks(bottom_four());
    assert_eq!(bottom_four(), field.blocks());
    assert_eq!(false, field.is_vacant(&vec![Block::new(Color::Red, 2, 0)]));
    assert_eq!(true, field.is_vacant(&vec![Block::new(Color::Red, 4, 0)]));
}

#[test]
fn out_of_bounds_is_not_vacant() {
    let field = Field::empty();
    assert!(field.is_vacant(&vec![Block::new(Color::Red, 0, 0)]));
    assert!(field.is_vacant(&vec![Block::new(Color::Red, 9, 23)]));
    assert!(!field.is_vacant(&vec![Block::new(Color::Red, -1, 0)]));
    assert!(!field.is_vacant(&vec![Block::new(Color::Red, 10, 0)]));
    assert!(!field.is_vacant(&vec![Block::new(Color::Red, 0, -1)]));
    assert!(!field.is_vacant(&vec![Block::new(Color::Red, 0, 24)]));
    assert!(field.is_vacant(&vec![]));
}

#[test]
fn blocks_are_listed_row_by_row() {
    let mut rows = empty_field();
    rows[3][7] = Some(Color::Green);
    rows[0][5] = Some(Color::Blue);
    rows[3][1] = Some(Color::Red);
    rows[0][2] = Some(Color::Yellow);
    let field = Field::new(rows);
    assert_eq!(
        vec![
            Block::new(Color::Yellow, 2, 0),
            Block::new(Color::Blue, 5, 0),
            Block::new(Color::Red, 1, 3),
            Block::new(Color::Green, 7, 3),
        ],
        field.blocks()
    );
}

#[test]
fn fix_adds_exactly_the_blocks() {
    let mut rows = empty_field();
    rows[0][0] = Some(Color::Blue);
    rows[5][5] = Some(Color::Red);
    let mut field = Field::new(rows);
    let before = field.blocks();
    let added = vec![
        Block::new(Color::Orange, 3, 1),
        Block::new(Color::Orange, 4, 1),
        Block::new(Color::Orange, 4, 2),
        Block::new(Color::Orange, 3, 1),
    ];
    assert!(field.is_vacant(&added));
    field.fix_blocks(added.clone());
    let after = field.blocks();
    let mut expected: Vec<Block> = before;
    for b in added {
        if !expected.contains(&b) {
            expected.push(b);
        }
    }
    assert_eq!(expected.len(), after.len());
    for b in &expected {
        assert!(after.contains(b));
    }
}

#[test]
fn clear_removes_a_single_full_row() {
    let mut rows = empty_field();
    for x in 0..10 {
        rows[0][x] = Some(Color::Yellow);
    }
    rows[1][4] = Some(Color::Red);
    rows[2][0] = Some(Color::Blue);
    let mut field = Field::new(rows);
    assert_eq!(1, field.clear_blocks());
    assert_eq!(
        vec![Block::new(Color::Red, 4, 0), Block::new(Color::Blue, 0, 1)],
        field.blocks()
    );
    assert!(field.is_vacant(&vec![Block::new(Color::Red, 0, 23), Block::new(Color::Red, 9, 23)]));
}

#[test]
fn clear_counts_rows_that_are_not_adjacent() {
    let mut rows = empty_field();
    for x in 0..10 {
        rows[1][x] = Some(Color::Cyan);
        rows[3][x] = Some(Color::Cyan);
    }
    rows[2][6] = Some(Color::Green);
    rows[4][9] = Some(Color::Purple);
    let mut field = Field::new(rows);
    assert_eq!(2, field.clear_blocks());
    assert_eq!(
        vec![Block::new(Color::Green, 6, 1), Block::new(Color::Purple, 9, 2)],
        field.blocks()
    );
}

#[test]
fn clear_of_a_full_field_empties_it() {
    let mut field = Field::new(full_field());
    assert_eq!(24, field.clear_blocks());
    assert_eq!(Vec::<Block>::new(), field.blocks());
}

#[test]
fn second_clear_removes_nothing() {
    let mut rows = empty_field();
    for y in 0..3 {
        for x in 0..10 {
            rows[y][x] = Some(Color::Red);
        }
    }
    rows[3][3] = Some(Color::Red);
    let mut field = Field::new(rows);
    assert_eq!(3, field.clear_blocks());
    assert_eq!(0, field.clear_blocks());
    assert_eq!(vec![Block::new(Color::Red, 3, 0)], field.blocks());
}

#[test]
fn field_keeps_its_size_through_operations() {
    let mut rows = empty_field();
    for x in 0..10 {
        rows[0][x] = Some(Color::Red);
        rows[23][x] = Some(Color::Red);
    }
    let mut field = Field::new(rows);
    field.fix_blocks(vec![Block::new(Color::Blue, 0, 5)]);
    field.clear_blocks();
    field.clear_blocks();
    assert!(field.is_vacant(&vec![Block::new(Color::Red, 9, 23), Block::new(Color::Red, 0, 22)]));
    assert!(!field.is_vacant(&vec![Block::new(Color::Red, 0, 24)]));
    assert!(!field.is_vacant(&vec![Block::new(Color::Red, 10, 23)]));
    assert_eq!(vec![Block::new(Color::Blue, 0, 4)], field.blocks());
}

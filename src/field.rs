use vstd::prelude::*;
use vstd::seq_lib::seq_to_set_distributes_over_add;

use crate::shared::{views, Block, BlockView, Color};

verus! {

/// Number of columns.
pub const WIDTH: usize = 10;

/// Number of rows: twenty visible ones and four above them where pieces spawn.
pub const HEIGHT: usize = 24;

/// A row of cells, column 0 first.
pub type Row = Seq<Option<Color>>;

/// The rows of a field, bottom row (y = 0) first.
pub type Grid = Seq<Row>;

/// `HEIGHT` rows of `WIDTH` cells each.
pub open spec fn is_grid(f: Grid) -> bool {
    &&& f.len() == HEIGHT
    &&& forall|y: int| 0 <= y < f.len() ==> #[trigger] f[y].len() == WIDTH
}

/// The block lies on the field.
pub open spec fn in_field(b: BlockView) -> bool {
    0 <= b.x < WIDTH && 0 <= b.y < HEIGHT
}

/// The block lies on the field, on an empty cell.
pub open spec fn cell_free(f: Grid, b: BlockView) -> bool {
    in_field(b) && f[b.y][b.x] is None
}

/// Every block lies on the field, on an empty cell.
pub open spec fn vacant(f: Grid, bs: Seq<BlockView>) -> bool {
    forall|k: int| 0 <= k < bs.len() ==> cell_free(f, #[trigger] bs[k])
}

/// The grid with the block's colour written into its cell.
pub open spec fn put(f: Grid, b: BlockView) -> Grid {
    f.update(b.y, f[b.y].update(b.x, Some(b.color)))
}

/// The grid with the blocks written in order.
pub open spec fn fixed(f: Grid, bs: Seq<BlockView>) -> Grid
    decreases bs.len(),
{
    if bs.len() == 0 {
        f
    } else {
        put(fixed(f, bs.drop_last()), bs.last())
    }
}

/// Every cell of the row is filled.
pub open spec fn is_full(row: Row) -> bool {
    forall|x: int| 0 <= x < row.len() ==> #[trigger] row[x] is Some
}

/// The rows that are not full, in their order.
pub open spec fn kept(f: Grid) -> Grid
    decreases f.len(),
{
    if f.len() == 0 {
        f
    } else if is_full(f.last()) {
        kept(f.drop_last())
    } else {
        kept(f.drop_last()).push(f.last())
    }
}

/// The number of full rows.
pub open spec fn full_count(f: Grid) -> nat
    decreases f.len(),
{
    if f.len() == 0 {
        0
    } else if is_full(f.last()) {
        full_count(f.drop_last()) + 1
    } else {
        full_count(f.drop_last())
    }
}

pub open spec fn empty_row() -> Row {
    Seq::new(WIDTH as nat, |x: int| None)
}

/// The grid with its full rows taken out, the rows above moved down, and
/// empty rows added on top so that the height stays the same.
pub open spec fn cleared(f: Grid) -> Grid {
    kept(f) + Seq::new((f.len() - kept(f).len()) as nat, |y: int| empty_row())
}

/// The filled cells of a row at height `y`, as blocks, left to right.
pub open spec fn row_blocks(row: Row, y: int) -> Seq<BlockView>
    decreases row.len(),
{
    if row.len() == 0 {
        Seq::empty()
    } else {
        let rest = row_blocks(row.drop_last(), y);
        match row.last() {
            Some(c) => rest.push(BlockView { color: c, x: row.len() - 1, y }),
            None => rest,
        }
    }
}

/// The filled cells of a grid, as blocks, row by row from the bottom.
pub open spec fn grid_blocks(f: Grid) -> Seq<BlockView>
    decreases f.len(),
{
    if f.len() == 0 {
        Seq::empty()
    } else {
        grid_blocks(f.drop_last()) + row_blocks(f.last(), f.len() - 1)
    }
}

/// The playfield: `HEIGHT` rows of `WIDTH` cells, each empty or of a colour.
#[derive(Clone, Debug)]
pub struct Field(Vec<Vec<Option<Color>>>);

impl View for Field {
    type V = Grid;

    closed spec fn view(&self) -> Grid {
        self.0@.map_values(|r: Vec<Option<Color>>| r@)
    }
}

fn empty_row_vec() -> (r: Vec<Option<Color>>)
    ensures
        r@ == empty_row(),
{
    let mut r: Vec<Option<Color>> = Vec::new();
    while r.len() < WIDTH
        invariant
            r.len() <= WIDTH,
            forall|x: int| 0 <= x < r.len() ==> r@[x] is None,
        decreases WIDTH - r.len(),
    {
        r.push(None);
    }
    assert(r@ =~= empty_row());
    r
}

impl Field {
    /// The shape invariant: `HEIGHT` rows of `WIDTH` cells.
    pub open spec fn wf(&self) -> bool {
        is_grid(self@)
    }

    /// A field with the given rows, bottom row first.
    pub fn new(rows: Vec<Vec<Option<Color>>>) -> (r: Field)
        requires
            is_grid(rows@.map_values(|row: Vec<Option<Color>>| row@)),
        ensures
            r@ == rows@.map_values(|row: Vec<Option<Color>>| row@),
            r.wf(),
    {
        Field(rows)
    }

    /// A field with every cell empty.
    pub fn empty() -> (r: Field)
        ensures
            r@ == Seq::new(HEIGHT as nat, |y: int| empty_row()),
            r.wf(),
    {
        let mut rows: Vec<Vec<Option<Color>>> = Vec::new();
        while rows.len() < HEIGHT
            invariant
                rows.len() <= HEIGHT,
                forall|y: int| 0 <= y < rows.len() ==> #[trigger] rows@[y]@ == empty_row(),
            decreases HEIGHT - rows.len(),
        {
            rows.push(empty_row_vec());
        }
        let r = Field(rows);
        assert(r@ =~= Seq::new(HEIGHT as nat, |y: int| empty_row()));
        r
    }

    /// Whether every block lies on the field on an empty cell; a block off
    /// the field is never vacant.
    pub fn is_vacant(&self, blocks: &Vec<Block>) -> (r: bool)
        requires
            self.wf(),
        ensures
            r == vacant(self@, views(blocks@)),
    {
        let mut k: usize = 0;
        while k < blocks.len()
            invariant
                self.wf(),
                k <= blocks.len(),
                forall|j: int| 0 <= j < k ==> cell_free(self@, #[trigger] views(blocks@)[j]),
            decreases blocks.len() - k,
        {
            match self.get(&blocks[k]) {
                Some(color_or_none) => {
                    if color_or_none.is_some() {
                        assert(!cell_free(self@, views(blocks@)[k as int]));
                        return false;
                    }
                },
                None => {
                    assert(!cell_free(self@, views(blocks@)[k as int]));
                    return false;
                },
            }
            k = k + 1;
        }
        true
    }

    /// Writes the colour of each block into its cell.
    pub fn fix_blocks(&mut self, blocks: Vec<Block>)
        requires
            old(self).wf(),
            vacant(old(self)@, views(blocks@)),
        ensures
            final(self).wf(),
            final(self)@ == fixed(old(self)@, views(blocks@)),
    {
        let ghost f = self@;
        let ghost bs = views(blocks@);
        let mut k: usize = 0;
        while k < blocks.len()
            invariant
                k <= blocks.len(),
                bs == views(blocks@),
                vacant(f, bs),
                is_grid(f),
                self.wf(),
                self@ == fixed(f, bs.take(k as int)),
            decreases blocks.len() - k,
        {
            assert(cell_free(f, bs[k as int]));
            self.set(&blocks[k]);
            assert(bs.take(k + 1).drop_last() =~= bs.take(k as int));
            k = k + 1;
        }
        assert(bs.take(blocks.len() as int) =~= bs);
    }

    /// Removes every full row, moves the rows above down and refills the top
    /// with empty rows; returns how many rows were removed.
    pub fn clear_blocks(&mut self) -> (r: u8)
        requires
            old(self).wf(),
        ensures
            final(self).wf(),
            final(self)@ == cleared(old(self)@),
            r == full_count(old(self)@),
    {
        let ghost f = self@;
        let ghost mut j: int = 0;
        let mut i: usize = 0;
        let mut count: u8 = 0;
        while i < self.0.len()
            invariant
                is_grid(f),
                0 <= j <= f.len(),
                i + count == j,
                kept(f.take(j)).len() == i,
                count == full_count(f.take(j)),
                self@ == kept(f.take(j)) + f.skip(j),
                forall|y: int| 0 <= y < self@.len() ==> #[trigger] self@[y].len() == WIDTH,
            decreases self.0.len() - i,
        {
            proof {
                lemma_kept_rows(f.take(j));
                assert(f.take(j + 1).drop_last() =~= f.take(j));
                assert(f.take(j + 1).last() == f[j]);
                assert(self@[i as int] == f[j]);
            }
            if self.is_filled(i) {
                self.clear(i);
                count = count + 1;
                proof {
                    j = j + 1;
                }
                assert(self@ =~= kept(f.take(j)) + f.skip(j));
            } else {
                i = i + 1;
                proof {
                    j = j + 1;
                }
                assert(self@ =~= kept(f.take(j)) + f.skip(j));
            }
        }
        assert(f.take(j) =~= f);
        assert(self@ =~= kept(f));
        proof {
            lemma_kept_count(f);
        }
        let mut added: u8 = 0;
        while added < count
            invariant
                added <= count,
                kept(f).len() + count == HEIGHT,
                self@ =~= kept(f) + Seq::new(added as nat, |y: int| empty_row()),
                forall|y: int| 0 <= y < self@.len() ==> #[trigger] self@[y].len() == WIDTH,
            decreases count - added,
        {
            let ghost before = self@;
            self.0.push(empty_row_vec());
            assert(self@ =~= before.push(empty_row()));
            added = added + 1;
            assert(self@ =~= kept(f) + Seq::new(added as nat, |y: int| empty_row()));
        }
        count
    }

    /// The filled cells as blocks, row by row from the bottom and left to
    /// right within a row.
    pub fn blocks(&self) -> (r: Vec<Block>)
        requires
            self.wf(),
        ensures
            views(r@) == grid_blocks(self@),
    {
        let mut blocks: Vec<Block> = Vec::new();
        let mut y: usize = 0;
        while y < self.0.len()
            invariant
                self.wf(),
                y <= self.0.len(),
                views(blocks@) == grid_blocks(self@.take(y as int)),
            decreases self.0.len() - y,
        {
            let row = &self.0[y];
            assert(row@ == self@[y as int]);
            let mut x: usize = 0;
            while x < row.len()
                invariant
                    self.wf(),
                    y < self.0.len(),
                    row@ == self@[y as int],
                    x <= row.len(),
                    views(blocks@) == grid_blocks(self@.take(y as int)) + row_blocks(
                        row@.take(x as int),
                        y as int,
                    ),
                decreases row.len() - x,
            {
                assert(row@.take(x + 1).drop_last() =~= row@.take(x as int));
                if let Some(color) = row[x] {
                    let ghost before = blocks@;
                    blocks.push(Block::new(color, x as i32, y as i32));
                    assert(views(blocks@) =~= views(before).push(views(blocks@).last()));
                }
                x = x + 1;
            }
            assert(row@.take(x as int) =~= row@);
            assert(self@.take(y + 1).drop_last() =~= self@.take(y as int));
            y = y + 1;
        }
        assert(self@.take(y as int) =~= self@);
        blocks
    }
}

impl Field {
    /// The cell under the block, or `None` if the block is off the field.
    fn get(&self, block: &Block) -> (r: Option<Option<Color>>)
        requires
            self.wf(),
        ensures
            r == (if in_field(block@) {
                Some(self@[block@.y][block@.x])
            } else {
                None
            }),
    {
        let x = *block.x();
        let y = *block.y();
        if x < 0 || y < 0 {
            return None;
        }
        let (x, y) = (x as usize, y as usize);
        if y >= self.0.len() {
            return None;
        }
        let row = &self.0[y];
        assert(row@ == self@[y as int]);
        if x >= row.len() {
            return None;
        }
        Some(row[x])
    }

    /// Writes the block's colour into its cell.
    fn set(&mut self, block: &Block)
        requires
            old(self).wf(),
            in_field(block@),
        ensures
            final(self).wf(),
            final(self)@ == put(old(self)@, block@),
    {
        let x = *block.x() as usize;
        let y = *block.y() as usize;
        let ghost before = self@;
        assert(self.0@[y as int]@ == self@[y as int]);
        self.0[y][x] = Some(*block.color());
        assert(self@ =~= put(before, block@));
    }

    /// Whether the row is full.
    fn is_filled(&self, row_idx: usize) -> (r: bool)
        requires
            row_idx < self@.len(),
        ensures
            r == is_full(self@[row_idx as int]),
    {
        let row = &self.0[row_idx];
        assert(row@ == self@[row_idx as int]);
        let mut x: usize = 0;
        while x < row.len()
            invariant
                row@ == self@[row_idx as int],
                x <= row.len(),
                forall|k: int| 0 <= k < x ==> #[trigger] row@[k] is Some,
            decreases row.len() - x,
        {
            if row[x].is_none() {
                return false;
            }
            x = x + 1;
        }
        true
    }

    /// Takes the row out; the rows above it move down by one.
    fn clear(&mut self, row_idx: usize)
        requires
            row_idx < old(self)@.len(),
        ensures
            final(self)@ == old(self)@.remove(row_idx as int),
    {
        let ghost before = self@;
        self.0.remove(row_idx);
        assert(self@ =~= before.remove(row_idx as int));
    }
}

/// The filled cells of a row at height `y`, as a set of blocks.
pub open spec fn row_cells(row: Row, y: int) -> Set<BlockView> {
    Set::new(|b: BlockView| b.y == y && 0 <= b.x < row.len() && row[b.x] == Some(b.color))
}

/// The filled cells of a grid, as a set of blocks.
pub open spec fn grid_cells(f: Grid) -> Set<BlockView> {
    Set::new(
        |b: BlockView| 0 <= b.y < f.len() && 0 <= b.x < f[b.y].len() && f[b.y][b.x] == Some(b.color),
    )
}

/// No two of the blocks share a cell with different colours.
pub open spec fn consistent(bs: Seq<BlockView>) -> bool {
    forall|i: int, j: int|
        0 <= i < bs.len() && 0 <= j < bs.len() && #[trigger] bs[i].x == #[trigger] bs[j].x
            && bs[i].y == bs[j].y ==> bs[i].color == bs[j].color
}

/// Some block lies on cell `(x, y)`.
pub open spec fn hits(bs: Seq<BlockView>, x: int, y: int) -> bool {
    exists|k: int| 0 <= k < bs.len() && #[trigger] bs[k].x == x && bs[k].y == y
}

/// Fixing vacant blocks adds exactly those blocks to the field's blocks,
/// taken as sets, when no two of them share a cell with different colours.
pub proof fn lemma_fix_adds_blocks(f: Grid, bs: Seq<BlockView>)
    requires
        is_grid(f),
        vacant(f, bs),
        consistent(bs),
    ensures
        grid_blocks(fixed(f, bs)).to_set() == grid_blocks(f).to_set().union(bs.to_set()),
{
    lemma_fixed_cells(f, bs);
    lemma_grid_blocks_cells(f);
    lemma_grid_blocks_cells(fixed(f, bs));
    let g = fixed(f, bs);
    assert forall|b: BlockView|
        grid_cells(g).contains(b) <==> grid_cells(f).contains(b) || bs.contains(b) by {
        if in_field(b) && hits(bs, b.x, b.y) {
            let k = choose|k: int| 0 <= k < bs.len() && #[trigger] bs[k].x == b.x && bs[k].y == b.y;
            assert(cell_free(f, bs[k]));
            if bs.contains(b) {
                let i = choose|i: int| 0 <= i < bs.len() && bs[i] == b;
                assert(bs[i].x == bs[k].x);
            }
            if b.color == bs[k].color {
                assert(b == bs[k]);
            }
        } else if bs.contains(b) {
            let i = choose|i: int| 0 <= i < bs.len() && bs[i] == b;
            assert(cell_free(f, bs[i]));
            assert(hits(bs, b.x, b.y));
        }
    }
    assert(grid_cells(g) =~= grid_cells(f).union(bs.to_set()));
}

/// Clearing leaves no full row, so clearing again removes nothing.
pub proof fn lemma_clear_twice(f: Grid)
    ensures
        full_count(cleared(f)) == 0,
{
    lemma_kept_rows(f);
    let g = cleared(f);
    assert forall|i: int| 0 <= i < g.len() implies !is_full(#[trigger] g[i]) by {
        if i >= kept(f).len() {
            assert(g[i] == empty_row());
            assert(g[i][0] is None);
        } else {
            assert(g[i] == kept(f)[i]);
        }
    }
    lemma_none_full(g);
}

/// A grid with no full row has a full count of zero.
proof fn lemma_none_full(g: Grid)
    requires
        forall|i: int| 0 <= i < g.len() ==> !is_full(#[trigger] g[i]),
    ensures
        full_count(g) == 0,
    decreases g.len(),
{
    if g.len() > 0 {
        assert(!is_full(g[g.len() - 1]));
        lemma_none_full(g.drop_last());
    }
}

/// The blocks listed for a row are its filled cells.
proof fn lemma_row_blocks_cells(row: Row, y: int)
    ensures
        row_blocks(row, y).to_set() == row_cells(row, y),
    decreases row.len(),
{
    if row.len() == 0 {
        assert(row_blocks(row, y).to_set() =~= row_cells(row, y));
    } else {
        let rest = row.drop_last();
        lemma_row_blocks_cells(rest, y);
        match row.last() {
            Some(c) => {
                let nb = BlockView { color: c, x: row.len() - 1, y };
                row_blocks(rest, y).lemma_push_to_set_commute(nb);
                assert(row_blocks(row, y).to_set() =~= row_cells(row, y));
            },
            None => {
                assert(row_blocks(row, y).to_set() =~= row_cells(row, y));
            },
        }
    }
}

/// The blocks listed for a grid are its filled cells.
proof fn lemma_grid_blocks_cells(f: Grid)
    ensures
        grid_blocks(f).to_set() == grid_cells(f),
    decreases f.len(),
{
    if f.len() == 0 {
        assert(grid_blocks(f).to_set() =~= grid_cells(f));
    } else {
        let rest = f.drop_last();
        lemma_grid_blocks_cells(rest);
        lemma_row_blocks_cells(f.last(), f.len() - 1);
        seq_to_set_distributes_over_add(grid_blocks(rest), row_blocks(f.last(), f.len() - 1));
        assert(grid_blocks(f).to_set() =~= grid_cells(f));
    }
}

/// Fixing keeps the grid's shape; a cell that no block lies on keeps its
/// content, and a cell that one lies on holds that block's colour.
proof fn lemma_fixed_cells(f: Grid, bs: Seq<BlockView>)
    requires
        is_grid(f),
        forall|k: int| 0 <= k < bs.len() ==> in_field(#[trigger] bs[k]),
        consistent(bs),
    ensures
        is_grid(fixed(f, bs)),
        forall|x: int, y: int|
            0 <= x < WIDTH && 0 <= y < HEIGHT && !hits(bs, x, y) ==> #[trigger] fixed(f, bs)[y][x]
                == f[y][x],
        forall|k: int|
            0 <= k < bs.len() ==> fixed(f, bs)[#[trigger] bs[k].y][bs[k].x] == Some(bs[k].color),
    decreases bs.len(),
{
    if bs.len() > 0 {
        let rest = bs.drop_last();
        let last = bs.last();
        assert forall|k: int| 0 <= k < rest.len() implies in_field(#[trigger] rest[k]) by {
            assert(rest[k] == bs[k]);
        }
        assert forall|i: int, j: int|
            0 <= i < rest.len() && 0 <= j < rest.len() && #[trigger] rest[i].x == #[trigger] rest[j].x
                && rest[i].y == rest[j].y implies rest[i].color == rest[j].color by {
            assert(rest[i] == bs[i] && rest[j] == bs[j]);
        }
        lemma_fixed_cells(f, rest);
        let g = fixed(f, rest);
        assert(in_field(bs[bs.len() - 1]));
        assert forall|x: int, y: int|
            0 <= x < WIDTH && 0 <= y < HEIGHT && !hits(bs, x, y) implies #[trigger] fixed(f, bs)[y][x]
            == f[y][x] by {
            if hits(rest, x, y) {
                let k = choose|k: int| 0 <= k < rest.len() && #[trigger] rest[k].x == x && rest[k].y == y;
                assert(bs[k].x == x && bs[k].y == y);
            }
            assert(!(bs[bs.len() - 1].x == x && bs[bs.len() - 1].y == y));
        }
        assert forall|k: int| 0 <= k < bs.len() implies fixed(f, bs)[#[trigger] bs[k].y][bs[k].x]
            == Some(bs[k].color) by {
            if k < rest.len() {
                assert(rest[k] == bs[k]);
                if bs[k].x == last.x && bs[k].y == last.y {
                    assert(bs[k].color == bs[bs.len() - 1].color);
                }
            }
        }
    }
}

/// No kept row is full, and the kept rows are rows of the grid.
proof fn lemma_kept_rows(f: Grid)
    ensures
        forall|i: int| 0 <= i < kept(f).len() ==> !is_full(#[trigger] kept(f)[i]),
        forall|i: int| 0 <= i < kept(f).len() ==> exists|y: int| 0 <= y < f.len() && #[trigger] kept(f)[i] == f[y],
    decreases f.len(),
{
    if f.len() > 0 {
        lemma_kept_rows(f.drop_last());
        assert forall|i: int| 0 <= i < kept(f).len() implies exists|y: int| 0 <= y < f.len() && #[trigger] kept(f)[i] == f[y] by {
            if i < kept(f.drop_last()).len() {
                let y = choose|y: int| 0 <= y < f.drop_last().len() && kept(f.drop_last())[i] == f.drop_last()[y];
                assert(kept(f)[i] == f[y]);
            } else {
                assert(kept(f)[i] == f[f.len() - 1]);
            }
        }
    }
}

/// Kept rows and full rows make up the grid.
proof fn lemma_kept_count(f: Grid)
    ensures
        kept(f).len() + full_count(f) == f.len(),
    decreases f.len(),
{
    if f.len() > 0 {
        lemma_kept_count(f.drop_last());
    }
}

} // verus!

use vstd::prelude::*;

use crate::piece::Piece;
use crate::shared::{Block, BlockView, Color};
use crate::tetromino::i::I;
use crate::tetromino::j::J;
use crate::tetromino::l::L;
use crate::tetromino::o::O;
use crate::tetromino::s::S;
use crate::tetromino::t::T;
use crate::tetromino::z::Z;
use crate::tetromino::{Kind, PieceView, Tetromino, TetrominoDirection};

verus! {

/// Seed used by `TetrominoFactory::new`.
pub const DEFAULT_SEED: u64 = 0x2545_f491_4f6c_dd1d;

/// The colour of each kind.
pub open spec fn color_of(kind: Kind) -> Color {
    match kind {
        Kind::I => Color::Cyan,
        Kind::J => Color::Blue,
        Kind::L => Color::Orange,
        Kind::O => Color::Yellow,
        Kind::S => Color::Green,
        Kind::T => Color::Purple,
        Kind::Z => Color::Red,
    }
}

/// A new piece of the kind: orientation Right, axis at (5, 20) for I and at
/// (4, 20) for the others.
pub open spec fn spawn_of(kind: Kind) -> PieceView {
    PieceView {
        kind,
        dir: TetrominoDirection::Right,
        axis: BlockView { color: color_of(kind), x: if kind == Kind::I { 5 } else { 4 }, y: 20 },
    }
}

/// The seven kinds, in a fixed order.
pub open spec fn all_kinds() -> Seq<Kind> {
    seq![Kind::I, Kind::J, Kind::L, Kind::O, Kind::S, Kind::T, Kind::Z]
}

/// One step of the linear congruential generator behind the shuffles.
pub open spec fn next_seed(seed: u64) -> u64 {
    seed.wrapping_mul(6364136223846793005).wrapping_add(1442695040888963407)
}

/// An index below `n` taken from the high bits of a generator state.
pub open spec fn index_from(seed: u64, n: nat) -> int {
    ((seed >> 33u64) as int) % (n as int)
}

/// The generator state after `n` steps.
pub open spec fn seed_after(seed: u64, n: nat) -> u64
    decreases n,
{
    if n == 0 {
        seed
    } else {
        seed_after(next_seed(seed), (n - 1) as nat)
    }
}

/// The order in which a shuffle driven by `seed` deals the pool: at each
/// step the generator advances and picks one of the remaining kinds.
pub open spec fn deal(pool: Seq<Kind>, seed: u64) -> Seq<Kind>
    decreases pool.len(),
{
    if pool.len() == 0 {
        Seq::empty()
    } else {
        let s = next_seed(seed);
        let k = index_from(s, pool.len());
        seq![pool[k]] + deal(pool.remove(k), s)
    }
}

/// The state of a randomizer: the kinds left in the bag (drawn from the end)
/// and the generator state.
pub struct FactoryView {
    pub bag: Seq<Kind>,
    pub seed: u64,
}

/// The state with the bag refilled by a fresh shuffle if it was empty.
pub open spec fn refilled(f: FactoryView) -> FactoryView {
    if f.bag.len() == 0 {
        FactoryView { bag: deal(all_kinds(), f.seed), seed: seed_after(f.seed, 7) }
    } else {
        f
    }
}

/// The kind that the next draw yields.
pub open spec fn drawn(f: FactoryView) -> Kind {
    refilled(f).bag.last()
}

/// The state after the next draw.
pub open spec fn after_draw(f: FactoryView) -> FactoryView {
    FactoryView { bag: refilled(f).bag.drop_last(), ..refilled(f) }
}

/// The kinds of the next `n` draws, in order.
pub open spec fn draws(f: FactoryView, n: nat) -> Seq<Kind>
    decreases n,
{
    if n == 0 {
        Seq::empty()
    } else {
        seq![drawn(f)] + draws(after_draw(f), (n - 1) as nat)
    }
}

/// The state after the next `n` draws.
pub open spec fn advanced(f: FactoryView, n: nat) -> FactoryView
    decreases n,
{
    if n == 0 {
        f
    } else {
        advanced(after_draw(f), (n - 1) as nat)
    }
}

/// Seven draws that start where a bag is used up yield each of the seven
/// kinds exactly once, and end where the next bag is used up; so every
/// aligned window of seven draws holds each kind once.
pub proof fn lemma_seven_bag(f: FactoryView)
    requires
        f.bag.len() == 0,
    ensures
        draws(f, 7).len() == 7,
        draws(f, 7).no_duplicates(),
        forall|k: Kind| draws(f, 7).contains(k),
        advanced(f, 7).bag.len() == 0,
{
    let r = refilled(f);
    lemma_deal(all_kinds(), f.seed);
    lemma_all_kinds();
    assert(drawn(f) == drawn(r));
    assert(after_draw(f) == after_draw(r));
    assert(draws(f, 7) == draws(r, 7));
    assert(advanced(f, 7) == advanced(r, 7));
    assert(r.bag.len() == 7);
    lemma_draws_bag(r);
    assert forall|k: Kind| draws(f, 7).contains(k) by {
        assert(all_kinds().contains(k));
        assert(r.bag.contains(k));
    }
}

/// Every kind is listed once.
proof fn lemma_all_kinds()
    ensures
        all_kinds().no_duplicates(),
        forall|k: Kind| all_kinds().contains(k),
{
    let a = all_kinds();
    assert forall|k: Kind| a.contains(k) by {
        match k {
            Kind::I => assert(a[0] == k),
            Kind::J => assert(a[1] == k),
            Kind::L => assert(a[2] == k),
            Kind::O => assert(a[3] == k),
            Kind::S => assert(a[4] == k),
            Kind::T => assert(a[5] == k),
            Kind::Z => assert(a[6] == k),
        }
    }
}

/// A shuffle deals each kind of the pool, and nothing else, once per
/// occurrence.
proof fn lemma_deal(pool: Seq<Kind>, seed: u64)
    ensures
        deal(pool, seed).len() == pool.len(),
        forall|k: Kind| deal(pool, seed).contains(k) <==> pool.contains(k),
        pool.no_duplicates() ==> deal(pool, seed).no_duplicates(),
    decreases pool.len(),
{
    if pool.len() > 0 {
        let s = next_seed(seed);
        let i = index_from(s, pool.len());
        let rest = pool.remove(i);
        let x = pool[i];
        let d = deal(rest, s);
        lemma_deal(rest, s);
        assert(deal(pool, seed) == seq![x] + d);
        assert forall|k: Kind| (seq![x] + d).contains(k) <==> pool.contains(k) by {
            if pool.contains(k) {
                let j = choose|j: int| 0 <= j < pool.len() && pool[j] == k;
                if j < i {
                    assert(rest[j] == k);
                } else if j > i {
                    assert(rest[j - 1] == k);
                } else {
                    assert((seq![x] + d)[0] == k);
                }
                if j != i {
                    assert(rest.contains(k));
                    assert(d.contains(k));
                    let m = choose|m: int| 0 <= m < d.len() && d[m] == k;
                    assert((seq![x] + d)[m + 1] == k);
                }
            }
            if (seq![x] + d).contains(k) {
                let m = choose|m: int| 0 <= m < (seq![x] + d).len() && (seq![x] + d)[m] == k;
                if m > 0 {
                    assert(d[m - 1] == k);
                    assert(d.contains(k));
                    assert(rest.contains(k));
                    let j = choose|j: int| 0 <= j < rest.len() && rest[j] == k;
                    if j < i {
                        assert(pool[j] == k);
                    } else {
                        assert(pool[j + 1] == k);
                    }
                }
            }
        }
        if pool.no_duplicates() {
            assert forall|a: int, b: int| 0 <= a < rest.len() && 0 <= b < rest.len() && a != b implies rest[a] != rest[b] by {
                let pa = if a < i { a } else { a + 1 };
                let pb = if b < i { b } else { b + 1 };
                assert(rest[a] == pool[pa] && rest[b] == pool[pb]);
            }
            assert(!rest.contains(x)) by {
                if rest.contains(x) {
                    let j = choose|j: int| 0 <= j < rest.len() && rest[j] == x;
                    let pj = if j < i { j } else { j + 1 };
                    assert(pool[pj] == x);
                }
            }
            assert(!d.contains(x));
            assert forall|a: int, b: int| 0 <= a < (seq![x] + d).len() && 0 <= b < (seq![x] + d).len() && a != b implies (seq![x] + d)[a] != (seq![x] + d)[b] by {
                if a == 0 && b > 0 {
                    assert((seq![x] + d)[b] == d[b - 1]);
                } else if b == 0 && a > 0 {
                    assert((seq![x] + d)[a] == d[a - 1]);
                }
            }
        }
    }
}

/// Drawing a whole bag yields its kinds, once per occurrence, and empties it.
proof fn lemma_draws_bag(f: FactoryView)
    ensures
        draws(f, f.bag.len()).len() == f.bag.len(),
        forall|k: Kind| draws(f, f.bag.len()).contains(k) <==> f.bag.contains(k),
        f.bag.no_duplicates() ==> draws(f, f.bag.len()).no_duplicates(),
        advanced(f, f.bag.len()).bag.len() == 0,
    decreases f.bag.len(),
{
    let n = f.bag.len();
    if n > 0 {
        let g = after_draw(f);
        let x = f.bag.last();
        assert(g.bag == f.bag.drop_last());
        assert(g.bag.len() == n - 1);
        lemma_draws_bag(g);
        let d = draws(g, g.bag.len());
        assert(draws(f, n) == seq![x] + d);
        assert forall|k: Kind| (seq![x] + d).contains(k) <==> f.bag.contains(k) by {
            if f.bag.contains(k) {
                let j = choose|j: int| 0 <= j < f.bag.len() && f.bag[j] == k;
                if j < n - 1 {
                    assert(g.bag[j] == k);
                    assert(g.bag.contains(k));
                    assert(d.contains(k));
                    let m = choose|m: int| 0 <= m < d.len() && d[m] == k;
                    assert((seq![x] + d)[m + 1] == k);
                } else {
                    assert((seq![x] + d)[0] == k);
                }
            }
            if (seq![x] + d).contains(k) {
                let m = choose|m: int| 0 <= m < (seq![x] + d).len() && (seq![x] + d)[m] == k;
                if m > 0 {
                    assert(d[m - 1] == k);
                    assert(d.contains(k));
                    assert(g.bag.contains(k));
                    let j = choose|j: int| 0 <= j < g.bag.len() && g.bag[j] == k;
                    assert(f.bag[j] == k);
                } else {
                    assert(f.bag[n - 1] == k);
                }
            }
        }
        if f.bag.no_duplicates() {
            assert(!d.contains(x)) by {
                if d.contains(x) {
                    assert(g.bag.contains(x));
                    let j = choose|j: int| 0 <= j < g.bag.len() && g.bag[j] == x;
                    assert(f.bag[j] == g.bag[j]);
                    assert(f.bag[j] == f.bag[n - 1]);
                }
            }
            assert forall|a: int, b: int| 0 <= a < (seq![x] + d).len() && 0 <= b < (seq![x] + d).len() && a != b implies (seq![x] + d)[a] != (seq![x] + d)[b] by {
                if a == 0 && b > 0 {
                    assert((seq![x] + d)[b] == d[b - 1]);
                } else if b == 0 && a > 0 {
                    assert((seq![x] + d)[a] == d[a - 1]);
                }
            }
        }
    }
}

/// The seven-bag randomizer: it deals the seven kinds in a shuffled order,
/// then shuffles again.
pub struct TetrominoFactory {
    seven_bag: Vec<Kind>,
    seed: u64,
}

impl View for TetrominoFactory {
    type V = FactoryView;

    closed spec fn view(&self) -> FactoryView {
        FactoryView { bag: self.seven_bag@, seed: self.seed }
    }
}

fn step_seed(seed: u64) -> (r: u64)
    ensures
        r == next_seed(seed),
{
    seed.wrapping_mul(6364136223846793005).wrapping_add(1442695040888963407)
}

impl TetrominoFactory {
    /// A randomizer with the default seed.
    pub fn new() -> (r: TetrominoFactory)
        ensures
            r@ == refilled(FactoryView { bag: Seq::empty(), seed: DEFAULT_SEED }),
    {
        Self::with_seed(DEFAULT_SEED)
    }

    /// A randomizer whose shuffles are driven by `seed`.
    pub fn with_seed(seed: u64) -> (r: TetrominoFactory)
        ensures
            r@ == refilled(FactoryView { bag: Seq::empty(), seed }),
    {
        let (seven_bag, seed) = Self::new_seven_bag(seed);
        TetrominoFactory { seven_bag, seed }
    }

    /// Draws the next piece, refilling the bag first if it is empty.
    pub fn pick_tetromino(&mut self) -> (r: Piece)
        ensures
            r@ == spawn_of(drawn(old(self)@)),
            final(self)@ == after_draw(old(self)@),
    {
        let kind = if let Some(kind) = self.seven_bag.pop() {
            kind
        } else {
            let (seven_bag, seed) = Self::new_seven_bag(self.seed);
            self.seven_bag = seven_bag;
            self.seed = seed;
            self.seven_bag.pop().unwrap()
        };
        Self::create(kind)
    }
}

impl TetrominoFactory {
    /// The seven kinds in the order that a shuffle driven by `seed` deals
    /// them, and the generator state after it.
    fn new_seven_bag(seed: u64) -> (r: (Vec<Kind>, u64))
        ensures
            r.0@ == deal(all_kinds(), seed),
            r.1 == seed_after(seed, 7),
    {
        let mut pool: Vec<Kind> = Vec::new();
        pool.push(Kind::I);
        pool.push(Kind::J);
        pool.push(Kind::L);
        pool.push(Kind::O);
        pool.push(Kind::S);
        pool.push(Kind::T);
        pool.push(Kind::Z);
        assert(pool@ =~= all_kinds());
        let mut bag: Vec<Kind> = Vec::new();
        let mut s = seed;
        while pool.len() > 0
            invariant
                bag@ + deal(pool@, s) == deal(all_kinds(), seed),
                seed_after(s, pool.len() as nat) == seed_after(seed, 7),
            decreases pool.len(),
        {
            let ghost before = bag@;
            let ghost rest = pool@;
            let ghost prev = s;
            s = step_seed(s);
            let k = ((s >> 33u64) % (pool.len() as u64)) as usize;
            assert(k as int == index_from(s, rest.len()));
            assert(deal(rest, prev) == seq![rest[k as int]] + deal(rest.remove(k as int), s));
            let kind = pool.remove(k);
            bag.push(kind);
            assert(bag@ + deal(pool@, s) =~= before + deal(rest, prev));
        }
        assert(pool@ =~= Seq::<Kind>::empty());
        assert(bag@ =~= bag@ + deal(pool@, s));
        (bag, s)
    }

    fn create(kind: Kind) -> (r: Piece)
        ensures
            r@ == spawn_of(kind),
    {
        match kind {
            Kind::I => Piece::I(Self::create_i()),
            Kind::J => Piece::J(Self::create_j()),
            Kind::L => Piece::L(Self::create_l()),
            Kind::O => Piece::O(Self::create_o()),
            Kind::S => Piece::S(Self::create_s()),
            Kind::T => Piece::T(Self::create_t()),
            Kind::Z => Piece::Z(Self::create_z()),
        }
    }

    fn create_i() -> (r: I)
        ensures
            r@ == spawn_of(Kind::I),
    {
        I::new(TetrominoDirection::Right, Block::new(Color::Cyan, 5, 20))
    }

    fn create_j() -> (r: J)
        ensures
            r@ == spawn_of(Kind::J),
    {
        J::new(TetrominoDirection::Right, Block::new(Color::Blue, 4, 20))
    }

    fn create_l() -> (r: L)
        ensures
            r@ == spawn_of(Kind::L),
    {
        L::new(TetrominoDirection::Right, Block::new(Color::Orange, 4, 20))
    }

    fn create_o() -> (r: O)
        ensures
            r@ == spawn_of(Kind::O),
    {
        O::new(TetrominoDirection::Right, Block::new(Color::Yellow, 4, 20))
    }

    fn create_s() -> (r: S)
        ensures
            r@ == spawn_of(Kind::S),
    {
        S::new(TetrominoDirection::Right, Block::new(Color::Green, 4, 20))
    }

    fn create_t() -> (r: T)
        ensures
            r@ == spawn_of(Kind::T),
    {
        T::new(TetrominoDirection::Right, Block::new(Color::Purple, 4, 20))
    }

    fn create_z() -> (r: Z)
        ensures
            r@ == spawn_of(Kind::Z),
    {
        Z::new(TetrominoDirection::Right, Block::new(Color::Red, 4, 20))
    }
}

} // verus!

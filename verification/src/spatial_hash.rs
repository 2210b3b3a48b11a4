//! A bucketed set of occupied grid cells.
//!
//! Cells are grouped into square buckets of `cell_size` cells a side. A
//! bucket is found by the coordinates divided by the bucket size, so a
//! membership test looks at a single bucket.

use std::collections::HashMap;
use std::collections::HashSet;
use vstd::prelude::*;
use crate::position::Position;

verus! {

/// Quotient of `a` by `b` rounded toward zero, the way machine integers
/// divide.
pub open spec fn trunc_div(a: int, b: int) -> int {
    if a >= 0 {
        a / b
    } else {
        -((-a) / b)
    }
}

/// The pair `(a, b)` of 32-bit coordinates written as one 64-bit number:
/// both are shifted to be non-negative, `a` fills the high half and `b` the
/// low half.
pub open spec fn packed(a: int, b: int) -> int {
    (a + 0x8000_0000) * 0x1_0000_0000 + (b + 0x8000_0000)
}

/// The number under which a cell is stored inside its bucket.
pub open spec fn cell_code(p: Position) -> int {
    packed(p.x as int, p.y as int)
}

/// The bucket that cell `p` belongs to when buckets are `cell_size` cells a
/// side: its coordinates divided by the bucket size.
pub open spec fn bucket_of(p: Position, cell_size: int) -> (int, int) {
    (trunc_div(p.x as int, cell_size), trunc_div(p.y as int, cell_size))
}

/// Whether both coordinates of a bucket fit the coordinate type.
pub open spec fn is_bucket(key: (int, int)) -> bool {
    i32::MIN <= key.0 <= i32::MAX && i32::MIN <= key.1 <= i32::MAX
}

/// The number under which the bucket of cell `p` is stored.
pub open spec fn bucket_key(p: Position, cell_size: int) -> int {
    packed(bucket_of(p, cell_size).0, bucket_of(p, cell_size).1)
}

/// Cell `p` belongs to the bucket stored under `key` and has the code
/// `code`.
pub open spec fn filed_as(p: Position, cell_size: int, key: u64, code: u64) -> bool {
    &&& cell_code(p) == code
    &&& is_bucket(bucket_of(p, cell_size))
    &&& bucket_key(p, cell_size) == key
}

/// Different pairs of 32-bit coordinates are written as different numbers.
pub proof fn lemma_packed_injective(a: int, b: int, c: int, d: int)
    requires
        i32::MIN <= a <= i32::MAX,
        i32::MIN <= b <= i32::MAX,
        i32::MIN <= c <= i32::MAX,
        i32::MIN <= d <= i32::MAX,
        packed(a, b) == packed(c, d),
    ensures
        a == c,
        b == d,
{
}

/// Dividing a 32-bit number by a non-zero 32-bit number, rounding toward
/// zero, gives a 32-bit number, but for the least number divided by -1.
proof fn lemma_trunc_div_in_range(a: int, b: int)
    requires
        b != 0,
        i32::MIN <= a <= i32::MAX,
        !(a == i32::MIN && b == -1),
    ensures
        i32::MIN <= trunc_div(a, b) <= i32::MAX,
{
    let n = if a >= 0 {
        a
    } else {
        -a
    };
    assert(-n <= n / b <= n && ((b <= -2 || b >= 2) ==> -n <= 2 * (n / b) <= n)) by (nonlinear_arith)
        requires
            n >= 0,
            b != 0,
    ;
}

fn pack(a: i32, b: i32) -> (r: u64)
    ensures
        r == packed(a as int, b as int),
{
    let hi: u64 = (a as i64 + 0x8000_0000) as u64;
    let lo: u64 = (b as i64 + 0x8000_0000) as u64;
    hi * 0x1_0000_0000 + lo
}

/// Set of occupied cells, bucketed by coarse cell.
pub struct SpatialHash {
    cell_size: i32,
    grid: HashMap<u64, HashSet<u64>>,
}

impl View for SpatialHash {
    type V = Set<Position>;

    /// The cells that are present: those found in the bucket they belong
    /// to.
    closed spec fn view(&self) -> Set<Position> {
        Set::new(|p: Position| self.bucket(bucket_of(p, self.cell_size as int)).contains(p))
    }
}

impl SpatialHash {
    /// The side of a bucket, in cells.
    pub closed spec fn cell_size(&self) -> int {
        self.cell_size as int
    }

    /// The cells filed under the bucket `key`.
    pub closed spec fn bucket(&self, key: (int, int)) -> Set<Position> {
        let k = packed(key.0, key.1) as u64;
        Set::new(
            |p: Position|
                is_bucket(key) && self.grid@.contains_key(k) && self.grid@[k]@.contains(
                    cell_code(p) as u64,
                ),
        )
    }

    /// The index's invariant: whatever is filed under a bucket is a cell
    /// that belongs to that bucket. `new` establishes it and every operation
    /// keeps it.
    pub closed spec fn wf(&self) -> bool {
        forall|k: u64, c: u64|
            self.grid@.contains_key(k) && #[trigger] self.grid@[k]@.contains(c) ==> exists|
                p: Position,
            | #[trigger] filed_as(p, self.cell_size as int, k, c)
    }

    /// In a well-formed index the buckets split the cells that are present
    /// by the bucket each belongs to: a bucket holds a cell exactly if the
    /// cell is present and belongs to that bucket.
    pub proof fn lemma_bucket_contents(&self, key: (int, int), p: Position)
        requires
            self.wf(),
        ensures
            self.bucket(key).contains(p) <==> self@.contains(p) && bucket_of(p, self.cell_size())
                == key,
    {
        if self.bucket(key).contains(p) {
            let k = packed(key.0, key.1) as u64;
            let c = cell_code(p) as u64;
            let q = choose|q: Position| #[trigger] filed_as(q, self.cell_size as int, k, c);
            lemma_packed_injective(q.x as int, q.y as int, p.x as int, p.y as int);
            let own = bucket_of(p, self.cell_size as int);
            lemma_packed_injective(own.0, own.1, key.0, key.1);
        }
    }

    /// Whether the bucket of `pos` can be computed: the bucket size is not
    /// zero and the division stays within the coordinate type.
    pub open spec fn can_locate(&self, pos: Position) -> bool {
        &&& self.cell_size() != 0
        &&& self.cell_size() == -1 ==> pos.x != i32::MIN && pos.y != i32::MIN
    }

    /// An empty index with buckets `cell_size` cells a side.
    pub fn new(cell_size: i32) -> (index: SpatialHash)
        ensures
            index@ == Set::<Position>::empty(),
            index.cell_size() == cell_size,
            index.wf(),
    {
        let index = SpatialHash { cell_size, grid: HashMap::new() };
        index
    }

    /// Removes every cell.
    pub fn clear(&mut self)
        ensures
            final(self)@ == Set::<Position>::empty(),
            final(self).cell_size() == old(self).cell_size(),
            final(self).wf(),
    {
        self.grid.clear();
    }

    fn key_of(&self, pos: Position) -> (key: u64)
        requires
            self.can_locate(pos),
        ensures
            key == bucket_key(pos, self.cell_size()),
            is_bucket(bucket_of(pos, self.cell_size())),
    {
        proof {
            lemma_trunc_div_in_range(pos.x as int, self.cell_size as int);
            lemma_trunc_div_in_range(pos.y as int, self.cell_size as int);
        }
        pack(pos.x / self.cell_size, pos.y / self.cell_size)
    }

    /// Adds `pos` to the bucket it belongs to. Adding a cell that is already
    /// present changes nothing.
    pub fn insert(&mut self, pos: Position)
        requires
            old(self).can_locate(pos),
        ensures
            final(self)@ == old(self)@.insert(pos),
            final(self).cell_size() == old(self).cell_size(),
            old(self).wf() ==> final(self).wf(),
    {
        broadcast use vstd::std_specs::hash::group_hash_axioms;

        let key: u64 = self.key_of(pos);
        let code: u64 = pack(pos.x, pos.y);
        let _ = self.grid.entry(key).or_insert(HashSet::new()).insert(code);
        proof {
            let cs = self.cell_size as int;
            assert forall|q: Position| self@.contains(q) == old(self)@.insert(pos).contains(q) by {
                if q != pos {
                    if cell_code(q) == cell_code(pos) {
                        lemma_packed_injective(q.x as int, q.y as int, pos.x as int, pos.y as int);
                    }
                }
            }
            if old(self).wf() {
                assert forall|k: u64, c: u64|
                    self.grid@.contains_key(k) && #[trigger] self.grid@[k]@.contains(
                        c,
                    ) implies exists|p: Position| #[trigger] filed_as(p, cs, k, c) by {
                    if k == key && c == code {
                        assert(filed_as(pos, cs, k, c));
                    }
                }
            }
        }
    }

    /// Tells whether `pos` is present, by looking into its bucket.
    pub fn contains(&self, pos: Position) -> (found: bool)
        requires
            self.can_locate(pos),
        ensures
            found == self@.contains(pos),
            found == self.bucket(bucket_of(pos, self.cell_size())).contains(pos),
    {
        broadcast use vstd::std_specs::hash::group_hash_axioms;

        let key: u64 = self.key_of(pos);
        let code: u64 = pack(pos.x, pos.y);
        if let Some(positions) = self.grid.get(&key) {
            positions.contains(&code)
        } else {
            false
        }
    }
}

} // verus!

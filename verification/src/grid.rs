//! Counting the cells of a grid.

use vstd::prelude::*;
use vstd::set_lib::lemma_int_range;
use vstd::set_lib::lemma_len_subset;
use vstd::set_lib::set_int_range;
use crate::position::Position;

verus! {

/// The place of cell `p` when the cells of a grid `width` columns wide are
/// counted row by row.
pub open spec fn cell_index(p: Position, width: int) -> int {
    p.y * width + p.x
}

/// Every cell of the grid in `s`.
pub open spec fn all_in_grid(s: Seq<Position>, width: int, height: int) -> bool {
    forall|i: int| 0 <= i < s.len() ==> (#[trigger] s[i]).in_grid(width, height)
}

/// A cell of the grid has a place between zero and the number of cells.
pub proof fn lemma_cell_index_range(p: Position, width: int, height: int)
    requires
        p.in_grid(width, height),
    ensures
        0 <= cell_index(p, width) < width * height,
{
    assert(0 <= p.y * width && p.y * width + width <= height * width) by (nonlinear_arith)
        requires
            0 <= p.y < height,
            0 < width,
    ;
    assert(height * width == width * height) by (nonlinear_arith);
}

/// Two cells of the grid with the same place are the same cell.
pub proof fn lemma_cell_index_injective(p: Position, q: Position, width: int, height: int)
    requires
        p.in_grid(width, height),
        q.in_grid(width, height),
        cell_index(p, width) == cell_index(q, width),
    ensures
        p == q,
{
    assert(p.y == q.y) by (nonlinear_arith)
        requires
            p.y * width + p.x == q.y * width + q.x,
            0 <= p.x < width,
            0 <= q.x < width,
    ;
}

/// Pairwise different cells of a grid are at most as many as the grid has
/// cells.
pub proof fn lemma_distinct_cells_fit(s: Seq<Position>, width: int, height: int)
    requires
        s.no_duplicates(),
        all_in_grid(s, width, height),
        0 < width,
        0 < height,
    ensures
        s.len() <= width * height,
{
    let places = s.map_values(|p: Position| cell_index(p, width));
    assert forall|i: int, j: int|
        0 <= i < places.len() && 0 <= j < places.len() && i != j implies places[i] != places[j] by {
        if places[i] == places[j] {
            lemma_cell_index_injective(s[i], s[j], width, height);
        }
    }
    places.unique_seq_to_set();
    lemma_int_range(0, width * height);
    assert forall|k: int| places.to_set().contains(k) implies set_int_range(
        0,
        width * height,
    ).contains(k) by {
        let i = choose|i: int| 0 <= i < places.len() && places[i] == k;
        lemma_cell_index_range(s[i], width, height);
    }
    lemma_len_subset(places.to_set(), set_int_range(0, width * height));
}

/// Appending a cell that a sequence of pairwise different cells does not
/// hold keeps the cells pairwise different.
pub proof fn lemma_push_distinct(s: Seq<Position>, p: Position)
    requires
        s.no_duplicates(),
        !s.contains(p),
    ensures
        s.push(p).no_duplicates(),
{
}

/// Dropping the first of pairwise different cells keeps the rest pairwise
/// different, and the rest holds no cell that was not there before.
pub proof fn lemma_drop_first_distinct(s: Seq<Position>)
    requires
        s.no_duplicates(),
        s.len() > 0,
    ensures
        s.drop_first().no_duplicates(),
        forall|p: Position| s.drop_first().contains(p) ==> s.contains(p),
{
}

} // verus!

//! The rule of the automaton, stated over grids as mathematical values.

use vstd::prelude::*;
use crate::board::ALIVE;
use crate::board::DEAD;
use crate::board::is_grid;

verus! {

/// Whether `(col, row)` lies on `cells`.
pub open spec fn in_grid(cells: Seq<Seq<u8>>, col: int, row: int) -> bool {
    0 <= col < cells.len() && 0 <= row < cells[0].len()
}

/// Whether `(col, row)` lies inside the border ring of `cells`.
pub open spec fn is_interior(cells: Seq<Seq<u8>>, col: int, row: int) -> bool {
    1 <= col <= cells.len() - 2 && 1 <= row <= cells[0].len() - 2
}

/// Whether `(col, row)` lies on the border ring of `cells`.
pub open spec fn is_border(cells: Seq<Seq<u8>>, col: int, row: int) -> bool {
    in_grid(cells, col, row) && !is_interior(cells, col, row)
}

/// The number of live cells among the eight cells around `(col, row)`.
pub open spec fn neighbor_sum(cells: Seq<Seq<u8>>, col: int, row: int) -> int {
    cells[col - 1][row - 1] + cells[col][row - 1] + cells[col + 1][row - 1] + cells[col - 1][row]
        + cells[col + 1][row] + cells[col - 1][row + 1] + cells[col][row + 1] + cells[col
        + 1][row + 1]
}

/// The next value of a cell that holds `current` and has `neighbors` live
/// cells around it: a live cell survives on two or three, a dead cell is born
/// on exactly three.
pub open spec fn next_cell(current: u8, neighbors: int) -> u8 {
    if neighbors == 3 || (current == ALIVE && neighbors == 2) {
        ALIVE
    } else {
        DEAD
    }
}

/// The contents of the `next` buffer after one tick: every interior cell
/// follows the rule applied to `previous`, every border cell keeps what the
/// buffer held `before`.
pub open spec fn step(previous: Seq<Seq<u8>>, before: Seq<Seq<u8>>) -> Seq<Seq<u8>> {
    Seq::new(
        before.len(),
        |col: int|
            Seq::new(
                before[col].len(),
                |row: int|
                    if is_interior(before, col, row) {
                        next_cell(previous[col][row], neighbor_sum(previous, col, row))
                    } else {
                        before[col][row]
                    },
            ),
    )
}

/// Whether two grids have the same number of columns and of rows.
pub open spec fn same_size(first: Seq<Seq<u8>>, second: Seq<Seq<u8>>) -> bool {
    first.len() == second.len() && first[0].len() == second[0].len()
}

/// Whether two grids have the same size and hold the same value in every cell.
pub open spec fn same_contents(first: Seq<Seq<u8>>, second: Seq<Seq<u8>>) -> bool {
    &&& same_size(first, second)
    &&& forall|col: int, row: int|
        in_grid(first, col, row) ==> #[trigger] first[col][row] == second[col][row]
}

/// Two grids with the same contents are the same grid.
pub proof fn lemma_same_contents_is_equality(first: Seq<Seq<u8>>, second: Seq<Seq<u8>>)
    requires
        is_grid(first),
        is_grid(second),
        same_contents(first, second),
    ensures
        first == second,
{
    assert forall|col: int| 0 <= col < first.len() implies first[col] =~= second[col] by {
        assert(first[col].len() == first[0].len());
        assert(second[col].len() == second[0].len());
        assert forall|row: int| 0 <= row < first[col].len() implies first[col][row]
            == second[col][row] by {
            assert(in_grid(first, col, row));
        }
    }
    assert(first =~= second);
}

/// Around an interior cell of a grid there are between zero and eight live
/// cells.
pub proof fn lemma_neighbor_sum_bounds(cells: Seq<Seq<u8>>, col: int, row: int)
    requires
        is_grid(cells),
        is_interior(cells, col, row),
    ensures
        0 <= neighbor_sum(cells, col, row) <= 8,
{
}

/// A tick never resizes: the buffer comes out a grid of the size it had.
pub proof fn lemma_step_keeps_size(previous: Seq<Seq<u8>>, before: Seq<Seq<u8>>)
    requires
        is_grid(previous),
        is_grid(before),
        same_size(previous, before),
    ensures
        is_grid(step(previous, before)),
        same_size(step(previous, before), before),
        same_size(step(previous, before), previous),
{
    let after = step(previous, before);
    assert(before[0].len() == after[0].len());
    assert forall|col: int| 0 <= col < after.len() implies (#[trigger] after[col]).len()
        == after[0].len() by {
        assert(before[col].len() == before[0].len());
    }
    assert forall|col: int, row: int|
        0 <= col < after.len() && 0 <= row < after[0].len() implies #[trigger] after[col][row]
        <= ALIVE by {
        assert(before[col].len() == before[0].len());
        assert(before[col][row] <= ALIVE);
    }
}

/// A tick writes no border cell: each holds afterwards what the buffer held
/// before.
pub proof fn lemma_step_keeps_border(previous: Seq<Seq<u8>>, before: Seq<Seq<u8>>)
    requires
        is_grid(previous),
        is_grid(before),
        same_size(previous, before),
    ensures
        forall|col: int, row: int|
            is_border(before, col, row) ==> #[trigger] step(previous, before)[col][row]
                == before[col][row],
{
    assert forall|col: int, row: int| is_border(before, col, row) implies #[trigger] step(
        previous,
        before,
    )[col][row] == before[col][row] by {
        assert(before[col].len() == before[0].len());
    }
}

/// The rule, case by case, for every interior cell and every count of live
/// neighbors: a live cell with two or three stays alive, a live cell with
/// any other count dies, a dead cell with exactly three becomes alive, and a
/// dead cell with any other count stays dead.
pub proof fn lemma_step_follows_rule(previous: Seq<Seq<u8>>, before: Seq<Seq<u8>>)
    requires
        is_grid(previous),
        is_grid(before),
        same_size(previous, before),
    ensures
        forall|col: int, row: int| #[trigger]
            is_interior(previous, col, row) ==> {
                let sum = neighbor_sum(previous, col, row);
                let current = previous[col][row];
                let next = step(previous, before)[col][row];
                &&& 0 <= sum <= 8
                &&& current == ALIVE || current == DEAD
                &&& current == ALIVE && (sum == 2 || sum == 3) ==> next == ALIVE
                &&& current == ALIVE && sum != 2 && sum != 3 ==> next == DEAD
                &&& current == DEAD && sum == 3 ==> next == ALIVE
                &&& current == DEAD && sum != 3 ==> next == DEAD
            },
{
    assert forall|col: int, row: int| #[trigger] is_interior(previous, col, row) implies ({
        let sum = neighbor_sum(previous, col, row);
        let current = previous[col][row];
        let next = step(previous, before)[col][row];
        &&& 0 <= sum <= 8
        &&& current == ALIVE || current == DEAD
        &&& current == ALIVE && (sum == 2 || sum == 3) ==> next == ALIVE
        &&& current == ALIVE && sum != 2 && sum != 3 ==> next == DEAD
        &&& current == DEAD && sum == 3 ==> next == ALIVE
        &&& current == DEAD && sum != 3 ==> next == DEAD
    }) by {
        lemma_neighbor_sum_bounds(previous, col, row);
        assert(before[col].len() == before[0].len());
        assert(previous[col][row] <= ALIVE);
    }
}

/// The verdict of the rule on each pair of a cell value and a count of live
/// neighbors from zero to eight.
pub proof fn lemma_next_cell_cases(current: u8, neighbors: int)
    requires
        current == ALIVE || current == DEAD,
        0 <= neighbors <= 8,
    ensures
        current == ALIVE && (neighbors == 2 || neighbors == 3) ==> next_cell(current, neighbors)
            == ALIVE,
        current == ALIVE && neighbors != 2 && neighbors != 3 ==> next_cell(current, neighbors)
            == DEAD,
        current == DEAD && neighbors == 3 ==> next_cell(current, neighbors) == ALIVE,
        current == DEAD && neighbors != 3 ==> next_cell(current, neighbors) == DEAD,
{
}

/// Ticks on the same contents give the same contents: if the two previous
/// boards agree in every cell, and so do the two buffers, the results are
/// equal.
pub proof fn lemma_step_is_deterministic(
    previous_a: Seq<Seq<u8>>,
    before_a: Seq<Seq<u8>>,
    previous_b: Seq<Seq<u8>>,
    before_b: Seq<Seq<u8>>,
)
    requires
        is_grid(previous_a),
        is_grid(before_a),
        is_grid(previous_b),
        is_grid(before_b),
        same_size(previous_a, before_a),
        same_contents(previous_a, previous_b),
        same_contents(before_a, before_b),
    ensures
        step(previous_a, before_a) == step(previous_b, before_b),
{
    lemma_same_contents_is_equality(previous_a, previous_b);
    lemma_same_contents_is_equality(before_a, before_b);
}

/// What a tick leaves in the interior depends on the previous board alone,
/// not on what the buffer held.
pub proof fn lemma_interior_ignores_buffer(
    previous: Seq<Seq<u8>>,
    before_a: Seq<Seq<u8>>,
    before_b: Seq<Seq<u8>>,
)
    requires
        is_grid(previous),
        is_grid(before_a),
        is_grid(before_b),
        same_size(previous, before_a),
        same_size(previous, before_b),
    ensures
        forall|col: int, row: int| #[trigger]
            is_interior(previous, col, row) ==> step(previous, before_a)[col][row] == step(
                previous,
                before_b,
            )[col][row],
{
    assert forall|col: int, row: int| #[trigger] is_interior(previous, col, row) implies step(
        previous,
        before_a,
    )[col][row] == step(previous, before_b)[col][row] by {
        assert(before_a[col].len() == before_a[0].len());
        assert(before_b[col].len() == before_b[0].len());
    }
}

/// Running the same tick again into the buffer it has just filled changes
/// nothing.
pub proof fn lemma_step_is_idempotent(previous: Seq<Seq<u8>>, before: Seq<Seq<u8>>)
    requires
        is_grid(previous),
        is_grid(before),
        same_size(previous, before),
    ensures
        step(previous, step(previous, before)) == step(previous, before),
{
    let once = step(previous, before);
    let twice = step(previous, once);
    lemma_step_keeps_size(previous, before);
    assert forall|col: int| 0 <= col < once.len() implies once[col] =~= twice[col] by {
        assert(before[col].len() == before[0].len());
    }
    assert(once =~= twice);
}

/// Nothing is born on an empty board: if every cell of the previous board is
/// dead, every interior cell is dead after the tick.
pub proof fn lemma_empty_stays_empty(previous: Seq<Seq<u8>>, before: Seq<Seq<u8>>)
    requires
        is_grid(previous),
        is_grid(before),
        same_size(previous, before),
        forall|col: int, row: int|
            in_grid(previous, col, row) ==> #[trigger] previous[col][row] == DEAD,
    ensures
        forall|col: int, row: int| #[trigger]
            is_interior(previous, col, row) ==> step(previous, before)[col][row] == DEAD,
{
    assert forall|col: int, row: int| #[trigger] is_interior(previous, col, row) implies step(
        previous,
        before,
    )[col][row] == DEAD by {
        assert(before[col].len() == before[0].len());
    }
}

} // verus!

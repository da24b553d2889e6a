//! The update kernels and the choice among them.

use vstd::prelude::*;
use crate::board::Board;
use crate::board::ALIVE;
use crate::board::DEAD;
use crate::rules::in_grid;
use crate::rules::is_border;
use crate::rules::is_interior;
use crate::rules::neighbor_sum;
use crate::rules::next_cell;
use crate::rules::same_size;
use crate::rules::step;

verus! {

/// The update algorithms that a host can choose from.
#[derive(Debug, PartialEq, Eq, Structural)]
pub enum Kernels {
    /// One thread scans the interior cell by cell.
    CpuSequential,
}

impl Kernels {
    /// Whether a tick of this kernel, from `previous` into a buffer that held
    /// `before`, can leave `after` in the buffer.
    pub open spec fn computes(
        self,
        previous: Seq<Seq<u8>>,
        before: Seq<Seq<u8>>,
        after: Seq<Seq<u8>>,
    ) -> bool {
        match self {
            Kernels::CpuSequential => after == step(previous, before),
        }
    }

    /// A copy that names the same kernel.
    pub fn clone(&self) -> (copy: Kernels)
        ensures
            copy == *self,
    {
        match self {
            Kernels::CpuSequential => Kernels::CpuSequential,
        }
    }
}

/// Whether `previous` and `next` can be handed to an update function: both are
/// well formed and of one size.
pub open spec fn can_update(previous: &Board, next: &Board) -> bool {
    &&& previous.wf()
    &&& next.wf()
    &&& same_size(previous@, next@)
}

/// The update function of `kernel`. It accepts every pair of boards of one
/// size, keeps that size, and leaves in the second board what `kernel`
/// computes from the first.
pub fn get_kernel_func(kernel: Kernels) -> (update: impl Fn(&Board, &mut Board))
    ensures
        forall|previous: &Board, next: &mut Board|
            can_update(previous, next) ==> #[trigger] call_requires(update, (previous, next)),
        forall|previous: &Board, next: &mut Board| #[trigger]
            call_ensures(update, (previous, next), ()) ==> can_update(previous, final(next))
                && kernel.computes(previous@, next@, final(next)@),
{
    let update = match kernel {
        Kernels::CpuSequential => update_board,
    };
    assert(forall|previous: &Board, next: &mut Board|
        can_update(previous, next) ==> #[trigger] call_requires(update, (previous, next)));
    assert(forall|previous: &Board, next: &mut Board| #[trigger]
        call_ensures(update, (previous, next), ()) ==> final(next)@ == step(previous@, next@));
    update
}

/// Any two kernels agree: from the same previous board and the same buffer
/// they leave the same contents, so a host may swap one for the other.
pub proof fn lemma_kernels_agree(
    first: Kernels,
    second: Kernels,
    previous: Seq<Seq<u8>>,
    before: Seq<Seq<u8>>,
    after_first: Seq<Seq<u8>>,
    after_second: Seq<Seq<u8>>,
)
    requires
        first.computes(previous, before, after_first),
        second.computes(previous, before, after_second),
    ensures
        after_first == after_second,
{
}

/// Computes one tick with a sequential scan: every interior cell of
/// `next_board` gets the rule's verdict on `previous_board`, and the border of
/// `next_board` is not written. Both boards keep their size.
pub fn update_board(previous_board: &Board, next_board: &mut Board)
    requires
        can_update(previous_board, old(next_board)),
    ensures
        can_update(previous_board, final(next_board)),
        forall|col: int, row: int|
            is_border(old(next_board)@, col, row) ==> #[trigger] final(next_board)@[col][row]
                == old(next_board)@[col][row],
        forall|col: int, row: int|
            is_interior(old(next_board)@, col, row) ==> #[trigger] final(next_board)@[col][row]
                == next_cell(previous_board@[col][row], neighbor_sum(previous_board@, col, row)),
        final(next_board)@ == step(previous_board@, old(next_board)@),
{
    let columns = previous_board.columns();
    let rows = previous_board.rows();
    for ix in 1..columns - 1
        invariant
            previous_board.wf(),
            old(next_board).wf(),
            next_board.wf(),
            columns == previous_board@.len(),
            columns == next_board@.len(),
            columns == old(next_board)@.len(),
            rows == previous_board@[0].len(),
            rows == next_board@[0].len(),
            rows == old(next_board)@[0].len(),
            forall|col: int, row: int|
                in_grid(next_board@, col, row) ==> #[trigger] next_board@[col][row] == (if col < ix
                    && is_interior(next_board@, col, row) {
                    next_cell(previous_board@[col][row], neighbor_sum(previous_board@, col, row))
                } else {
                    old(next_board)@[col][row]
                }),
    {
        for iy in 1..rows - 1
            invariant
                1 <= ix < columns - 1,
                previous_board.wf(),
                old(next_board).wf(),
                next_board.wf(),
                columns == previous_board@.len(),
                columns == next_board@.len(),
                columns == old(next_board)@.len(),
                rows == previous_board@[0].len(),
                rows == next_board@[0].len(),
                rows == old(next_board)@[0].len(),
                forall|col: int, row: int|
                    in_grid(next_board@, col, row) ==> #[trigger] next_board@[col][row] == (if (col
                        < ix || (col == ix && row < iy)) && is_interior(next_board@, col, row) {
                        next_cell(
                            previous_board@[col][row],
                            neighbor_sum(previous_board@, col, row),
                        )
                    } else {
                        old(next_board)@[col][row]
                    }),
        {
            let total_neighbors: u8 = previous_board.get(ix, iy - 1) + previous_board.get(
                ix,
                iy + 1,
            ) + previous_board.get(ix - 1, iy) + previous_board.get(ix + 1, iy)
                + previous_board.get(ix + 1, iy - 1) + previous_board.get(ix - 1, iy + 1)
                + previous_board.get(ix - 1, iy - 1) + previous_board.get(ix + 1, iy + 1);
            assert(total_neighbors == neighbor_sum(previous_board@, ix as int, iy as int));
            let value: u8 = if previous_board.get(ix, iy) == ALIVE {
                match total_neighbors {
                    3 => ALIVE,
                    2 => ALIVE,
                    _ => DEAD,
                }
            } else {
                match total_neighbors {
                    3 => ALIVE,
                    _ => DEAD,
                }
            };
            next_board.set(ix, iy, value);
        }
    }
    assert(next_board@ =~~= step(previous_board@, old(next_board)@));
}

} // verus!

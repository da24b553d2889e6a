use game_of_life::board::Board;
use game_of_life::board::ALIVE;
use game_of_life::board::DEAD;
use game_of_life::config::ConfigError;
use game_of_life::config::GridConfig;
use game_of_life::config::MIN_SIDE;
use game_of_life::kernels::get_kernel_func;
use game_of_life::kernels::update_board;
use game_of_life::kernels::Kernels;

fn board_of(columns: usize, rows: usize, alive: &[(usize, usize)]) -> Board {
    let config = GridConfig::new(columns, rows).unwrap();
    let mut board = Board::new(&config);
    for &(col, row) in alive {
        board.set(col, row, ALIVE);
    }
    board
}

fn cells_of(board: &Board) -> Vec<Vec<u8>> {
    let mut cells = Vec::new();
    for col in 0..board.columns() {
        let mut column = Vec::new();
        for row in 0..board.rows() {
            column.push(board.get(col, row));
        }
        cells.push(column);
    }
    cells
}

fn alive_of(board: &Board) -> Vec<(usize, usize)> {
    let mut alive = Vec::new();
    for col in 0..board.columns() {
        for row in 0..board.rows() {
            if board.get(col, row) == ALIVE {
                alive.push((col, row));
            }
        }
    }
    alive
}

#[test]
fn config_accepts_the_smallest_grid() {
    let config = GridConfig::new(3, 3).unwrap();
    assert_eq!(config.columns(), 3);
    assert_eq!(config.rows(), 3);
    assert_eq!(MIN_SIDE, 3);
}

#[test]
fn config_keeps_columns_and_rows_apart() {
    let config = GridConfig::new(7, 4).unwrap();
    assert_eq!(config.columns(), 7);
    assert_eq!(config.rows(), 4);
}

#[test]
fn config_refuses_too_few_columns() {
    assert_eq!(GridConfig::new(2, 5), Err(ConfigError::TooFewColumns));
    assert_eq!(GridConfig::new(0, 5), Err(ConfigError::TooFewColumns));
}

#[test]
fn config_refuses_too_few_rows() {
    assert_eq!(GridConfig::new(5, 2), Err(ConfigError::TooFewRows));
    assert_eq!(GridConfig::new(3, 0), Err(ConfigError::TooFewRows));
}

#[test]
fn config_names_columns_before_rows() {
    assert_eq!(GridConfig::new(2, 2), Err(ConfigError::TooFewColumns));
    assert_eq!(GridConfig::new(0, 0), Err(ConfigError::TooFewColumns));
}

#[test]
fn config_is_a_plain_value() {
    let config = GridConfig::new(6, 9).unwrap();
    let copy = config;
    assert_eq!(copy, config);
    assert_eq!(copy.columns(), 6);
    assert_eq!(copy.rows(), 9);
}

#[test]
fn new_board_is_all_dead() {
    let config = GridConfig::new(4, 6).unwrap();
    let board = Board::new(&config);
    assert_eq!(board.columns(), 4);
    assert_eq!(board.rows(), 6);
    assert_eq!(cells_of(&board), vec![vec![DEAD; 6]; 4]);
}

#[test]
fn set_writes_one_cell() {
    let mut board = board_of(4, 6, &[]);
    board.set(3, 5, ALIVE);
    assert_eq!(board.get(3, 5), ALIVE);
    assert_eq!(alive_of(&board), vec![(3, 5)]);
    board.set(1, 4, ALIVE);
    assert_eq!(alive_of(&board), vec![(1, 4), (3, 5)]);
    board.set(3, 5, DEAD);
    assert_eq!(alive_of(&board), vec![(1, 4)]);
    assert_eq!(board.columns(), 4);
    assert_eq!(board.rows(), 6);
}

#[test]
fn cell_values_are_zero_and_one() {
    assert_eq!(DEAD, 0);
    assert_eq!(ALIVE, 1);
}

#[test]
fn lone_cell_dies() {
    let previous = board_of(5, 5, &[(2, 2)]);
    let mut next = board_of(5, 5, &[]);
    update_board(&previous, &mut next);
    assert_eq!(next.get(2, 2), DEAD);
    assert_eq!(cells_of(&next), vec![vec![DEAD; 5]; 5]);
    assert_eq!(alive_of(&previous), vec![(2, 2)]);
}

#[test]
fn blinker_turns() {
    let previous = board_of(5, 5, &[(1, 2), (2, 2), (3, 2)]);
    let mut next = board_of(5, 5, &[]);
    update_board(&previous, &mut next);
    assert_eq!(next.get(2, 1), ALIVE);
    assert_eq!(next.get(2, 3), ALIVE);
    assert_eq!(next.get(1, 2), DEAD);
    assert_eq!(next.get(3, 2), DEAD);
    assert_eq!(next.get(2, 2), ALIVE);
    assert_eq!(alive_of(&next), vec![(2, 1), (2, 2), (2, 3)]);
}

#[test]
fn blinker_turns_back() {
    let mut first = board_of(5, 5, &[(1, 2), (2, 2), (3, 2)]);
    let mut second = board_of(5, 5, &[]);
    update_board(&first, &mut second);
    update_board(&second, &mut first);
    assert_eq!(alive_of(&first), vec![(1, 2), (2, 2), (3, 2)]);
    assert_eq!(alive_of(&second), vec![(2, 1), (2, 2), (2, 3)]);
}

#[test]
fn block_is_still() {
    let block = [(2, 2), (2, 3), (3, 2), (3, 3)];
    let previous = board_of(6, 6, &block);
    let mut next = board_of(6, 6, &[]);
    update_board(&previous, &mut next);
    assert_eq!(alive_of(&next), block.to_vec());
    assert_eq!(cells_of(&next), cells_of(&previous));
}

#[test]
fn empty_board_stays_empty() {
    let mut first = board_of(5, 7, &[]);
    let mut second = board_of(5, 7, &[]);
    for _ in 0..10 {
        update_board(&first, &mut second);
        assert_eq!(cells_of(&second), vec![vec![DEAD; 7]; 5]);
        update_board(&second, &mut first);
        assert_eq!(cells_of(&first), vec![vec![DEAD; 7]; 5]);
    }
}

#[test]
fn update_keeps_the_size() {
    let previous = board_of(4, 9, &[(1, 1), (2, 5)]);
    let mut next = board_of(4, 9, &[]);
    update_board(&previous, &mut next);
    assert_eq!(next.columns(), 4);
    assert_eq!(next.rows(), 9);
    assert_eq!(previous.columns(), 4);
    assert_eq!(previous.rows(), 9);
}

#[test]
fn update_leaves_the_border_of_next() {
    let previous = board_of(5, 4, &[(1, 1), (2, 1), (3, 1)]);
    let mut next = board_of(5, 4, &[]);
    let mut border = Vec::new();
    for col in 0..5 {
        for row in 0..4 {
            if col == 0 || col == 4 || row == 0 || row == 3 {
                border.push((col, row));
            }
        }
    }
    for (index, &(col, row)) in border.iter().enumerate() {
        if index % 2 == 0 {
            next.set(col, row, ALIVE);
        }
    }
    let before = cells_of(&next);
    update_board(&previous, &mut next);
    let after = cells_of(&next);
    for &(col, row) in border.iter() {
        assert_eq!(after[col][row], before[col][row]);
    }
    assert_eq!(border.len(), 14);
}

#[test]
fn update_does_not_copy_the_border_of_previous() {
    let mut previous = board_of(5, 5, &[]);
    for col in 0..5 {
        previous.set(col, 0, ALIVE);
        previous.set(col, 4, ALIVE);
    }
    let mut next = board_of(5, 5, &[]);
    update_board(&previous, &mut next);
    for col in 0..5 {
        assert_eq!(next.get(col, 0), DEAD);
        assert_eq!(next.get(col, 4), DEAD);
    }
}

#[test]
fn border_cells_count_as_neighbors() {
    let previous = board_of(5, 5, &[(0, 0), (1, 0), (2, 0)]);
    let mut next = board_of(5, 5, &[]);
    update_board(&previous, &mut next);
    assert_eq!(next.get(1, 1), ALIVE);
    assert_eq!(next.get(2, 1), DEAD);
    assert_eq!(next.get(3, 1), DEAD);
    assert_eq!(alive_of(&next), vec![(1, 1)]);
}

#[test]
fn every_neighbor_counts_once() {
    let around = [(1, 1), (2, 1), (3, 1), (1, 2), (3, 2), (1, 3), (2, 3), (3, 3)];
    for first in 0..8 {
        for second in (first + 1)..8 {
            for third in (second + 1)..8 {
                let previous = board_of(5, 5, &[around[first], around[second], around[third]]);
                let mut next = board_of(5, 5, &[]);
                update_board(&previous, &mut next);
                assert_eq!(next.get(2, 2), ALIVE);
            }
        }
    }
}

#[test]
fn rule_holds_for_every_count() {
    let around = [(1, 1), (2, 1), (3, 1), (1, 2), (3, 2), (1, 3), (2, 3), (3, 3)];
    for count in 0..=8 {
        for current in [DEAD, ALIVE] {
            let mut previous = board_of(5, 5, &around[..count]);
            previous.set(2, 2, current);
            let mut next = board_of(5, 5, &[]);
            update_board(&previous, &mut next);
            let expected = if current == ALIVE {
                if count == 2 || count == 3 { ALIVE } else { DEAD }
            } else if count == 3 {
                ALIVE
            } else {
                DEAD
            };
            assert_eq!(next.get(2, 2), expected);
        }
    }
}

#[test]
fn update_overwrites_stale_interior() {
    let previous = board_of(5, 5, &[]);
    let mut next = board_of(5, 5, &[(1, 1), (2, 2), (3, 3), (1, 3)]);
    update_board(&previous, &mut next);
    assert_eq!(cells_of(&next), vec![vec![DEAD; 5]; 5]);
}

#[test]
fn update_is_deterministic() {
    let alive = [(1, 1), (2, 1), (2, 2), (3, 3), (4, 2), (4, 3), (1, 4)];
    let previous = board_of(6, 6, &alive);
    let twin = board_of(6, 6, &alive);
    let mut first = board_of(6, 6, &[(0, 0), (5, 3)]);
    let mut second = board_of(6, 6, &[(0, 0), (5, 3)]);
    update_board(&previous, &mut first);
    update_board(&twin, &mut second);
    assert_eq!(cells_of(&first), cells_of(&second));
}

#[test]
fn repeated_update_changes_nothing() {
    let previous = board_of(6, 5, &[(1, 1), (2, 1), (2, 2), (3, 3), (4, 2)]);
    let mut next = board_of(6, 5, &[(0, 2), (3, 1)]);
    update_board(&previous, &mut next);
    let once = cells_of(&next);
    update_board(&previous, &mut next);
    assert_eq!(cells_of(&next), once);
}

#[test]
fn interior_does_not_depend_on_the_buffer() {
    let previous = board_of(6, 5, &[(1, 1), (2, 1), (2, 2), (3, 3), (4, 2)]);
    let mut clean = board_of(6, 5, &[]);
    let mut used = board_of(6, 5, &[(0, 0), (1, 1), (2, 3), (4, 3), (5, 4)]);
    update_board(&previous, &mut clean);
    update_board(&previous, &mut used);
    for col in 1..5 {
        for row in 1..4 {
            assert_eq!(clean.get(col, row), used.get(col, row));
        }
    }
    assert_eq!(used.get(0, 0), ALIVE);
    assert_eq!(used.get(5, 4), ALIVE);
}

#[test]
fn columns_and_rows_are_not_swapped() {
    let previous = board_of(7, 4, &[(4, 1), (5, 1), (5, 2)]);
    let mut next = board_of(7, 4, &[]);
    update_board(&previous, &mut next);
    assert_eq!(alive_of(&next), vec![(4, 1), (4, 2), (5, 1), (5, 2)]);
}

#[test]
fn smallest_grid_has_one_interior_cell() {
    let mut previous = board_of(3, 3, &[]);
    for col in 0..3 {
        for row in 0..3 {
            previous.set(col, row, ALIVE);
        }
    }
    let mut next = board_of(3, 3, &[]);
    update_board(&previous, &mut next);
    assert_eq!(cells_of(&next), vec![vec![DEAD; 3]; 3]);
    let previous = board_of(3, 3, &[(0, 0), (1, 0), (2, 2)]);
    update_board(&previous, &mut next);
    assert_eq!(alive_of(&next), vec![(1, 1)]);
}

#[test]
fn glider_moves() {
    let mut first = board_of(8, 8, &[(2, 1), (3, 2), (1, 3), (2, 3), (3, 3)]);
    let mut second = board_of(8, 8, &[]);
    update_board(&first, &mut second);
    assert_eq!(alive_of(&second), vec![(1, 2), (2, 3), (2, 4), (3, 2), (3, 3)]);
    update_board(&second, &mut first);
    update_board(&first, &mut second);
    update_board(&second, &mut first);
    assert_eq!(alive_of(&first), vec![(2, 4), (3, 2), (3, 4), (4, 3), (4, 4)]);
}

#[test]
fn kernel_function_is_the_sequential_update() {
    let alive = [(1, 1), (2, 1), (2, 2), (3, 3), (4, 2), (4, 3), (1, 4)];
    let previous = board_of(6, 6, &alive);
    let mut direct = board_of(6, 6, &[(0, 5)]);
    let mut resolved = board_of(6, 6, &[(0, 5)]);
    update_board(&previous, &mut direct);
    let update = get_kernel_func(Kernels::CpuSequential);
    update(&previous, &mut resolved);
    assert_eq!(cells_of(&resolved), cells_of(&direct));
    assert_eq!(alive_of(&previous), {
        let mut sorted = alive.to_vec();
        sorted.sort();
        sorted
    });
}

#[test]
fn kernel_function_can_be_called_again() {
    let update = get_kernel_func(Kernels::CpuSequential);
    let mut first = board_of(5, 5, &[(1, 2), (2, 2), (3, 2)]);
    let mut second = board_of(5, 5, &[]);
    update(&first, &mut second);
    update(&second, &mut first);
    update(&first, &mut second);
    assert_eq!(alive_of(&second), vec![(2, 1), (2, 2), (2, 3)]);
}

#[test]
fn kernels_resolved_twice_agree() {
    let kernel = Kernels::CpuSequential;
    let first_update = get_kernel_func(kernel.clone());
    let second_update = get_kernel_func(kernel);
    let previous = board_of(5, 6, &[(1, 1), (1, 2), (2, 2), (3, 4)]);
    let mut first = board_of(5, 6, &[(0, 0)]);
    let mut second = board_of(5, 6, &[(0, 0)]);
    first_update(&previous, &mut first);
    second_update(&previous, &mut second);
    assert_eq!(cells_of(&first), cells_of(&second));
}

#[test]
fn clone_names_the_same_kernel() {
    let kernel = Kernels::CpuSequential;
    assert_eq!(kernel.clone(), Kernels::CpuSequential);
    assert_eq!(kernel.clone(), kernel);
}

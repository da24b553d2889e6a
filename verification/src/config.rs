//! Grid dimensions, fixed once and read by every board.

use vstd::prelude::*;

verus! {

/// The smallest side for which a grid has a border ring and an interior cell.
pub const MIN_SIDE: usize = 3;

/// Why a pair of dimensions was refused.
#[derive(Debug, Clone, Copy, PartialEq, Eq, Structural)]
pub enum ConfigError {
    /// The column count is below [`MIN_SIDE`].
    TooFewColumns,
    /// The column count is fine, the row count is below [`MIN_SIDE`].
    TooFewRows,
}

/// The number of columns and rows of every board of a simulation.
///
/// A value of this type always has at least [`MIN_SIDE`] columns and rows, and
/// nothing changes it once it exists.
#[derive(Debug, Clone, Copy, PartialEq, Eq)]
pub struct GridConfig {
    columns: usize,
    rows: usize,
}

impl GridConfig {
    #[verifier::type_invariant]
    closed spec fn inv(&self) -> bool {
        self.columns >= MIN_SIDE && self.rows >= MIN_SIDE
    }

    /// The column count, as a specification value.
    pub closed spec fn spec_columns(&self) -> usize {
        self.columns
    }

    /// The row count, as a specification value.
    pub closed spec fn spec_rows(&self) -> usize {
        self.rows
    }

    /// Accepts `columns` by `rows` exactly when both are at least [`MIN_SIDE`];
    /// a bad column count is named before a bad row count.
    pub fn new(columns: usize, rows: usize) -> (result: Result<GridConfig, ConfigError>)
        ensures
            result is Ok <==> columns >= MIN_SIDE && rows >= MIN_SIDE,
            result matches Ok(config) ==> config.spec_columns() == columns && config.spec_rows()
                == rows,
            result matches Err(error) ==> error == (if columns < MIN_SIDE {
                ConfigError::TooFewColumns
            } else {
                ConfigError::TooFewRows
            }),
    {
        if columns < MIN_SIDE {
            Err(ConfigError::TooFewColumns)
        } else if rows < MIN_SIDE {
            Err(ConfigError::TooFewRows)
        } else {
            Ok(GridConfig { columns, rows })
        }
    }

    /// The column count.
    #[verifier::when_used_as_spec(spec_columns)]
    pub fn columns(&self) -> (n: usize)
        ensures
            n == self.spec_columns(),
            n >= MIN_SIDE,
    {
        proof {
            use_type_invariant(self);
        }
        self.columns
    }

    /// The row count.
    #[verifier::when_used_as_spec(spec_rows)]
    pub fn rows(&self) -> (n: usize)
        ensures
            n == self.spec_rows(),
            n >= MIN_SIDE,
    {
        proof {
            use_type_invariant(self);
        }
        self.rows
    }
}

} // verus!

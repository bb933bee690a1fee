//! Why a repository operation was refused.

use vstd::prelude::*;

verus! {

#[derive(Debug, PartialEq, Eq, Structural)]
pub enum RepoError {
    /// Every id a table can hand out has been used.
    IdsExhausted,
    /// The row would refer to a row that does not exist, or the row to be
    /// deleted is still referred to.
    ForeignKeyViolation,
    /// Rows read back from storage break the table's rules (ids missing,
    /// out of order, or dangling references).
    CorruptRows,
}

/// The outcome of a repository operation.
pub type QueryResult<T> = Result<T, RepoError>;

} // verus!

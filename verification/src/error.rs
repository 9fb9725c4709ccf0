use vstd::prelude::*;

verus! {

/// Why an operation on a delegation record was rejected.
///
/// Every failure is reported before any mutation, so a rejected operation
/// leaves the record exactly as it was.
#[derive(Clone, Copy, Debug, PartialEq, Eq, Structural)]
pub enum ErrorCode {
    /// A simple spend asked for more than the remaining allowance.
    InsufficientAmount,
    /// The operation needs the record in a state it is not in.
    InvalidState,
    /// The caller holds neither of the roles the operation demands.
    InvalidAuthority,
    /// A settlement was attempted against the wrong allowance kind.
    InvalidKind,
    /// A recurring creation asked for a window with `start_date >= end_date`.
    InvalidDuration,
    /// A recurring movement named a destination other than the fixed one.
    InvalidDestination,
    /// A record already exists at the target storage key.
    CreateConflict,
    /// The accrual computation produced a value outside the amount type,
    /// or its inputs break the recurring record's numeric invariants.
    Arithmetic,
}

} // verus!

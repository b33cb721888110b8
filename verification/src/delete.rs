//! The order of a delete that is wrapped in callbacks.
//!
//! The callback before the delete, the delete itself and the callback after
//! it all work against the database, so the caller performs them. This module
//! decides, from what each of them returned, what comes next and what the
//! whole operation returns.

use vstd::prelude::*;

verus! {

/// Why a guarded delete failed.
#[derive(Debug)]
pub enum DeleteError<Q, C> {
    /// The delete query failed.
    Query(Q),
    /// A callback failed.
    Callback(C),
}

/// What follows the callback that runs before the delete.
#[derive(Debug)]
pub enum AfterBefore<C> {
    /// The callback succeeded: run the delete, then the callback after it.
    Proceed,
    /// The callback failed: nothing is deleted, no further callback runs, and
    /// this is the error of the whole operation.
    Stop(C),
}

/// Decides what follows the callback that runs before the delete.
pub fn on_before_delete<C>(before: Result<(), C>) -> (next: AfterBefore<C>)
    ensures
        next == match before {
            Ok(_) => AfterBefore::<C>::Proceed,
            Err(error) => AfterBefore::Stop(error),
        },
{
    match before {
        Ok(_) => AfterBefore::Proceed,
        Err(error) => AfterBefore::Stop(error),
    }
}

/// The result of the whole operation, once the delete and the callback after
/// it have run. The callback runs whether or not the delete succeeded, and its
/// failure takes precedence over that of the delete.
pub open spec fn delete_result<R, Q, C>(deleted: Result<R, Q>, after: Result<(), C>) -> Result<
    R,
    DeleteError<Q, C>,
> {
    match after {
        Err(error) => Err(DeleteError::Callback(error)),
        Ok(_) => match deleted {
            Ok(rows) => Ok(rows),
            Err(error) => Err(DeleteError::Query(error)),
        },
    }
}

/// Decides the result of the whole operation from what the delete and the
/// callback after it returned.
pub fn on_after_delete<R, Q, C>(deleted: Result<R, Q>, after: Result<(), C>) -> (result: Result<
    R,
    DeleteError<Q, C>,
>)
    ensures
        result == delete_result(deleted, after),
{
    match after {
        Err(error) => Err(DeleteError::Callback(error)),
        Ok(_) => match deleted {
            Ok(rows) => Ok(rows),
            Err(error) => Err(DeleteError::Query(error)),
        },
    }
}

/// A failure of the callback after the delete hides the result of the delete,
/// and where that callback succeeds, the operation returns what the delete
/// returned.
pub proof fn law_after_callback_decides<R, Q, C>(deleted: Result<R, Q>, after: Result<(), C>)
    ensures
        after is Err ==> delete_result(deleted, after) == Err::<R, DeleteError<Q, C>>(
            DeleteError::Callback(after->Err_0),
        ),
        after is Ok && deleted is Ok ==> delete_result(deleted, after) == Ok::<
            R,
            DeleteError<Q, C>,
        >(deleted->Ok_0),
        delete_result(deleted, after) is Ok <==> after is Ok && deleted is Ok,
{
}

} // verus!

//! How the transaction middleware ends a request's transaction once the downstream service
//! has answered.
use sqlx::Error as DbError;
use vstd::prelude::*;

use crate::error::Error;
use crate::tx::{resolved, TxSlot, TxState};

verus! {

/// What the downstream service produced for a request.
pub enum Outcome {
    /// The service itself failed; no response was produced.
    Failed,
    /// A response was produced; `success` tells whether its status is a success (2xx).
    Responded { success: bool },
}

/// How the middleware ends the request's transaction.
pub enum Finish<T> {
    /// Pass the service's failure on; the transaction, if any, rolls back when dropped.
    Propagate,
    /// Commit this transaction before passing the response on.
    Commit(T),
    /// Pass the response on without committing; a transaction, if any, rolls back when
    /// dropped.
    Release,
}

/// How a request whose anchor holds `anchor` ends, given the downstream `outcome`.
pub open spec fn finish_spec<T>(anchor: Option<TxState<T>>, outcome: Outcome) -> Finish<T> {
    match outcome {
        Outcome::Failed => Finish::Propagate,
        Outcome::Responded { success } => if success {
            match resolved(anchor) {
                Some(t) => Finish::Commit(t),
                None => Finish::Release,
            }
        } else {
            Finish::Release
        },
    }
}

/// Ends the request's transaction: consumes the anchor, so this happens once per request.
/// A transaction is committed only after a successful response, and only if one came back
/// resident; otherwise it is dropped here, which rolls it back.
pub fn finish<T>(anchor: TxSlot<T>, outcome: Outcome) -> (r: Finish<T>)
    ensures
        r == finish_spec(anchor.anchor(), outcome),
{
    match outcome {
        Outcome::Failed => Finish::Propagate,
        Outcome::Responded { success } => {
            let tx = anchor.into_transaction();
            if success {
                match tx {
                    Some(t) => Finish::Commit(t),
                    None => Finish::Release,
                }
            } else {
                Finish::Release
            }
        },
    }
}

/// The request's result after committing: a database failure overrides the response.
pub fn commit_outcome(committed: Result<(), DbError>) -> (r: Result<(), Error>)
    ensures
        match committed {
            Ok(()) => r is Ok,
            Err(e) => r == Err::<(), Error>(Error::Database { error: e }),
        },
{
    match committed {
        Ok(()) => Ok(()),
        Err(e) => Err(Error::Database { error: e }),
    }
}

} // verus!

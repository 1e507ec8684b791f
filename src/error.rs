//! The ways in which handing out the request's transaction can fail.
use sqlx::Error as DbError;
use vstd::prelude::*;

verus! {

/// The database driver's error, carried through as an opaque value.
#[verifier::external_type_specification]
#[verifier::external_body]
pub struct ExDbError(DbError);

/// Why a transaction could not be handed out or finished.
#[derive(Debug)]
pub enum Error {
    /// The transaction middleware was not installed on the request.
    MissingExtension,
    /// The transaction was asked for while an earlier handle was still alive, or after it
    /// had been committed explicitly.
    OverlappingExtractors,
    /// The database failed to begin or to commit the transaction.
    Database { error: DbError },
}

} // verus!

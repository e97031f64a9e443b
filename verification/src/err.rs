//! The error type shared by every operation of the ledger.

use postgres::error::Error as PostgresError;
use std::io::Error as IoError;
use vstd::prelude::*;
use vstd::std_specs::convert::FromSpecImpl;

verus! {

/// Declares `postgres::Error`, the failure that the database driver reports,
/// so that it can be carried inside [`ErpError`]. Nothing is claimed of what
/// it holds.
#[verifier::external_type_specification]
#[verifier::external_body]
pub struct ExPostgresError(PostgresError);

/// Declares `std::io::Error` so that it can be carried inside [`ErpError`].
/// Nothing is claimed of what it holds.
#[verifier::external_type_specification]
#[verifier::external_body]
pub struct ExIoError(IoError);

pub type Result<T> = std::result::Result<T, ErpError>;

/// What can go wrong in an operation of the ledger.
#[derive(Debug)]
pub enum ErpError {
    /// A transport or file failure that came up through the driver.
    Io(IoError),
    /// Any failure of the database: connection, constraint, transaction.
    Postgres(PostgresError),
    /// A draft entry that does not pass validation.
    BadRequest,
    /// A query or a deletion that matched no row.
    NotFound,
}

impl ErpError {
    /// How an error is shown to a client of the service: its HTTP status.
    pub open spec fn status_of(self) -> u16 {
        match self {
            ErpError::BadRequest => 400,
            ErpError::NotFound => 404,
            ErpError::Io(_) => 500,
            ErpError::Postgres(_) => 500,
        }
    }

    /// The HTTP status that answers a request which ended in this error: a
    /// draft that fails validation is the client's fault, a lookup that
    /// matched nothing is an absent resource, and anything that the storage
    /// reports is a server error that tells no detail.
    pub fn status(&self) -> (code: u16)
        ensures
            code == self.status_of(),
    {
        match self {
            ErpError::BadRequest => 400,
            ErpError::NotFound => 404,
            ErpError::Io(_) => 500,
            ErpError::Postgres(_) => 500,
        }
    }
}

impl From<PostgresError> for ErpError {
    fn from(err: PostgresError) -> (r: Self) {
        ErpError::Postgres(err)
    }
}

impl FromSpecImpl<PostgresError> for ErpError {
    open spec fn obeys_from_spec() -> bool {
        true
    }

    open spec fn from_spec(err: PostgresError) -> Self {
        ErpError::Postgres(err)
    }
}

} // verus!

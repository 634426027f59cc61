//! Errors raised by the persistence layer.
use vstd::prelude::*;
use vstd::string::*;

use crate::domain::error::ErrorCode;

verus! {

/// Something went wrong while storing or reading.
#[derive(Debug, Clone, PartialEq, Eq)]
pub enum StorageError {
    /// The row asked for does not exist, or is not visible to the caller.
    NotFound,
    /// A uniqueness constraint was violated.
    Conflict,
    /// Anything else the driver reported.
    Database(String),
    /// A Blob Storage operation failed.
    Blob(String),
    /// A migration failed to apply.
    Migration(String),
}

/// A storage error with its detail as a sequence of characters.
pub enum StorageErrorView {
    /// Not there, or not visible.
    NotFound,
    /// A row of that kind is there already.
    Conflict,
    /// The driver reported something else.
    Database(Seq<char>),
    /// A Blob Storage operation failed.
    Blob(Seq<char>),
    /// A migration failed to apply.
    Migration(Seq<char>),
}

impl View for StorageError {
    type V = StorageErrorView;

    open spec fn view(&self) -> StorageErrorView {
        match *self {
            StorageError::NotFound => StorageErrorView::NotFound,
            StorageError::Conflict => StorageErrorView::Conflict,
            StorageError::Database(d) => StorageErrorView::Database(d@),
            StorageError::Blob(d) => StorageErrorView::Blob(d@),
            StorageError::Migration(d) => StorageErrorView::Migration(d@),
        }
    }
}

impl StorageError {
    /// Returns the stable error code for this error.
    pub fn code(&self) -> (r: ErrorCode)
        ensures
            r == match *self {
                StorageError::NotFound => ErrorCode::NotFound,
                StorageError::Conflict => ErrorCode::Validation,
                StorageError::Database(_) => ErrorCode::Internal,
                StorageError::Blob(_) => ErrorCode::Internal,
                StorageError::Migration(_) => ErrorCode::Internal,
            },
    {
        match self {
            StorageError::NotFound => ErrorCode::NotFound,
            StorageError::Conflict => ErrorCode::Validation,
            StorageError::Database(_) | StorageError::Migration(_)
            | StorageError::Blob(_) => ErrorCode::Internal,
        }
    }

    /// The text for the log.
    pub fn log_text(&self) -> (r: String)
        ensures
            r@ == match *self {
                StorageError::NotFound => "not found"@,
                StorageError::Conflict => "conflicting row already exists"@,
                StorageError::Database(_) => "database error"@,
                StorageError::Blob(d) => "blob storage error: "@ + d@,
                StorageError::Migration(_) => "migration failed"@,
            },
    {
        match self {
            StorageError::NotFound => "not found".to_owned(),
            StorageError::Conflict => "conflicting row already exists".to_owned(),
            StorageError::Database(_) => "database error".to_owned(),
            StorageError::Blob(d) => {
                let mut out = "blob storage error: ".to_owned();
                out.append(d.as_str());
                out
            },
            StorageError::Migration(_) => "migration failed".to_owned(),
        }
    }
}

/// What the database driver reported.
#[derive(Debug)]
pub enum DriverError {
    /// A query that has to find a row found none.
    RowNotFound,
    /// A statement ran into a uniqueness constraint.
    UniqueViolation,
    /// Anything else, in words.
    Other(String),
}

/// The storage error that a driver error amounts to.
pub open spec fn storage_error(error: DriverError) -> StorageErrorView {
    match error {
        DriverError::RowNotFound => StorageErrorView::NotFound,
        DriverError::UniqueViolation => StorageErrorView::Conflict,
        DriverError::Other(detail) => StorageErrorView::Database(detail@),
    }
}

/// Maps a driver error to [`StorageError`], recognising the cases that are not
/// really failures.
///
/// A missing row is an ordinary outcome of looking something up, and a unique
/// violation is a caller problem rather than an internal one; neither should be
/// reported as a database fault.
pub fn map_sqlx(error: DriverError) -> (r: StorageError)
    ensures
        r@ == storage_error(error),
{
    match error {
        DriverError::RowNotFound => StorageError::NotFound,
        DriverError::UniqueViolation => StorageError::Conflict,
        DriverError::Other(detail) => StorageError::Database(detail),
    }
}

/// A row that is missing is not found, a row that is there already is a conflict, and
/// every other failure of the driver is one of the database, in its own words.
pub proof fn law_driver_errors_are_told_apart(error: DriverError)
    ensures
        error is RowNotFound <==> storage_error(error) == StorageErrorView::NotFound,
        error is UniqueViolation <==> storage_error(error) == StorageErrorView::Conflict,
        error matches DriverError::Other(detail) ==> storage_error(error)
            == StorageErrorView::Database(detail@),
{
}

/// What each failure of storage is reported as, whatever its detail: what is missing is not
/// found, what is there already is a fault of the request, and everything else is internal.
pub proof fn law_storage_failures_have_their_code(error: StorageError, code: ErrorCode)
    requires
        call_ensures(StorageError::code, (&error,), code),
    ensures
        code == ErrorCode::NotFound <==> error is NotFound,
        code == ErrorCode::Validation <==> error is Conflict,
        code == ErrorCode::Internal <==> error is Database || error is Blob || error is Migration,
{
}

/// The driver's errors are mapped one to one.
pub proof fn law_driver_errors_are_mapped(error: DriverError, r: StorageError)
    requires
        call_ensures(map_sqlx, (error,), r),
    ensures
        error is RowNotFound <==> r is NotFound,
        error is UniqueViolation <==> r is Conflict,
        error matches DriverError::Other(detail) ==> r@ == StorageErrorView::Database(detail@),
{
}

/// The log says what went wrong; what the database or a migration said is kept out,
/// whatever it is, and what blob storage said stands at the end.
pub proof fn law_log_texts_keep_details_out(
    detail: String,
    other: String,
    database: String,
    other_database: String,
    migration: String,
    other_migration: String,
    blob: String,
)
    requires
        call_ensures(StorageError::log_text, (&StorageError::Database(detail),), database),
        call_ensures(StorageError::log_text, (&StorageError::Database(other),), other_database),
        call_ensures(StorageError::log_text, (&StorageError::Migration(detail),), migration),
        call_ensures(StorageError::log_text, (&StorageError::Migration(other),), other_migration),
        call_ensures(StorageError::log_text, (&StorageError::Blob(detail),), blob),
    ensures
        database@ == other_database@,
        migration@ == other_migration@,
        blob@ == "blob storage error: "@ + detail@,
{
}

} // verus!

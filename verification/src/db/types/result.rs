use sqlx::sqlite::SqliteQueryResult;
use vstd::prelude::*;

verus! {

/// Declares the query result of the SQLite driver, which is carried through opaquely.
#[verifier::external_type_specification]
#[verifier::external_body]
pub struct ExSqliteQueryResult(SqliteQueryResult);

/// The number of rows that the statement behind a query result changed, as
/// the driver counted it.
pub uninterp spec fn rows_changed(res: SqliteQueryResult) -> u64;

/// Reads the number of rows that a statement changed
/// (`SqliteQueryResult::rows_affected`).
///
/// The driver returns the counter held in the result, so the same result gives the
/// same count; that count is named [`rows_changed`], and nothing more is claimed of it.
#[verifier::external_body]
fn rows_affected(res: &SqliteQueryResult) -> (n: u64)
    ensures
        n == rows_changed(*res),
{
    res.rows_affected()
}

/// Result of insertion into the database
pub enum InsertResult {
    Inserted,
    NoChanges,
}

/// Result of updating records in the database
pub enum UpdateResult {
    Updated(u64),
    NoChanges,
}

/// Result of deleting records from the database
pub enum DeleteResult {
    Deleted(u64),
    NoChanges,
}

impl InsertResult {
    /// Returns `true` if rows were inserted into the database;
    /// otherwise, returns `false`
    pub fn no_changes(&self) -> (r: bool)
        ensures
            r == (*self is Inserted),
    {
        matches!(self, Self::Inserted)
    }

    /// Interprets the number of rows that an insert statement changed
    pub fn from_rows_affected(rows: u64) -> (r: Self)
        ensures
            rows == 0 ==> r is NoChanges,
            rows != 0 ==> r is Inserted,
    {
        if rows == 0 {
            InsertResult::NoChanges
        } else {
            InsertResult::Inserted
        }
    }
}

impl UpdateResult {
    /// Returns `true` if database records were updated;
    /// otherwise, returns `false`
    pub fn no_changes(&self) -> (r: bool)
        ensures
            r == (*self is Updated),
    {
        matches!(self, Self::Updated(_))
    }

    /// Interprets the number of rows that an update statement changed
    pub fn from_rows_affected(rows: u64) -> (r: Self)
        ensures
            rows == 0 ==> r is NoChanges,
            rows != 0 ==> r == UpdateResult::Updated(rows),
    {
        if rows == 0 {
            UpdateResult::NoChanges
        } else {
            UpdateResult::Updated(rows)
        }
    }
}

impl DeleteResult {
    /// Returns `true` if records were deleted from the database;
    /// otherwise, returns `false`.
    pub fn no_changes(&self) -> (r: bool)
        ensures
            r == (*self is Deleted),
    {
        matches!(self, Self::Deleted(_))
    }

    /// Interprets the number of rows that a delete statement changed
    pub fn from_rows_affected(rows: u64) -> (r: Self)
        ensures
            rows == 0 ==> r is NoChanges,
            rows != 0 ==> r == DeleteResult::Deleted(rows),
    {
        if rows == 0 {
            DeleteResult::NoChanges
        } else {
            DeleteResult::Deleted(rows)
        }
    }
}

impl From<SqliteQueryResult> for InsertResult {
    fn from(res: SqliteQueryResult) -> (r: Self)
        ensures
            rows_changed(res) == 0 ==> r is NoChanges,
            rows_changed(res) != 0 ==> r is Inserted,
    {
        let rows = rows_affected(&res);
        InsertResult::from_rows_affected(rows)
    }
}

/// The conversion from a query result goes by the row count that the driver reports.
impl vstd::std_specs::convert::FromSpecImpl<SqliteQueryResult> for InsertResult {
    open spec fn obeys_from_spec() -> bool {
        true
    }

    open spec fn from_spec(v: SqliteQueryResult) -> Self {
        if rows_changed(v) == 0 {
            InsertResult::NoChanges
        } else {
            InsertResult::Inserted
        }
    }
}

impl From<SqliteQueryResult> for UpdateResult {
    fn from(res: SqliteQueryResult) -> (r: Self)
        ensures
            rows_changed(res) == 0 ==> r is NoChanges,
            rows_changed(res) != 0 ==> r == UpdateResult::Updated(rows_changed(res)),
    {
        let rows = rows_affected(&res);
        UpdateResult::from_rows_affected(rows)
    }
}

impl vstd::std_specs::convert::FromSpecImpl<SqliteQueryResult> for UpdateResult {
    open spec fn obeys_from_spec() -> bool {
        true
    }

    open spec fn from_spec(v: SqliteQueryResult) -> Self {
        if rows_changed(v) == 0 {
            UpdateResult::NoChanges
        } else {
            UpdateResult::Updated(rows_changed(v))
        }
    }
}

impl From<SqliteQueryResult> for DeleteResult {
    fn from(res: SqliteQueryResult) -> (r: Self)
        ensures
            rows_changed(res) == 0 ==> r is NoChanges,
            rows_changed(res) != 0 ==> r == DeleteResult::Deleted(rows_changed(res)),
    {
        let rows = rows_affected(&res);
        DeleteResult::from_rows_affected(rows)
    }
}

impl vstd::std_specs::convert::FromSpecImpl<SqliteQueryResult> for DeleteResult {
    open spec fn obeys_from_spec() -> bool {
        true
    }

    open spec fn from_spec(v: SqliteQueryResult) -> Self {
        if rows_changed(v) == 0 {
            DeleteResult::NoChanges
        } else {
            DeleteResult::Deleted(rows_changed(v))
        }
    }
}

} // verus!

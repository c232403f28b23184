use vstd::prelude::*;

verus! {

/// The error kinds that the data-access core reports.
#[derive(Clone, Debug, PartialEq, Eq)]
pub enum DbError {
    /// A connection could not be opened or authenticated.
    Connect(String),
    /// No connection became available within the wait bound.
    PoolExhausted,
    /// A required column was absent or NULL.
    MissingRequiredField,
    /// A column held a value that does not convert to the requested type.
    Conversion,
    /// A query found no row where one was expected.
    RecordNotFound,
    /// The database rejected or failed to execute a statement.
    Statement(String),
}

/// Marker for "record not found in database".
#[derive(Clone, Copy, Debug, PartialEq, Eq)]
pub struct DBRecordNotFound;

impl DBRecordNotFound {
    /// The text that this error shows.
    pub fn message(&self) -> (r: &'static str) {
        "Record not found in database"
    }
}

impl From<DBRecordNotFound> for DbError {
    fn from(e: DBRecordNotFound) -> (r: DbError)
        ensures
            r == DbError::RecordNotFound,
    {
        DbError::RecordNotFound
    }
}

impl vstd::std_specs::convert::FromSpecImpl<DBRecordNotFound> for DbError {
    open spec fn obeys_from_spec() -> bool {
        true
    }

    open spec fn from_spec(v: DBRecordNotFound) -> DbError {
        DbError::RecordNotFound
    }
}

impl DbError {
    /// True for the one kind that the boundary reports as "not found".
    pub open spec fn is_not_found(&self) -> bool {
        self is RecordNotFound
    }

    /// The HTTP status that the boundary layer answers with for this error:
    /// 404 for a missing record, 500 for every other kind.
    pub fn http_status(&self) -> (r: u16)
        ensures
            self.is_not_found() ==> r == 404,
            !self.is_not_found() ==> r == 500,
    {
        match self {
            DbError::RecordNotFound => 404,
            _ => 500,
        }
    }
}

} // verus!

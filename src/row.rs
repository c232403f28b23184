use vstd::prelude::*;
use crate::errors::DbError;

verus! {

/// A point in time without a time zone, as the database stores it:
/// a day number and the time of that day.
#[derive(Clone, Copy, Debug, PartialEq, Eq, Structural)]
pub struct SqlDateTime {
    /// Days since 0001-01-01, that day being day 1.
    pub days_from_ce: i32,
    /// Seconds since midnight.
    pub seconds: u32,
    /// Nanoseconds within the second.
    pub nanoseconds: u32,
}

/// One column value of a result row, as the driver hands it over.
#[derive(Clone, Debug, PartialEq, Eq)]
pub enum SqlValue {
    Null,
    Bit(bool),
    U8(u8),
    I16(i16),
    I32(i32),
    I64(i64),
    Text(String),
    DateTime(SqlDateTime),
    /// A value of a type that no record field reads (binary, decimal, ...).
    Other,
}

/// A named column of a row.
#[derive(Clone, Debug, PartialEq, Eq)]
pub struct Column {
    pub name: String,
    pub value: SqlValue,
}

/// A single result row: its columns in the order the query produced them.
#[derive(Clone, Debug, PartialEq, Eq)]
pub struct Row {
    pub columns: Vec<Column>,
}

/// The value of the first column named `name`, if there is one.
pub open spec fn lookup(cols: Seq<Column>, name: Seq<char>) -> Option<SqlValue>
    decreases cols.len(),
{
    if cols.len() == 0 {
        None
    } else if cols[0].name@ == name {
        Some(cols[0].value)
    } else {
        lookup(cols.drop_first(), name)
    }
}

/// A type that a non-NULL column value may convert to.
pub trait FromSqlValue: Sized {
    /// The converted value, or `None` where the stored type does not fit.
    spec fn convert(v: SqlValue) -> Option<Self>;

    /// The value that a defaulted field takes.
    spec fn zero() -> Self;

    fn from_sql_value(v: &SqlValue) -> (r: Option<Self>)
        ensures
            r == Self::convert(*v),
    ;

    fn default_value() -> (r: Self)
        ensures
            r == Self::zero(),
    ;
}

impl FromSqlValue for i32 {
    open spec fn convert(v: SqlValue) -> Option<i32> {
        match v {
            SqlValue::I32(x) => Some(x),
            _ => None,
        }
    }

    open spec fn zero() -> i32 {
        0
    }

    fn from_sql_value(v: &SqlValue) -> (r: Option<i32>) {
        match v {
            SqlValue::I32(x) => Some(*x),
            _ => None,
        }
    }

    fn default_value() -> (r: i32) {
        0
    }
}

impl FromSqlValue for bool {
    open spec fn convert(v: SqlValue) -> Option<bool> {
        match v {
            SqlValue::Bit(x) => Some(x),
            _ => None,
        }
    }

    open spec fn zero() -> bool {
        false
    }

    fn from_sql_value(v: &SqlValue) -> (r: Option<bool>) {
        match v {
            SqlValue::Bit(x) => Some(*x),
            _ => None,
        }
    }

    fn default_value() -> (r: bool) {
        false
    }
}

impl FromSqlValue for SqlDateTime {
    open spec fn convert(v: SqlValue) -> Option<SqlDateTime> {
        match v {
            SqlValue::DateTime(x) => Some(x),
            _ => None,
        }
    }

    open spec fn zero() -> SqlDateTime {
        SqlDateTime { days_from_ce: 1, seconds: 0, nanoseconds: 0 }
    }

    fn from_sql_value(v: &SqlValue) -> (r: Option<SqlDateTime>) {
        match v {
            SqlValue::DateTime(x) => Some(*x),
            _ => None,
        }
    }

    fn default_value() -> (r: SqlDateTime) {
        SqlDateTime { days_from_ce: 1, seconds: 0, nanoseconds: 0 }
    }
}

/// `required`: absent and NULL are both a missing field.
pub open spec fn required_of<T: FromSqlValue>(v: Option<SqlValue>) -> Result<T, DbError> {
    match v {
        None => Err(DbError::MissingRequiredField),
        Some(SqlValue::Null) => Err(DbError::MissingRequiredField),
        Some(x) => match T::convert(x) {
            Some(t) => Ok(t),
            None => Err(DbError::Conversion),
        },
    }
}

/// `optional`: absent and NULL are `None`; a value of another type fails.
pub open spec fn optional_of<T: FromSqlValue>(v: Option<SqlValue>) -> Result<Option<T>, DbError> {
    match v {
        None => Ok(None),
        Some(SqlValue::Null) => Ok(None),
        Some(x) => match T::convert(x) {
            Some(t) => Ok(Some(t)),
            None => Err(DbError::Conversion),
        },
    }
}

/// `defaulted`: whatever does not convert yields the type's zero value.
pub open spec fn defaulted_of<T: FromSqlValue>(v: Option<SqlValue>) -> T {
    match v {
        Some(x) => match T::convert(x) {
            Some(t) => t,
            None => T::zero(),
        },
        None => T::zero(),
    }
}

/// `string`: `optional` for text columns.
pub open spec fn string_of(v: Option<SqlValue>) -> Result<Option<String>, DbError> {
    match v {
        None => Ok(None),
        Some(SqlValue::Null) => Ok(None),
        Some(SqlValue::Text(s)) => Ok(Some(s)),
        Some(_) => Err(DbError::Conversion),
    }
}

proof fn lemma_lookup_step(cols: Seq<Column>, name: Seq<char>, i: int)
    requires
        0 <= i < cols.len(),
    ensures
        lookup(cols.subrange(i, cols.len() as int), name) == (if cols[i].name@ == name {
            Some(cols[i].value)
        } else {
            lookup(cols.subrange(i + 1, cols.len() as int), name)
        }),
{
    assert(cols.subrange(i, cols.len() as int).drop_first() =~= cols.subrange(
        i + 1,
        cols.len() as int,
    ));
}

impl Row {
    /// The value of the column named `col`; the first one where names repeat.
    pub open spec fn value_of(&self, col: Seq<char>) -> Option<SqlValue> {
        lookup(self.columns@, col)
    }

    /// Index of the first column named `col`.
    pub fn find(&self, col: &str) -> (r: Option<usize>)
        ensures
            match r {
                Some(i) => i < self.columns@.len() && self.columns@[i as int].name@ == col@
                    && self.value_of(col@) == Some(self.columns@[i as int].value),
                None => self.value_of(col@) is None,
            },
    {
        let key = col.to_owned();
        let n = self.columns.len();
        let mut i: usize = 0;
        assert(self.columns@.subrange(0, n as int) =~= self.columns@);
        while i < n
            invariant
                i <= n,
                n == self.columns@.len(),
                key@ == col@,
                lookup(self.columns@, col@) == lookup(
                    self.columns@.subrange(i as int, n as int),
                    col@,
                ),
            decreases n - i,
        {
            proof {
                lemma_lookup_step(self.columns@, col@, i as int);
            }
            if self.columns[i].name == key {
                return Some(i);
            }
            i = i + 1;
        }
        None
    }

    /// A column that must hold a value: absent or NULL fails with
    /// `MissingRequiredField`, a value of another type with `Conversion`.
    pub fn required<T: FromSqlValue>(&self, col: &str) -> (r: Result<T, DbError>)
        ensures
            r == required_of::<T>(self.value_of(col@)),
            self.value_of(col@) is None || self.value_of(col@) == Some(SqlValue::Null)
                ==> r == Err::<T, DbError>(DbError::MissingRequiredField),
    {
        match self.find(col) {
            None => Err(DbError::MissingRequiredField),
            Some(i) => match &self.columns[i].value {
                SqlValue::Null => Err(DbError::MissingRequiredField),
                v => match T::from_sql_value(v) {
                    Some(t) => Ok(t),
                    None => Err(DbError::Conversion),
                },
            },
        }
    }

    /// A nullable column: absent or NULL gives `None`; only a value of
    /// another type fails, with `Conversion`.
    pub fn optional<T: FromSqlValue>(&self, col: &str) -> (r: Result<Option<T>, DbError>)
        ensures
            r == optional_of::<T>(self.value_of(col@)),
            self.value_of(col@) is None || self.value_of(col@) == Some(SqlValue::Null)
                ==> r == Ok::<Option<T>, DbError>(None),
            (self.value_of(col@) matches Some(v) && v != SqlValue::Null && T::convert(v) is None)
                ==> r == Err::<Option<T>, DbError>(DbError::Conversion),
    {
        match self.find(col) {
            None => Ok(None),
            Some(i) => match &self.columns[i].value {
                SqlValue::Null => Ok(None),
                v => match T::from_sql_value(v) {
                    Some(t) => Ok(Some(t)),
                    None => Err(DbError::Conversion),
                },
            },
        }
    }

    /// A column with a backstop default: never fails; absent, NULL and a
    /// value that does not convert all give the type's zero value.
    pub fn defaulted<T: FromSqlValue>(&self, col: &str) -> (r: T)
        ensures
            r == defaulted_of::<T>(self.value_of(col@)),
            (self.value_of(col@) matches Some(v) && T::convert(v) is Some) ==> r == T::convert(
                self.value_of(col@)->Some_0,
            )->Some_0,
            !(self.value_of(col@) matches Some(v) && T::convert(v) is Some) ==> r == T::zero(),
    {
        match self.find(col) {
            None => T::default_value(),
            Some(i) => match T::from_sql_value(&self.columns[i].value) {
                Some(t) => t,
                None => T::default_value(),
            },
        }
    }

    /// A nullable text column, as an owned string.
    pub fn string(&self, col: &str) -> (r: Result<Option<String>, DbError>)
        ensures
            r == string_of(self.value_of(col@)),
    {
        match self.find(col) {
            None => Ok(None),
            Some(i) => match &self.columns[i].value {
                SqlValue::Null => Ok(None),
                SqlValue::Text(s) => Ok(Some(s.clone())),
                _ => Err(DbError::Conversion),
            },
        }
    }
}

} // verus!

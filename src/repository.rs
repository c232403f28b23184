use vstd::prelude::*;
use crate::errors::DbError;
use crate::mapping::{
    category_of_row, order_of_row, supplier_of_row, try_map_category, try_map_order,
    try_map_supplier,
};
use crate::model::{Category, CreateCategory, CreateOrder, CreateSupplier, Order, Supplier};
use crate::row::{optional_of, Row, SqlDateTime, SqlValue};

verus! {

/// A value bound to a statement parameter; `None` binds NULL.
#[derive(Clone, Debug, PartialEq, Eq)]
pub enum SqlParam {
    Int(Option<i32>),
    Text(Option<String>),
    Bit(bool),
    DateTime(SqlDateTime),
}

/// A parameterised statement: values are bound as `@P1`, `@P2`, ... in the
/// order of `params`, never written into the text.
#[derive(Clone, Debug, PartialEq, Eq)]
pub struct Statement {
    pub sql: &'static str,
    pub params: Vec<SqlParam>,
}

pub const ORDERS_SQL: &'static str = "SELECT top (100) * from ConsOrders";

pub const ORDER_BY_ID_SQL: &'static str = "SELECT * from ConsOrders where ConsID = @P1";

pub const CREATE_ORDER_SQL: &'static str = "declare @rc int; exec @rc = up_NewAccount @P1, @P2, @P3, @P4, @P5, @P6, @P7, @P8, @P9, @P10; select @rc as Id";

pub const CATEGORIES_SQL: &'static str = "SELECT * from ConsCats";

pub const CATEGORY_BY_ID_SQL: &'static str = "SELECT * from ConsCats where CatID = @P1";

pub const CREATE_CATEGORY_SQL: &'static str = "insert into ConsCats (ParentID, CatName, CatUnitCode, Code) values (@P1, @P2, @P3, @P4); select CAST(SCOPE_IDENTITY() as int) as Id";

pub const DELETE_CATEGORY_SQL: &'static str = "DELETE from ConsCats where CatID = @P1";

pub const SUPPLIER_BY_ID_SQL: &'static str = "SELECT * from Seller where SellerID = @P1";

pub const SUPPLIER_BY_NAME_SQL: &'static str = "SELECT * from Seller where SellerName = @P1";

pub const CREATE_SUPPLIER_SQL: &'static str = "insert into Seller (SellerName, SellerPhone, SellerFax, SellerManager, SellerEmail, SellerAddressDoc, SellerAddressFact, SellerAddressStore, SellerStoreTime, SellerStoreWho, SellerStorePhone, SellerFullName) values (@P1, @P2, @P3, @P4, @P5, @P6, @P7, @P8, @P9, @P10, @P11, @P12); select CAST(SCOPE_IDENTITY() as int) as Id";

/// The value that a column holds once a parameter was stored in it.
pub open spec fn stored_value(p: SqlParam) -> SqlValue {
    match p {
        SqlParam::Int(Some(v)) => SqlValue::I32(v),
        SqlParam::Text(Some(s)) => SqlValue::Text(s),
        SqlParam::Bit(b) => SqlValue::Bit(b),
        SqlParam::DateTime(d) => SqlValue::DateTime(d),
        _ => SqlValue::Null,
    }
}

/// True when `row` holds, under each of `cols`, the value stored from the
/// parameter at the same place.
pub open spec fn row_holds(row: Row, cols: Seq<Seq<char>>, params: Seq<SqlParam>) -> bool {
    &&& cols.len() == params.len()
    &&& forall|k: int| 0 <= k < cols.len() ==> #[trigger] row.value_of(cols[k]) == Some(
        stored_value(params[k]),
    )
}

fn copy_text(s: &Option<String>) -> (r: Option<String>)
    ensures
        r == *s,
{
    match s {
        Some(t) => Some(t.clone()),
        None => None,
    }
}

/// Lists at most a hundred orders.
pub fn orders_query() -> (r: Statement)
    ensures
        r.sql == ORDERS_SQL,
        r.params@.len() == 0,
{
    Statement { sql: ORDERS_SQL, params: Vec::new() }
}

/// Reads one order by its identity.
pub fn order_by_id(id: i32) -> (r: Statement)
    ensures
        r.sql == ORDER_BY_ID_SQL,
        r.params@ == seq![SqlParam::Int(Some(id))],
{
    Statement { sql: ORDER_BY_ID_SQL, params: vec![SqlParam::Int(Some(id))] }
}

/// The parameters of the order-creating procedure, in its argument order.
pub open spec fn order_params(c: CreateOrder) -> Seq<SqlParam> {
    seq![
        SqlParam::Text(Some(c.accountNum)),
        SqlParam::DateTime(c.accountDate),
        SqlParam::DateTime(c.incomeDate),
        SqlParam::Bit(c.hasTrust),
        SqlParam::Text(c.trustSer),
        SqlParam::Int(c.trustNum),
        SqlParam::Int(Some(c.supplierId)),
        SqlParam::Int(c.bySelf),
        SqlParam::Text(Some(c.comment)),
        SqlParam::Int(Some(c.enterpriseId)),
    ]
}

/// Creates an order through the `up_NewAccount` procedure, which answers
/// with the new identity in a column `Id`.
pub fn create_order_statement(c: &CreateOrder) -> (r: Statement)
    ensures
        r.sql == CREATE_ORDER_SQL,
        r.params@ == order_params(*c),
{
    let params = vec![
        SqlParam::Text(Some(c.accountNum.clone())),
        SqlParam::DateTime(c.accountDate),
        SqlParam::DateTime(c.incomeDate),
        SqlParam::Bit(c.hasTrust),
        SqlParam::Text(copy_text(&c.trustSer)),
        SqlParam::Int(c.trustNum),
        SqlParam::Int(Some(c.supplierId)),
        SqlParam::Int(c.bySelf),
        SqlParam::Text(Some(c.comment.clone())),
        SqlParam::Int(Some(c.enterpriseId)),
    ];
    Statement {
        sql: CREATE_ORDER_SQL,
        params,
    }
}

/// Lists every category.
pub fn categories_query() -> (r: Statement)
    ensures
        r.sql == CATEGORIES_SQL,
        r.params@.len() == 0,
{
    Statement { sql: CATEGORIES_SQL, params: Vec::new() }
}

/// Reads one category by its identity.
pub fn category_by_id(id: i32) -> (r: Statement)
    ensures
        r.sql == CATEGORY_BY_ID_SQL,
        r.params@ == seq![SqlParam::Int(Some(id))],
{
    Statement { sql: CATEGORY_BY_ID_SQL, params: vec![SqlParam::Int(Some(id))] }
}

/// The columns that the category insert fills, in parameter order.
pub open spec fn category_insert_columns() -> Seq<Seq<char>> {
    seq!["ParentID"@, "CatName"@, "CatUnitCode"@, "Code"@]
}

/// The parameters of the category insert.
pub open spec fn category_params(c: CreateCategory) -> Seq<SqlParam> {
    seq![
        SqlParam::Int(c.parentId),
        SqlParam::Text(Some(c.catName)),
        SqlParam::Int(Some(c.catUnitCode)),
        SqlParam::Int(Some(c.code)),
    ]
}

/// Inserts a category and answers with its new identity in a column `Id`.
pub fn create_category_statement(c: &CreateCategory) -> (r: Statement)
    ensures
        r.sql == CREATE_CATEGORY_SQL,
        r.params@ == category_params(*c),
{
    let params = vec![
        SqlParam::Int(c.parentId),
        SqlParam::Text(Some(c.catName.clone())),
        SqlParam::Int(Some(c.catUnitCode)),
        SqlParam::Int(Some(c.code)),
    ];
    Statement {
        sql: CREATE_CATEGORY_SQL,
        params,
    }
}

/// Deletes one category by its identity.
pub fn delete_category_statement(id: i32) -> (r: Statement)
    ensures
        r.sql == DELETE_CATEGORY_SQL,
        r.params@ == seq![SqlParam::Int(Some(id))],
{
    Statement { sql: DELETE_CATEGORY_SQL, params: vec![SqlParam::Int(Some(id))] }
}

/// Reads one supplier by its identity.
pub fn supplier_by_id(id: i32) -> (r: Statement)
    ensures
        r.sql == SUPPLIER_BY_ID_SQL,
        r.params@ == seq![SqlParam::Int(Some(id))],
{
    Statement { sql: SUPPLIER_BY_ID_SQL, params: vec![SqlParam::Int(Some(id))] }
}

/// Reads one supplier by its exact name.
pub fn supplier_by_name(name: &str) -> (r: Statement)
    ensures
        r.sql == SUPPLIER_BY_NAME_SQL,
        r.params@.len() == 1,
        r.params@[0] matches SqlParam::Text(Some(s)) && s@ == name@,
{
    Statement {
        sql: SUPPLIER_BY_NAME_SQL,
        params: vec![SqlParam::Text(Some(name.to_owned()))],
    }
}

/// The columns that the supplier insert fills, in parameter order.
pub open spec fn supplier_insert_columns() -> Seq<Seq<char>> {
    seq![
        "SellerName"@,
        "SellerPhone"@,
        "SellerFax"@,
        "SellerManager"@,
        "SellerEmail"@,
        "SellerAddressDoc"@,
        "SellerAddressFact"@,
        "SellerAddressStore"@,
        "SellerStoreTime"@,
        "SellerStoreWho"@,
        "SellerStorePhone"@,
        "SellerFullName"@,
    ]
}

/// The parameters of the supplier insert.
pub open spec fn supplier_params(c: CreateSupplier) -> Seq<SqlParam> {
    seq![
        SqlParam::Text(c.supplierName),
        SqlParam::Text(c.supplierPhone),
        SqlParam::Text(c.supplierFax),
        SqlParam::Text(c.supplierManager),
        SqlParam::Text(c.supplierEmail),
        SqlParam::Text(c.supplierAddressDoc),
        SqlParam::Text(c.supplierAddressFact),
        SqlParam::Text(c.supplierAddressStore),
        SqlParam::Text(c.supplierStoreTime),
        SqlParam::Text(c.supplierStoreWho),
        SqlParam::Text(c.supplierStorePhone),
        SqlParam::Text(c.supplierFullName),
    ]
}

/// Inserts a supplier and answers with its new identity in a column `Id`.
pub fn create_supplier_statement(c: &CreateSupplier) -> (r: Statement)
    ensures
        r.sql == CREATE_SUPPLIER_SQL,
        r.params@ == supplier_params(*c),
{
    let params = vec![
        SqlParam::Text(copy_text(&c.supplierName)),
        SqlParam::Text(copy_text(&c.supplierPhone)),
        SqlParam::Text(copy_text(&c.supplierFax)),
        SqlParam::Text(copy_text(&c.supplierManager)),
        SqlParam::Text(copy_text(&c.supplierEmail)),
        SqlParam::Text(copy_text(&c.supplierAddressDoc)),
        SqlParam::Text(copy_text(&c.supplierAddressFact)),
        SqlParam::Text(copy_text(&c.supplierAddressStore)),
        SqlParam::Text(copy_text(&c.supplierStoreTime)),
        SqlParam::Text(copy_text(&c.supplierStoreWho)),
        SqlParam::Text(copy_text(&c.supplierStorePhone)),
        SqlParam::Text(copy_text(&c.supplierFullName)),
    ];
    Statement {
        sql: CREATE_SUPPLIER_SQL,
        params,
    }
}

/// Every row mapped by `f`, in order; the first row that fails gives the error.
pub open spec fn map_all<T>(rows: Seq<Row>, f: spec_fn(Row) -> Result<T, DbError>) -> Result<
    Seq<T>,
    DbError,
>
    decreases rows.len(),
{
    if rows.len() == 0 {
        Ok(Seq::empty())
    } else {
        match map_all(rows.drop_last(), f) {
            Err(e) => Err(e),
            Ok(done) => match f(rows.last()) {
                Err(e) => Err(e),
                Ok(x) => Ok(done.push(x)),
            },
        }
    }
}

proof fn lemma_map_all_prefix_fails<T>(
    rows: Seq<Row>,
    f: spec_fn(Row) -> Result<T, DbError>,
    i: int,
)
    requires
        0 <= i <= rows.len(),
        map_all(rows.subrange(0, i), f) is Err,
    ensures
        map_all(rows, f) == map_all(rows.subrange(0, i), f),
    decreases rows.len() - i,
{
    if i < rows.len() {
        let next = rows.subrange(0, i + 1);
        assert(next.drop_last() =~= rows.subrange(0, i));
        assert(rows.subrange(0, i + 1).subrange(0, i) =~= rows.subrange(0, i));
        lemma_map_all_prefix_fails(rows, f, i + 1);
    } else {
        assert(rows.subrange(0, i) =~= rows);
    }
}

proof fn lemma_map_all_step<T>(rows: Seq<Row>, f: spec_fn(Row) -> Result<T, DbError>, i: int)
    requires
        0 <= i < rows.len(),
    ensures
        map_all(rows.subrange(0, i + 1), f) == (match map_all(rows.subrange(0, i), f) {
            Err(e) => Err(e),
            Ok(done) => match f(rows[i]) {
                Err(e) => Err(e),
                Ok(x) => Ok(done.push(x)),
            },
        }),
{
    assert(rows.subrange(0, i + 1).drop_last() =~= rows.subrange(0, i));
}

/// Maps the rows of an order listing. An empty listing is a success.
pub fn finish_orders(rows: &Vec<Row>) -> (r: Result<Vec<Order>, DbError>)
    ensures
        match r {
            Ok(v) => map_all(rows@, |x: Row| order_of_row(x)) == Ok::<Seq<Order>, DbError>(v@),
            Err(e) => map_all(rows@, |x: Row| order_of_row(x)) == Err::<Seq<Order>, DbError>(e),
        },
        rows@.len() == 0 ==> (r matches Ok(v) && v@.len() == 0),
{
    let ghost f = |x: Row| order_of_row(x);
    let mut out: Vec<Order> = Vec::new();
    let mut i: usize = 0;
    assert(rows@.subrange(0, 0) =~= Seq::<Row>::empty());
    while i < rows.len()
        invariant
            i <= rows@.len(),
            f == (|x: Row| order_of_row(x)),
            map_all(rows@.subrange(0, i as int), f) == Ok::<Seq<Order>, DbError>(out@),
        decreases rows@.len() - i,
    {
        proof {
            lemma_map_all_step(rows@, f, i as int);
        }
        match try_map_order(&rows[i]) {
            Ok(o) => {
                out.push(o);
            },
            Err(e) => {
                proof {
                    lemma_map_all_prefix_fails(rows@, f, i + 1);
                }
                return Err(e);
            },
        }
        i = i + 1;
    }
    assert(rows@.subrange(0, i as int) =~= rows@);
    Ok(out)
}

/// Maps the rows of a category listing. An empty listing is a success.
pub fn finish_categories(rows: &Vec<Row>) -> (r: Result<Vec<Category>, DbError>)
    ensures
        match r {
            Ok(v) => map_all(rows@, |x: Row| category_of_row(x)) == Ok::<Seq<Category>, DbError>(
                v@,
            ),
            Err(e) => map_all(rows@, |x: Row| category_of_row(x)) == Err::<
                Seq<Category>,
                DbError,
            >(e),
        },
        rows@.len() == 0 ==> (r matches Ok(v) && v@.len() == 0),
{
    let ghost f = |x: Row| category_of_row(x);
    let mut out: Vec<Category> = Vec::new();
    let mut i: usize = 0;
    assert(rows@.subrange(0, 0) =~= Seq::<Row>::empty());
    while i < rows.len()
        invariant
            i <= rows@.len(),
            f == (|x: Row| category_of_row(x)),
            map_all(rows@.subrange(0, i as int), f) == Ok::<Seq<Category>, DbError>(out@),
        decreases rows@.len() - i,
    {
        proof {
            lemma_map_all_step(rows@, f, i as int);
        }
        match try_map_category(&rows[i]) {
            Ok(c) => {
                out.push(c);
            },
            Err(e) => {
                proof {
                    lemma_map_all_prefix_fails(rows@, f, i + 1);
                }
                return Err(e);
            },
        }
        i = i + 1;
    }
    assert(rows@.subrange(0, i as int) =~= rows@);
    Ok(out)
}

/// What a read of one record by key yields: no row is `RecordNotFound`,
/// a row is whatever `f` maps it to.
pub open spec fn single_of<T>(row: Option<Row>, f: spec_fn(Row) -> Result<T, DbError>) -> Result<
    T,
    DbError,
> {
    match row {
        None => Err(DbError::RecordNotFound),
        Some(x) => f(x),
    }
}

/// The result of reading one order by its identity.
pub fn finish_get_order(row: &Option<Row>) -> (r: Result<Order, DbError>)
    ensures
        r == single_of(*row, |x: Row| order_of_row(x)),
{
    match row {
        None => Err(DbError::RecordNotFound),
        Some(x) => try_map_order(x),
    }
}

/// The result of reading one category by its identity.
pub fn finish_get_category(row: &Option<Row>) -> (r: Result<Category, DbError>)
    ensures
        r == single_of(*row, |x: Row| category_of_row(x)),
{
    match row {
        None => Err(DbError::RecordNotFound),
        Some(x) => try_map_category(x),
    }
}

/// The result of reading one supplier by its identity or its name.
pub fn finish_get_supplier(row: &Option<Row>) -> (r: Result<Supplier, DbError>)
    ensures
        r == single_of(*row, |x: Row| supplier_of_row(x)),
{
    match row {
        None => Err(DbError::RecordNotFound),
        Some(x) => try_map_supplier(x),
    }
}

/// The identity that a create statement answers with: no row or a NULL
/// `Id` is `RecordNotFound`; an `Id` that is no integer fails to convert.
pub open spec fn identity_of(row: Option<Row>) -> Result<i32, DbError> {
    match row {
        None => Err(DbError::RecordNotFound),
        Some(x) => match optional_of::<i32>(x.value_of("Id"@)) {
            Err(e) => Err(e),
            Ok(None) => Err(DbError::RecordNotFound),
            Ok(Some(id)) => Ok(id),
        },
    }
}

/// Reads the generated identity out of the first row of a create statement.
pub fn generated_identity(row: &Option<Row>) -> (r: Result<i32, DbError>)
    ensures
        r == identity_of(*row),
{
    match row {
        None => Err(DbError::RecordNotFound),
        Some(x) => match x.optional::<i32>("Id") {
            Err(e) => Err(e),
            Ok(None) => Err(DbError::RecordNotFound),
            Ok(Some(id)) => Ok(id),
        },
    }
}

/// The result of a delete, from the affected-row counts of its statements:
/// success when the first count is above zero, else `RecordNotFound`.
pub fn finish_delete(rows_affected: &Vec<u64>) -> (r: Result<(), DbError>)
    ensures
        r is Ok <==> rows_affected@.len() > 0 && rows_affected@[0] > 0,
        r is Err ==> r == Err::<(), DbError>(DbError::RecordNotFound),
{
    if rows_affected.len() > 0 && rows_affected[0] > 0 {
        Ok(())
    } else {
        Err(DbError::RecordNotFound)
    }
}

/// The category that creating `c` must read back under identity `id`.
pub open spec fn category_created(id: i32, c: CreateCategory) -> Category {
    Category {
        catId: id,
        parentId: c.parentId,
        catName: Some(c.catName),
        catUnitCode: c.catUnitCode,
        code: c.code,
    }
}

/// The supplier that creating `c` must read back under identity `id`.
pub open spec fn supplier_created(id: i32, c: CreateSupplier) -> Supplier {
    Supplier {
        supplierId: id,
        supplierName: c.supplierName,
        supplierPhone: c.supplierPhone,
        supplierFax: c.supplierFax,
        supplierManager: c.supplierManager,
        supplierEmail: c.supplierEmail,
        supplierAddressDoc: c.supplierAddressDoc,
        supplierAddressFact: c.supplierAddressFact,
        supplierAddressStore: c.supplierAddressStore,
        supplierStoreTime: c.supplierStoreTime,
        supplierStoreWho: c.supplierStoreWho,
        supplierStorePhone: c.supplierStorePhone,
        supplierFullName: c.supplierFullName,
    }
}

/// Creating a category and reading it back by its identity gives back the
/// input: a row that holds the insert's parameters under its columns and the
/// identity under `CatID` maps to the category with that identity and every
/// other field equal to the input.
pub proof fn lemma_category_round_trip(c: CreateCategory, id: i32, row: Row)
    requires
        row_holds(row, category_insert_columns(), category_params(c)),
        row.value_of("CatID"@) == Some(SqlValue::I32(id)),
    ensures
        category_of_row(row) == Ok::<Category, DbError>(category_created(id, c)),
{
    let cols = category_insert_columns();
    let ps = category_params(c);
    assert(row.value_of(cols[0]) == Some(stored_value(ps[0])));
    assert(row.value_of(cols[1]) == Some(stored_value(ps[1])));
    assert(row.value_of(cols[2]) == Some(stored_value(ps[2])));
    assert(row.value_of(cols[3]) == Some(stored_value(ps[3])));
}

/// Creating a supplier and reading it back by its identity gives back the
/// input: a row that holds the insert's parameters under its columns and the
/// identity under `SellerID` maps to the supplier with that identity and
/// every other field equal to the input.
pub proof fn lemma_supplier_round_trip(c: CreateSupplier, id: i32, row: Row)
    requires
        row_holds(row, supplier_insert_columns(), supplier_params(c)),
        row.value_of("SellerID"@) == Some(SqlValue::I32(id)),
    ensures
        supplier_of_row(row) == Ok::<Supplier, DbError>(supplier_created(id, c)),
{
    let cols = supplier_insert_columns();
    let ps = supplier_params(c);
    assert(forall|k: int| 0 <= k < 12 ==> row.value_of(cols[k]) == Some(stored_value(ps[k])));
}

} // verus!

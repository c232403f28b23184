use vstd::prelude::*;
use crate::row::SqlDateTime;

verus! {

/// A consumables order as stored in the `ConsOrders` table.
#[allow(non_snake_case)]
#[derive(Clone, Debug, PartialEq, Eq)]
pub struct Order {
    pub consId: i32,
    pub orderState: i32,
    pub incomeDate: Option<SqlDateTime>,
    pub supplierId: i32,
    pub accountNum: Option<String>,
    pub accountDate: Option<SqlDateTime>,
    pub bySelf: Option<i32>,
    pub hasTrust: bool,
    pub trustSer: Option<String>,
    pub trustNum: Option<i32>,
    pub comment: Option<String>,
    pub enterpriseId: i32,
}

/// A category of consumables (`ConsCats`).
#[allow(non_snake_case)]
#[derive(Clone, Debug, PartialEq, Eq)]
pub struct Category {
    pub catId: i32,
    pub parentId: Option<i32>,
    pub catName: Option<String>,
    pub catUnitCode: i32,
    pub code: i32,
}

/// A supplier (`Seller`).
#[allow(non_snake_case)]
#[derive(Clone, Debug, PartialEq, Eq)]
pub struct Supplier {
    pub supplierId: i32,
    pub supplierName: Option<String>,
    pub supplierPhone: Option<String>,
    pub supplierFax: Option<String>,
    pub supplierManager: Option<String>,
    pub supplierEmail: Option<String>,
    pub supplierAddressDoc: Option<String>,
    pub supplierAddressFact: Option<String>,
    pub supplierAddressStore: Option<String>,
    pub supplierStoreTime: Option<String>,
    pub supplierStoreWho: Option<String>,
    pub supplierStorePhone: Option<String>,
    pub supplierFullName: Option<String>,
}

/// The fields a caller gives to create an order.
#[allow(non_snake_case)]
#[derive(Clone, Debug, PartialEq, Eq)]
pub struct CreateOrder {
    pub accountNum: String,
    pub accountDate: SqlDateTime,
    pub incomeDate: SqlDateTime,
    pub hasTrust: bool,
    pub trustSer: Option<String>,
    pub trustNum: Option<i32>,
    pub supplierId: i32,
    pub bySelf: Option<i32>,
    pub comment: String,
    pub enterpriseId: i32,
}

/// The fields a caller gives to create a supplier.
#[allow(non_snake_case)]
#[derive(Clone, Debug, PartialEq, Eq)]
pub struct CreateSupplier {
    pub supplierName: Option<String>,
    pub supplierPhone: Option<String>,
    pub supplierFax: Option<String>,
    pub supplierManager: Option<String>,
    pub supplierEmail: Option<String>,
    pub supplierAddressDoc: Option<String>,
    pub supplierAddressFact: Option<String>,
    pub supplierAddressStore: Option<String>,
    pub supplierStoreTime: Option<String>,
    pub supplierStoreWho: Option<String>,
    pub supplierStorePhone: Option<String>,
    pub supplierFullName: Option<String>,
}

/// The fields a caller gives to create a category.
#[allow(non_snake_case)]
#[derive(Clone, Debug, PartialEq, Eq)]
pub struct CreateCategory {
    pub parentId: Option<i32>,
    pub catName: String,
    pub catUnitCode: i32,
    pub code: i32,
}

/// The key that a request presents in its query string.
#[derive(Clone, Debug, PartialEq, Eq)]
pub struct ApiKey {
    pub api_key: String,
}

/// The caller that a valid key identifies.
#[derive(Clone, Debug, PartialEq, Eq)]
pub struct User {
    pub name: String,
}

} // verus!

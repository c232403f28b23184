use vstd::prelude::*;
use crate::errors::DbError;
use crate::model::{Category, Order, Supplier};
use crate::row::{optional_of, required_of, defaulted_of, string_of, Row, SqlDateTime};

verus! {

/// The category that a row maps to: `CatID` required, `ParentID` and
/// `CatName` optional, `CatUnitCode` and `Code` defaulted; the first field
/// that fails, in that order, gives the error.
pub open spec fn category_of_row(row: Row) -> Result<Category, DbError> {
    let cat_id = required_of::<i32>(row.value_of("CatID"@));
    let parent_id = optional_of::<i32>(row.value_of("ParentID"@));
    let cat_name = string_of(row.value_of("CatName"@));
    if cat_id is Err {
        Err(cat_id->Err_0)
    } else if parent_id is Err {
        Err(parent_id->Err_0)
    } else if cat_name is Err {
        Err(cat_name->Err_0)
    } else {
        Ok(
            Category {
                catId: cat_id->Ok_0,
                parentId: parent_id->Ok_0,
                catName: cat_name->Ok_0,
                catUnitCode: defaulted_of::<i32>(row.value_of("CatUnitCode"@)),
                code: defaulted_of::<i32>(row.value_of("Code"@)),
            },
        )
    }
}

/// Maps a `ConsCats` row to a category.
pub fn try_map_category(row: &Row) -> (r: Result<Category, DbError>)
    ensures
        r == category_of_row(*row),
{
    Ok(
        Category {
            catId: row.required("CatID")?,
            parentId: row.optional("ParentID")?,
            catName: row.string("CatName")?,
            catUnitCode: row.defaulted("CatUnitCode"),
            code: row.defaulted("Code"),
        },
    )
}


/// The order that a `ConsOrders` row maps to; the first field that fails, in
/// the order of the fields, gives the error.
pub open spec fn order_of_row(row: Row) -> Result<Order, DbError> {
    let f_consId = required_of::<i32>(row.value_of("ConsID"@));
    let f_incomeDate = optional_of::<SqlDateTime>(row.value_of("IncomeDate"@));
    let f_accountNum = string_of(row.value_of("AccountNum"@));
    let f_accountDate = optional_of::<SqlDateTime>(row.value_of("AccountDate"@));
    let f_bySelf = optional_of::<i32>(row.value_of("BySelf"@));
    let f_trustNum = optional_of::<i32>(row.value_of("TrustNum"@));
    let f_trustSer = string_of(row.value_of("TrustSer"@));
    let f_comment = string_of(row.value_of("Comment"@));
    if f_consId is Err {
        Err(f_consId->Err_0)
    } else if f_incomeDate is Err {
        Err(f_incomeDate->Err_0)
    } else if f_accountNum is Err {
        Err(f_accountNum->Err_0)
    } else if f_accountDate is Err {
        Err(f_accountDate->Err_0)
    } else if f_bySelf is Err {
        Err(f_bySelf->Err_0)
    } else if f_trustNum is Err {
        Err(f_trustNum->Err_0)
    } else if f_trustSer is Err {
        Err(f_trustSer->Err_0)
    } else if f_comment is Err {
        Err(f_comment->Err_0)
    } else {
        Ok(
            Order {
                consId: f_consId->Ok_0,
                orderState: defaulted_of::<i32>(row.value_of("OrderState"@)),
                incomeDate: f_incomeDate->Ok_0,
                accountNum: f_accountNum->Ok_0,
                accountDate: f_accountDate->Ok_0,
                bySelf: f_bySelf->Ok_0,
                hasTrust: defaulted_of::<bool>(row.value_of("HasTrust"@)),
                supplierId: defaulted_of::<i32>(row.value_of("SellerID"@)),
                trustNum: f_trustNum->Ok_0,
                trustSer: f_trustSer->Ok_0,
                comment: f_comment->Ok_0,
                enterpriseId: defaulted_of::<i32>(row.value_of("EnterpriseID"@)),
            },
        )
    }
}

/// Maps a `ConsOrders` row to an order.
pub fn try_map_order(row: &Row) -> (r: Result<Order, DbError>)
    ensures
        r == order_of_row(*row),
{
    Ok(
        Order {
            consId: row.required("ConsID")?,
            orderState: row.defaulted("OrderState"),
            incomeDate: row.optional("IncomeDate")?,
            accountNum: row.string("AccountNum")?,
            accountDate: row.optional("AccountDate")?,
            bySelf: row.optional("BySelf")?,
            hasTrust: row.defaulted("HasTrust"),
            supplierId: row.defaulted("SellerID"),
            trustNum: row.optional("TrustNum")?,
            trustSer: row.string("TrustSer")?,
            comment: row.string("Comment")?,
            enterpriseId: row.defaulted("EnterpriseID"),
        },
    )
}

/// The supplier that a `Seller` row maps to: `SellerID` required, every other
/// field an optional text column; the first field that fails gives the error.
pub open spec fn supplier_of_row(row: Row) -> Result<Supplier, DbError> {
    let f_supplierId = required_of::<i32>(row.value_of("SellerID"@));
    let f_supplierName = string_of(row.value_of("SellerName"@));
    let f_supplierPhone = string_of(row.value_of("SellerPhone"@));
    let f_supplierFax = string_of(row.value_of("SellerFax"@));
    let f_supplierManager = string_of(row.value_of("SellerManager"@));
    let f_supplierEmail = string_of(row.value_of("SellerEmail"@));
    let f_supplierAddressDoc = string_of(row.value_of("SellerAddressDoc"@));
    let f_supplierAddressFact = string_of(row.value_of("SellerAddressFact"@));
    let f_supplierAddressStore = string_of(row.value_of("SellerAddressStore"@));
    let f_supplierStoreTime = string_of(row.value_of("SellerStoreTime"@));
    let f_supplierStoreWho = string_of(row.value_of("SellerStoreWho"@));
    let f_supplierStorePhone = string_of(row.value_of("SellerStorePhone"@));
    let f_supplierFullName = string_of(row.value_of("SellerFullName"@));
    if f_supplierId is Err {
        Err(f_supplierId->Err_0)
    } else if f_supplierName is Err {
        Err(f_supplierName->Err_0)
    } else if f_supplierPhone is Err {
        Err(f_supplierPhone->Err_0)
    } else if f_supplierFax is Err {
        Err(f_supplierFax->Err_0)
    } else if f_supplierManager is Err {
        Err(f_supplierManager->Err_0)
    } else if f_supplierEmail is Err {
        Err(f_supplierEmail->Err_0)
    } else if f_supplierAddressDoc is Err {
        Err(f_supplierAddressDoc->Err_0)
    } else if f_supplierAddressFact is Err {
        Err(f_supplierAddressFact->Err_0)
    } else if f_supplierAddressStore is Err {
        Err(f_supplierAddressStore->Err_0)
    } else if f_supplierStoreTime is Err {
        Err(f_supplierStoreTime->Err_0)
    } else if f_supplierStoreWho is Err {
        Err(f_supplierStoreWho->Err_0)
    } else if f_supplierStorePhone is Err {
        Err(f_supplierStorePhone->Err_0)
    } else if f_supplierFullName is Err {
        Err(f_supplierFullName->Err_0)
    } else {
        Ok(
            Supplier {
                supplierId: f_supplierId->Ok_0,
                supplierName: f_supplierName->Ok_0,
                supplierPhone: f_supplierPhone->Ok_0,
                supplierFax: f_supplierFax->Ok_0,
                supplierManager: f_supplierManager->Ok_0,
                supplierEmail: f_supplierEmail->Ok_0,
                supplierAddressDoc: f_supplierAddressDoc->Ok_0,
                supplierAddressFact: f_supplierAddressFact->Ok_0,
                supplierAddressStore: f_supplierAddressStore->Ok_0,
                supplierStoreTime: f_supplierStoreTime->Ok_0,
                supplierStoreWho: f_supplierStoreWho->Ok_0,
                supplierStorePhone: f_supplierStorePhone->Ok_0,
                supplierFullName: f_supplierFullName->Ok_0,
            },
        )
    }
}

/// Maps a `Seller` row to a supplier.
pub fn try_map_supplier(row: &Row) -> (r: Result<Supplier, DbError>)
    ensures
        r == supplier_of_row(*row),
{
    Ok(
        Supplier {
            supplierId: row.required("SellerID")?,
            supplierName: row.string("SellerName")?,
            supplierPhone: row.string("SellerPhone")?,
            supplierFax: row.string("SellerFax")?,
            supplierManager: row.string("SellerManager")?,
            supplierEmail: row.string("SellerEmail")?,
            supplierAddressDoc: row.string("SellerAddressDoc")?,
            supplierAddressFact: row.string("SellerAddressFact")?,
            supplierAddressStore: row.string("SellerAddressStore")?,
            supplierStoreTime: row.string("SellerStoreTime")?,
            supplierStoreWho: row.string("SellerStoreWho")?,
            supplierStorePhone: row.string("SellerStorePhone")?,
            supplierFullName: row.string("SellerFullName")?,
        },
    )
}

} // verus!

use consum::errors::DbError;
use consum::mapping::{try_map_category, try_map_order, try_map_supplier};
use consum::model::{Category, Order};
use consum::row::{Column, Row, SqlDateTime, SqlValue};

fn row(cols: Vec<(&str, SqlValue)>) -> Row {
    Row {
        columns: cols
            .into_iter()
            .map(|(n, v)| Column { name: n.to_string(), value: v })
            .collect(),
    }
}

fn text(s: &str) -> SqlValue {
    SqlValue::Text(s.to_string())
}

#[test]
fn category_maps_all_fields() {
    let r = row(vec![
        ("CatID", SqlValue::I32(7)),
        ("ParentID", SqlValue::I32(2)),
        ("CatName", text("Fruit")),
        ("CatUnitCode", SqlValue::I32(1)),
        ("Code", SqlValue::I32(100)),
    ]);
    assert_eq!(
        try_map_category(&r),
        Ok(Category {
            catId: 7,
            parentId: Some(2),
            catName: Some("Fruit".to_string()),
            catUnitCode: 1,
            code: 100,
        })
    );
}

#[test]
fn category_nulls_and_defaults() {
    let r = row(vec![
        ("CatID", SqlValue::I32(7)),
        ("ParentID", SqlValue::Null),
        ("CatName", SqlValue::Null),
        ("CatUnitCode", SqlValue::Null),
    ]);
    assert_eq!(
        try_map_category(&r),
        Ok(Category { catId: 7, parentId: None, catName: None, catUnitCode: 0, code: 0 })
    );
}

#[test]
fn category_without_identity_fails() {
    let r = row(vec![("CatID", SqlValue::Null), ("CatName", text("x"))]);
    assert_eq!(try_map_category(&r), Err(DbError::MissingRequiredField));
}

#[test]
fn category_first_failing_field_wins() {
    let r = row(vec![("CatID", SqlValue::I32(1)), ("ParentID", text("bad")), ("CatName", SqlValue::I32(3))]);
    assert_eq!(try_map_category(&r), Err(DbError::Conversion));
}

#[test]
fn order_maps_fields() {
    let d = SqlDateTime { days_from_ce: 737425, seconds: 0, nanoseconds: 0 };
    let r = row(vec![
        ("ConsID", SqlValue::I32(11)),
        ("OrderState", SqlValue::Null),
        ("IncomeDate", SqlValue::DateTime(d)),
        ("AccountNum", text("A-1")),
        ("AccountDate", SqlValue::Null),
        ("BySelf", SqlValue::I32(1)),
        ("HasTrust", SqlValue::Bit(true)),
        ("SellerID", SqlValue::I32(4)),
        ("TrustNum", SqlValue::Null),
        ("TrustSer", SqlValue::Null),
        ("Comment", text("c")),
        ("EnterpriseID", SqlValue::I32(2)),
    ]);
    assert_eq!(
        try_map_order(&r),
        Ok(Order {
            consId: 11,
            orderState: 0,
            incomeDate: Some(d),
            supplierId: 4,
            accountNum: Some("A-1".to_string()),
            accountDate: None,
            bySelf: Some(1),
            hasTrust: true,
            trustSer: None,
            trustNum: None,
            comment: Some("c".to_string()),
            enterpriseId: 2,
        })
    );
}

#[test]
fn order_bad_date_is_conversion_error() {
    let r = row(vec![("ConsID", SqlValue::I32(1)), ("IncomeDate", text("yesterday"))]);
    assert_eq!(try_map_order(&r), Err(DbError::Conversion));
}

#[test]
fn supplier_maps_text_fields() {
    let r = row(vec![
        ("SellerID", SqlValue::I32(3)),
        ("SellerName", text("Acme")),
        ("SellerPhone", SqlValue::Null),
        ("SellerEmail", text("a@b.c")),
    ]);
    let s = try_map_supplier(&r).unwrap();
    assert_eq!(s.supplierId, 3);
    assert_eq!(s.supplierName, Some("Acme".to_string()));
    assert_eq!(s.supplierPhone, None);
    assert_eq!(s.supplierEmail, Some("a@b.c".to_string()));
    assert_eq!(s.supplierFullName, None);
}

#[test]
fn supplier_missing_identity_fails() {
    let r = row(vec![("SellerName", text("Acme"))]);
    assert_eq!(try_map_supplier(&r), Err(DbError::MissingRequiredField));
}

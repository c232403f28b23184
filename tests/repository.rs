use consum::errors::DbError;
use consum::model::{Category, CreateCategory, CreateOrder, CreateSupplier, Supplier};
use consum::repository::{
    categories_query, category_by_id, create_category_statement, create_order_statement,
    create_supplier_statement, delete_category_statement, finish_categories, finish_delete,
    finish_get_category, finish_get_order, finish_get_supplier, finish_orders, generated_identity,
    order_by_id, orders_query, supplier_by_id, supplier_by_name, SqlParam,
};
use consum::row::{Column, Row, SqlDateTime, SqlValue};

fn row(cols: Vec<(&str, SqlValue)>) -> Row {
    Row {
        columns: cols
            .into_iter()
            .map(|(n, v)| Column { name: n.to_string(), value: v })
            .collect(),
    }
}

/// What a table holds after an insert bound `params` to `cols`.
fn stored(id_col: &str, id: i32, cols: &[&str], params: &[SqlParam]) -> Row {
    let mut v = vec![(id_col, SqlValue::I32(id))];
    for (c, p) in cols.iter().zip(params.iter()) {
        let value = match p {
            SqlParam::Int(Some(x)) => SqlValue::I32(*x),
            SqlParam::Text(Some(s)) => SqlValue::Text(s.clone()),
            SqlParam::Bit(b) => SqlValue::Bit(*b),
            SqlParam::DateTime(d) => SqlValue::DateTime(*d),
            _ => SqlValue::Null,
        };
        v.push((*c, value));
    }
    row(v)
}

#[test]
fn list_orders_on_empty_table_is_empty_success() {
    assert_eq!(finish_orders(&vec![]), Ok(vec![]));
    assert_eq!(finish_categories(&vec![]), Ok(vec![]));
    assert!(orders_query().params.is_empty());
    assert!(categories_query().params.is_empty());
}

#[test]
fn list_maps_every_row_in_order() {
    let rows = vec![
        row(vec![("CatID", SqlValue::I32(1)), ("CatName", SqlValue::Text("a".to_string()))]),
        row(vec![("CatID", SqlValue::I32(2))]),
    ];
    let cats = finish_categories(&rows).unwrap();
    assert_eq!(cats.len(), 2);
    assert_eq!(cats[0].catId, 1);
    assert_eq!(cats[0].catName, Some("a".to_string()));
    assert_eq!(cats[1].catId, 2);
}

#[test]
fn list_fails_on_first_bad_row() {
    let rows = vec![
        row(vec![("ConsID", SqlValue::I32(1))]),
        row(vec![("ConsID", SqlValue::Null)]),
        row(vec![("ConsID", SqlValue::Text("x".to_string()))]),
    ];
    assert_eq!(finish_orders(&rows), Err(DbError::MissingRequiredField));
}

#[test]
fn get_order_without_row_is_record_not_found() {
    assert_eq!(order_by_id(5).params, vec![SqlParam::Int(Some(5))]);
    assert_eq!(finish_get_order(&None), Err(DbError::RecordNotFound));
    assert_eq!(finish_get_category(&None), Err(DbError::RecordNotFound));
    assert_eq!(finish_get_supplier(&None), Err(DbError::RecordNotFound));
}

#[test]
fn get_order_with_row_maps_it() {
    let r = row(vec![("ConsID", SqlValue::I32(9)), ("HasTrust", SqlValue::Bit(true))]);
    let o = finish_get_order(&Some(r)).unwrap();
    assert_eq!(o.consId, 9);
    assert!(o.hasTrust);
}

#[test]
fn create_category_returns_stored_record() {
    let input = CreateCategory { parentId: None, catName: "Fruit".to_string(), catUnitCode: 1, code: 100 };
    let insert = create_category_statement(&input);
    assert_eq!(
        insert.params,
        vec![
            SqlParam::Int(None),
            SqlParam::Text(Some("Fruit".to_string())),
            SqlParam::Int(Some(1)),
            SqlParam::Int(Some(100)),
        ]
    );
    assert!(insert.sql.contains("SCOPE_IDENTITY"));
    let id = generated_identity(&Some(row(vec![("Id", SqlValue::I32(42))]))).unwrap();
    assert_eq!(id, 42);
    assert_eq!(category_by_id(id).params, vec![SqlParam::Int(Some(42))]);
    let table_row = stored("CatID", id, &["ParentID", "CatName", "CatUnitCode", "Code"], &insert.params);
    assert_eq!(
        finish_get_category(&Some(table_row)),
        Ok(Category { catId: 42, parentId: None, catName: Some("Fruit".to_string()), catUnitCode: 1, code: 100 })
    );
}

#[test]
fn create_supplier_round_trip() {
    let input = CreateSupplier {
        supplierName: Some("Acme".to_string()),
        supplierPhone: None,
        supplierFax: Some("fax".to_string()),
        supplierManager: None,
        supplierEmail: Some("a@b.c".to_string()),
        supplierAddressDoc: None,
        supplierAddressFact: None,
        supplierAddressStore: Some("store".to_string()),
        supplierStoreTime: None,
        supplierStoreWho: None,
        supplierStorePhone: None,
        supplierFullName: Some("Acme Ltd".to_string()),
    };
    let insert = create_supplier_statement(&input);
    assert_eq!(insert.params.len(), 12);
    let cols = [
        "SellerName", "SellerPhone", "SellerFax", "SellerManager", "SellerEmail", "SellerAddressDoc",
        "SellerAddressFact", "SellerAddressStore", "SellerStoreTime", "SellerStoreWho",
        "SellerStorePhone", "SellerFullName",
    ];
    let back = finish_get_supplier(&Some(stored("SellerID", 8, &cols, &insert.params))).unwrap();
    assert_eq!(
        back,
        Supplier {
            supplierId: 8,
            supplierName: input.supplierName.clone(),
            supplierPhone: None,
            supplierFax: input.supplierFax.clone(),
            supplierManager: None,
            supplierEmail: input.supplierEmail.clone(),
            supplierAddressDoc: None,
            supplierAddressFact: None,
            supplierAddressStore: input.supplierAddressStore.clone(),
            supplierStoreTime: None,
            supplierStoreWho: None,
            supplierStorePhone: None,
            supplierFullName: input.supplierFullName.clone(),
        }
    );
}

#[test]
fn create_order_binds_procedure_arguments() {
    let d1 = SqlDateTime { days_from_ce: 737000, seconds: 10, nanoseconds: 0 };
    let d2 = SqlDateTime { days_from_ce: 737001, seconds: 20, nanoseconds: 0 };
    let input = CreateOrder {
        accountNum: "N1".to_string(),
        accountDate: d1,
        incomeDate: d2,
        hasTrust: false,
        trustSer: Some("S".to_string()),
        trustNum: None,
        supplierId: 3,
        bySelf: Some(1),
        comment: "c".to_string(),
        enterpriseId: 5,
    };
    let st = create_order_statement(&input);
    assert_eq!(
        st.params,
        vec![
            SqlParam::Text(Some("N1".to_string())),
            SqlParam::DateTime(d1),
            SqlParam::DateTime(d2),
            SqlParam::Bit(false),
            SqlParam::Text(Some("S".to_string())),
            SqlParam::Int(None),
            SqlParam::Int(Some(3)),
            SqlParam::Int(Some(1)),
            SqlParam::Text(Some("c".to_string())),
            SqlParam::Int(Some(5)),
        ]
    );
    assert!(st.sql.contains("up_NewAccount"));
}

#[test]
fn identity_missing_or_null_is_record_not_found() {
    assert_eq!(generated_identity(&None), Err(DbError::RecordNotFound));
    assert_eq!(generated_identity(&Some(row(vec![("Id", SqlValue::Null)]))), Err(DbError::RecordNotFound));
    assert_eq!(generated_identity(&Some(row(vec![("Other", SqlValue::I32(1))]))), Err(DbError::RecordNotFound));
    assert_eq!(
        generated_identity(&Some(row(vec![("Id", SqlValue::Text("1".to_string()))]))),
        Err(DbError::Conversion)
    );
}

#[test]
fn delete_needs_an_affected_row() {
    assert_eq!(delete_category_statement(3).params, vec![SqlParam::Int(Some(3))]);
    assert_eq!(finish_delete(&vec![1]), Ok(()));
    assert_eq!(finish_delete(&vec![0]), Err(DbError::RecordNotFound));
    assert_eq!(finish_delete(&vec![]), Err(DbError::RecordNotFound));
}

#[test]
fn supplier_lookups_bind_their_key() {
    assert_eq!(supplier_by_id(4).params, vec![SqlParam::Int(Some(4))]);
    assert_eq!(supplier_by_name("Acme").params, vec![SqlParam::Text(Some("Acme".to_string()))]);
}

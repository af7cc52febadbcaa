use filter_pushdown::common::table_reference::{PyTableReference, TableReference};

#[test]
fn bare_reference() {
    let reference = PyTableReference::bare("orders");
    assert_eq!(
        reference.table_reference,
        TableReference::Bare { table: "orders".to_string() }
    );
    assert_eq!(reference.table(), "orders");
    assert_eq!(reference.schema(), None);
    assert_eq!(reference.catalog(), None);
    assert!(reference.is_bare());
    assert!(!reference.is_partial());
    assert!(!reference.is_full());
    assert_eq!(reference.to_string(), "orders");
    assert_eq!(reference.repr(), "TableReference('orders')");
}

#[test]
fn partial_reference() {
    let reference = PyTableReference::partial("sales", "orders");
    assert_eq!(
        reference.table_reference,
        TableReference::Partial { schema: "sales".to_string(), table: "orders".to_string() }
    );
    assert_eq!(reference.table(), "orders");
    assert_eq!(reference.schema(), Some("sales"));
    assert_eq!(reference.catalog(), None);
    assert!(!reference.is_bare());
    assert!(reference.is_partial());
    assert!(!reference.is_full());
    assert_eq!(reference.to_string(), "sales.orders");
    assert_eq!(reference.repr(), "TableReference('sales.orders')");
}

#[test]
fn full_reference() {
    let reference = PyTableReference::full("prod", "sales", "orders");
    assert_eq!(
        reference.table_reference,
        TableReference::Full {
            catalog: "prod".to_string(),
            schema: "sales".to_string(),
            table: "orders".to_string()
        }
    );
    assert_eq!(reference.table(), "orders");
    assert_eq!(reference.schema(), Some("sales"));
    assert_eq!(reference.catalog(), Some("prod"));
    assert!(!reference.is_bare());
    assert!(!reference.is_partial());
    assert!(reference.is_full());
    assert_eq!(reference.to_string(), "prod.sales.orders");
    assert_eq!(reference.repr(), "TableReference('prod.sales.orders')");
}

#[test]
fn names_are_kept_as_given() {
    let reference = PyTableReference::full("", "My Schema", "a.b");
    assert_eq!(reference.catalog(), Some(""));
    assert_eq!(reference.schema(), Some("My Schema"));
    assert_eq!(reference.table(), "a.b");
    assert_eq!(reference.to_string(), ".My Schema.a.b");
    let reference = PyTableReference::bare("Ünïcode");
    assert_eq!(reference.table(), "Ünïcode");
    assert_eq!(reference.repr(), "TableReference('Ünïcode')");
}

#[test]
fn wrapping_and_unwrapping() {
    let inner = TableReference::Partial { schema: "s".to_string(), table: "t".to_string() };
    let wrapped = PyTableReference::new(inner.clone());
    assert_eq!(wrapped.table_reference, inner);
    assert_eq!(PyTableReference::from(inner.clone()), wrapped);
    assert_eq!(TableReference::from(wrapped.clone()), inner);
    assert_eq!(wrapped.clone(), wrapped);
    assert_eq!(wrapped, PyTableReference::partial("s", "t"));
}

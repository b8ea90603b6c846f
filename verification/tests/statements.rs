//! The exact text and bound parameters of each built statement.

use dbrepo::errors::FetchError;
use dbrepo::fields::FieldMap;
use dbrepo::repository::{build_delete, build_fetch_all, build_fetch_one, build_insert,
    build_update};
use dbrepo::sql::Param;

fn placeholder_count(s: &str) -> usize {
    s.chars().filter(|c| *c == '?').count()
}

#[test]
fn fetch_all_plain_table() {
    let st = build_fetch_all("products", None, None, None);
    assert_eq!(st.text, "SELECT * FROM `products`");
    assert!(st.params.is_empty());
}

#[test]
fn fetch_all_with_all_clauses() {
    let st = build_fetch_all("wpbi_posts", Some(10), Some(0), Some("post_type='post'"));
    assert_eq!(
        st.text,
        "SELECT * FROM `wpbi_posts` WHERE post_type='post' LIMIT 10 OFFSET 0"
    );
    assert!(st.params.is_empty());
}

#[test]
fn fetch_all_limit_only() {
    let st = build_fetch_all("items", Some(25), None, None);
    assert_eq!(st.text, "SELECT * FROM `items` LIMIT 25");
}

#[test]
fn fetch_all_offset_only() {
    let st = build_fetch_all("items", None, Some(120), None);
    assert_eq!(st.text, "SELECT * FROM `items` OFFSET 120");
}

#[test]
fn fetch_all_condition_only() {
    let st = build_fetch_all("items", None, None, Some("price > 10 ORDER BY id"));
    assert_eq!(st.text, "SELECT * FROM `items` WHERE price > 10 ORDER BY id");
}

#[test]
fn fetch_one_statement_shape() {
    let st = build_fetch_one("products", 110);
    assert_eq!(st.text, "SELECT * FROM `products` WHERE id = ?");
    assert_eq!(st.params, vec![Param::Id(110)]);
}

#[test]
fn insert_statement_shape() {
    let mut fields = FieldMap::new();
    fields.insert("name".to_string(), "New Product".to_string());
    fields.insert("price".to_string(), "99.99".to_string());
    fields.insert("description".to_string(), "A newly added product".to_string());
    fields.insert("category_id".to_string(), "1".to_string());
    let st = build_insert("products", &fields).unwrap();
    assert_eq!(
        st.text,
        "INSERT INTO products (name, price, description, category_id) VALUES (?, ?, ?, ?)"
    );
    assert_eq!(
        st.params,
        vec![
            Param::Text("New Product".to_string()),
            Param::Text("99.99".to_string()),
            Param::Text("A newly added product".to_string()),
            Param::Text("1".to_string()),
        ]
    );
}

#[test]
fn insert_single_field() {
    let mut fields = FieldMap::new();
    fields.insert("name".to_string(), "Widget".to_string());
    let st = build_insert("products", &fields).unwrap();
    assert_eq!(st.text, "INSERT INTO products (name) VALUES (?)");
    assert_eq!(st.params, vec![Param::Text("Widget".to_string())]);
}

#[test]
fn insert_empty_fields_rejected() {
    let fields = FieldMap::new();
    let err = build_insert("products", &fields).unwrap_err();
    match &err {
        FetchError::QueryFailure(cause) => {
            assert_eq!(cause, "cannot build a statement from an empty field map");
        },
        other => panic!("expected QueryFailure, got {:?}", other),
    }
}

#[test]
fn update_statement_shape() {
    let mut fields = FieldMap::new();
    fields.insert("name".to_string(), "Updated Product Name".to_string());
    fields.insert("price".to_string(), "199.99".to_string());
    let st = build_update("products", 110, &fields).unwrap();
    assert_eq!(st.text, "UPDATE products SET name = ?, price = ? WHERE id = ?");
    assert_eq!(
        st.params,
        vec![
            Param::Text("Updated Product Name".to_string()),
            Param::Text("199.99".to_string()),
            Param::Id(110),
        ]
    );
}

#[test]
fn update_empty_fields_rejected() {
    let fields = FieldMap::new();
    let err = build_update("products", 110, &fields).unwrap_err();
    match &err {
        FetchError::QueryFailure(cause) => {
            assert_eq!(cause, "cannot build a statement from an empty field map");
        },
        other => panic!("expected QueryFailure, got {:?}", other),
    }
}

#[test]
fn delete_statement_shape() {
    let st = build_delete("products", 110);
    assert_eq!(st.text, "DELETE FROM products WHERE id = ?");
    assert_eq!(st.params, vec![Param::Id(110)]);
}

#[test]
fn placeholders_equal_bound_values() {
    let mut fields = FieldMap::new();
    fields.insert("name".to_string(), "Widget".to_string());
    fields.insert("price".to_string(), "9.99".to_string());
    fields.insert("category_id".to_string(), "1".to_string());
    let statements = vec![
        build_fetch_all("products", Some(10), Some(0), Some("price > 1")),
        build_fetch_one("products", 7),
        build_insert("products", &fields).unwrap(),
        build_update("products", 7, &fields).unwrap(),
        build_delete("products", 7),
    ];
    for st in &statements {
        assert_eq!(placeholder_count(&st.text), st.params.len());
    }
}

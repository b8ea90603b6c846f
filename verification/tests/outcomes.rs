//! Typed results from raw engine outcomes, the record shapes, the field
//! map, error messages, and decimal numerals.

use dbrepo::errors::FetchError;
use dbrepo::fields::FieldMap;
use dbrepo::models::{Decimal, Post, Product};
use dbrepo::repository::{affected_rows_outcome, build_fetch_all, fetch_all_outcome, fetch_one_outcome};
use dbrepo::text::u32_to_dec;

#[allow(non_snake_case)]
fn sample_post(ID: u32, title: &str) -> Post {
    Post {
        ID,
        post_title: title.to_string(),
        post_content: "body".to_string(),
        post_type: Some("post".to_string()),
    }
}

#[test]
fn empty_row_set_is_an_error() {
    let rows: Vec<Post> = Vec::new();
    let r = fetch_all_outcome("wpbi_posts", rows);
    match r {
        Err(FetchError::NoRecordsFound(table)) => assert_eq!(table, "wpbi_posts"),
        other => panic!("expected NoRecordsFound, got {:?}", other),
    }
}

#[test]
fn rows_pass_through_in_order() {
    let rows = vec![sample_post(3, "third"), sample_post(1, "first"), sample_post(2, "second")];
    let r = fetch_all_outcome("wpbi_posts", rows.clone()).unwrap();
    assert_eq!(r, rows);
}

#[test]
fn fetch_one_hit_keeps_the_record() {
    let post = sample_post(26458, "hello");
    let r = fetch_one_outcome(26458, Some(post.clone())).unwrap();
    assert_eq!(r, post);
    assert_eq!(r.ID, 26458);
}

#[test]
fn fetch_one_miss_names_the_id() {
    let r: Result<Post, FetchError> = fetch_one_outcome(26458, None);
    match r {
        Err(FetchError::NoRecordFound(id)) => assert_eq!(id, 26458),
        other => panic!("expected NoRecordFound, got {:?}", other),
    }
}

#[test]
fn product_scenario() {
    let widget = Product {
        id: 1,
        name: "Widget".to_string(),
        price: Decimal { mantissa: 999, scale: 2 },
        description: None,
    };
    let st = build_fetch_all("products", Some(10), Some(0), None);
    assert_eq!(st.text, "SELECT * FROM `products` LIMIT 10 OFFSET 0");
    let fetched = fetch_all_outcome("products", vec![widget.clone()]).unwrap();
    assert_eq!(fetched, vec![widget]);
    let miss: Result<Product, FetchError> = fetch_one_outcome(999, None);
    match miss {
        Err(FetchError::NoRecordFound(id)) => assert_eq!(id, 999),
        other => panic!("expected NoRecordFound, got {:?}", other),
    }
}

#[test]
fn error_messages() {
    let q = FetchError::QueryFailure("connection reset".to_string());
    assert_eq!(q.message(), "Database query failed: connection reset");
    let nr = FetchError::NoRecordsFound("products".to_string());
    assert_eq!(nr.message(), "No records found in table products");
    let n1 = FetchError::NoRecordFound(999);
    assert_eq!(n1.message(), "No record found with id 999");
}

#[test]
fn decimal_numerals() {
    assert_eq!(u32_to_dec(0), "0");
    assert_eq!(u32_to_dec(7), "7");
    assert_eq!(u32_to_dec(10), "10");
    assert_eq!(u32_to_dec(26458), "26458");
    assert_eq!(u32_to_dec(4294967295), "4294967295");
}

#[test]
fn field_map_replaces_in_place() {
    let mut fields = FieldMap::new();
    fields.insert("name".to_string(), "old".to_string());
    fields.insert("price".to_string(), "1.00".to_string());
    fields.insert("name".to_string(), "new".to_string());
    assert_eq!(fields.len(), 2);
    assert_eq!(fields.column_at(0), "name");
    assert_eq!(fields.value_at(0), "new");
    assert_eq!(fields.column_at(1), "price");
    assert_eq!(fields.value_at(1), "1.00");
}

#[test]
fn field_map_len_and_empty() {
    let mut fields = FieldMap::new();
    assert!(fields.is_empty());
    assert_eq!(fields.len(), 0);
    fields.insert("a".to_string(), "1".to_string());
    assert!(!fields.is_empty());
    assert_eq!(fields.len(), 1);
}

#[test]
fn zero_affected_rows_is_not_an_error() {
    assert_eq!(affected_rows_outcome(0), Ok(0));
    assert_eq!(affected_rows_outcome(1), Ok(1));
    assert_eq!(affected_rows_outcome(42), Ok(42));
}

//! The entity mapper: round trips, and each decode failure.

use rowmap::blog;
use rowmap::error::DecodeError;
use rowmap::posts::{decode_post, encode_post, Post};
use rowmap::schema::{
    blog_posts_table, check_row, posts_table, posts_users_relationship, users_table,
};
use rowmap::value::Value;

#[test]
fn post_round_trip_with_body() {
    let post = Post::new(7, "A title", Some("A body"));
    let row = encode_post(&post);
    let back = decode_post(&row).unwrap();
    assert_eq!(post, back);
}

#[test]
fn post_round_trip_without_body() {
    let post = Post::new(1, "Only a title", None);
    let row = encode_post(&post);
    let back = decode_post(&row).unwrap();
    assert_eq!(post, back);
}

#[test]
fn decode_rejects_wrong_column_count() {
    let row = vec![Value::Int(1), Value::Text(String::from("no body cell"))];
    assert_eq!(decode_post(&row), Err(DecodeError::ColumnCount));
}

#[test]
fn decode_rejects_wrong_column_type() {
    let row = vec![
        Value::Text(String::from("not a key")),
        Value::Text(String::from("title")),
        Value::Null,
    ];
    assert_eq!(decode_post(&row), Err(DecodeError::ColumnType));
}

#[test]
fn decode_rejects_null_in_non_nullable_column() {
    let row = vec![Value::Int(1), Value::Null, Value::Null];
    assert_eq!(decode_post(&row), Err(DecodeError::ColumnType));
}

#[test]
fn conforming_row_is_accepted_by_schema_and_mapper() {
    let table = posts_table();
    let good = vec![
        Value::Int(3),
        Value::Text(String::from("t")),
        Value::Null,
    ];
    assert!(check_row(&good, &table));
    assert!(decode_post(&good).is_ok());

    let bad = vec![Value::Int(3), Value::Int(4), Value::Null];
    assert!(!check_row(&bad, &table));
    assert!(decode_post(&bad).is_err());
}

#[test]
fn user_round_trip() {
    let user = blog::User::new(2, "Jane");
    let row = blog::encode_user(&user);
    let back = blog::decode_user(&row).unwrap();
    assert_eq!(user, back);

    let table = users_table();
    assert!(check_row(&row, &table));
}

#[test]
fn blog_post_round_trip() {
    let post = blog::Post::new(4, "Owned", Some("by Julia"), 1);
    let row = blog::encode_blog_post(&post);
    let back = blog::decode_blog_post(&row).unwrap();
    assert_eq!(post, back);
}

#[test]
fn relationship_links_the_foreign_key_to_the_parent_key() {
    let rel = posts_users_relationship();
    let child = blog_posts_table();
    let parent = users_table();
    assert_eq!(rel.child, child.name);
    assert_eq!(rel.parent, parent.name);
    assert_eq!(child.columns[rel.fk_column].name, "user_id");
    assert_eq!(parent.columns[rel.pk_column].name, "id");
}

#[test]
fn blog_post_decode_rejects_short_row() {
    let row = vec![
        Value::Int(4),
        Value::Text(String::from("no user id")),
        Value::Null,
    ];
    assert_eq!(blog::decode_blog_post(&row), Err(DecodeError::ColumnCount));
}

//! Error conditions and edge cases of the query operations.

use rowmap::blogdb;
use rowmap::error::QueryError;
use rowmap::postdb::connection;
use rowmap::posts::Post;
use rowmap::queries::{
    exec_insert_post_row, get_all_post_titles, get_all_posts, get_post, posts_about_rust,
    save_new_post, update_post, update_post_title,
};
use rowmap::value::Value;

#[test]
fn empty_store_loads_nothing() {
    let conn = connection();
    assert_eq!(get_all_post_titles(&conn).unwrap(), Vec::<String>::new());
    assert_eq!(get_all_posts(&conn).unwrap(), Vec::<Post>::new());
}

#[test]
fn raw_insert_rejects_a_malformed_row() {
    let mut conn = connection();
    let row = vec![Value::Text(String::from("not a key"))];
    assert_eq!(
        exec_insert_post_row(&mut conn, row),
        Err(QueryError::Malformed)
    );
    assert_eq!(get_all_posts(&conn).unwrap(), Vec::<Post>::new());
}

#[test]
fn raw_insert_rejects_a_taken_key() {
    let mut conn = connection();
    save_new_post(&mut conn, "First", "body").unwrap();
    let row = vec![
        Value::Int(1),
        Value::Text(String::from("Duplicate")),
        Value::Null,
    ];
    assert_eq!(
        exec_insert_post_row(&mut conn, row),
        Err(QueryError::ConstraintViolation)
    );
    assert_eq!(get_all_posts(&conn).unwrap().len(), 1);
}

#[test]
fn raw_insert_moves_the_sequence_past_its_key() {
    let mut conn = connection();
    let row = vec![
        Value::Int(5),
        Value::Text(String::from("Explicit key")),
        Value::Null,
    ];
    exec_insert_post_row(&mut conn, row).unwrap();
    save_new_post(&mut conn, "Assigned key", "body").unwrap();
    assert_eq!(
        get_all_posts(&conn).unwrap(),
        vec![
            Post::new(5, "Explicit key", None),
            Post::new(6, "Assigned key", Some("body")),
        ]
    );
}

#[test]
fn update_by_missing_key_is_not_found() {
    let mut conn = connection();
    save_new_post(&mut conn, "Here", "body").unwrap();
    assert_eq!(
        update_post_title(&mut conn, 42, "New title"),
        Err(QueryError::NotFound)
    );
    assert_eq!(
        get_all_posts(&conn).unwrap(),
        vec![Post::new(1, "Here", Some("body"))]
    );
}

#[test]
fn update_targets_only_its_row() {
    let mut conn = connection();
    save_new_post(&mut conn, "One", "first").unwrap();
    save_new_post(&mut conn, "Two", "second").unwrap();
    update_post_title(&mut conn, 2, "Two, renamed").unwrap();
    assert_eq!(
        get_all_posts(&conn).unwrap(),
        vec![
            Post::new(1, "One", Some("first")),
            Post::new(2, "Two, renamed", Some("second")),
        ]
    );
}

#[test]
fn whole_record_update_of_a_missing_key_changes_nothing() {
    let mut conn = connection();
    save_new_post(&mut conn, "Stays", "body").unwrap();
    update_post(&mut conn, Post::new(9, "Nobody", None)).unwrap();
    assert_eq!(
        get_all_posts(&conn).unwrap(),
        vec![Post::new(1, "Stays", Some("body"))]
    );
}

#[test]
fn select_by_missing_key_is_not_found() {
    let conn = connection();
    assert_eq!(get_post(&conn, 1), Err(QueryError::NotFound));
}

#[test]
fn filter_with_no_match_is_empty() {
    let mut conn = connection();
    save_new_post(&mut conn, "A sonnet for Go", "no match").unwrap();
    assert_eq!(posts_about_rust(&conn).unwrap(), Vec::<Post>::new());
}

#[test]
fn join_with_missing_post_is_not_found() {
    let conn = blogdb::connection();
    assert_eq!(
        blogdb::load_post_and_user(&conn, 1),
        Err(QueryError::NotFound)
    );
}

#[test]
fn join_with_dangling_foreign_key_is_not_found() {
    let mut conn = blogdb::connection();
    blogdb::insert_post(&mut conn, "Orphan", 5).unwrap();
    assert_eq!(
        blogdb::load_post_and_user(&conn, 1),
        Err(QueryError::NotFound)
    );
}

#[test]
fn association_load_of_a_user_without_posts_is_empty() {
    let mut conn = blogdb::connection();
    blogdb::insert_user(&mut conn, "Julia").unwrap();
    let data = blogdb::load_all_users_and_posts(&conn).unwrap();
    assert_eq!(
        data,
        vec![(rowmap::blog::User::new(1, "Julia"), Vec::new())]
    );
}

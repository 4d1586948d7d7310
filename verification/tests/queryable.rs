//! Loading rows into columns, tuples, and record structs.

use rowmap::error::QueryError;
use rowmap::postdb::connection;
use rowmap::posts::{NewPost, Post};
use rowmap::queries::{
    exec_insert_post_row, get_all_post_data, get_all_post_titles, get_all_posts, save_new_posts,
};
use rowmap::value::Value;

#[test]
fn loading_single_column() -> Result<(), QueryError> {
    let mut conn = connection();
    save_new_posts(
        &mut conn,
        vec![
            NewPost::new("My First Post", None),
            NewPost::new("My Second Post", None),
        ],
    )?;

    let expected_titles = vec![
        String::from("My First Post"),
        String::from("My Second Post"),
    ];
    let actual_titles = get_all_post_titles(&conn)?;

    assert_eq!(expected_titles, actual_titles);

    Ok(())
}

#[test]
fn loading_a_tuple() -> Result<(), QueryError> {
    let mut conn = connection();
    exec_insert_post_row(
        &mut conn,
        vec![
            Value::Int(1),
            Value::Text(String::from("My First Post")),
            Value::Text(String::from("It's a good post")),
        ],
    )?;
    exec_insert_post_row(
        &mut conn,
        vec![
            Value::Int(2),
            Value::Text(String::from("My Second Post")),
            Value::Null,
        ],
    )?;

    let expected_posts = vec![
        (
            1,
            String::from("My First Post"),
            Some(String::from("It's a good post")),
        ),
        (2, String::from("My Second Post"), None),
    ];
    let actual_posts = get_all_post_data(&conn)?;

    assert_eq!(expected_posts, actual_posts);

    Ok(())
}

#[test]
fn loading_a_struct() -> Result<(), QueryError> {
    let mut conn = connection();
    exec_insert_post_row(
        &mut conn,
        vec![
            Value::Int(1),
            Value::Text(String::from("My First Post")),
            Value::Text(String::from("It's a good post")),
        ],
    )?;
    exec_insert_post_row(
        &mut conn,
        vec![
            Value::Int(2),
            Value::Text(String::from("My Second Post")),
            Value::Null,
        ],
    )?;

    let expected_posts = vec![
        Post::new(1, "My First Post", Some("It's a good post")),
        Post::new(2, "My Second Post", None),
    ];
    let actual_posts = get_all_posts(&conn)?;

    assert_eq!(expected_posts, actual_posts);

    Ok(())
}
